//! Layered effect manager: an ordered stack of effect layers, composited
//! bottom to top into one render-target board every animation tick.
//!
//! Each layer pairs an effect with a 90-entry key mask; on every tick each
//! layer's effect advances, and for every key whose mask is set the layer's
//! colour overwrites the render target.  Keys no layer enables keep the
//! render target's prior colour.  The freshly composited target's device
//! payload is returned to the caller, which writes it to the hardware.
//!
//! The manager also saves itself as an ordered list of plain records (name,
//! parameter bytes, key mask) and rebuilds itself from such a list, skipping
//! records it does not recognise.

use vstd::prelude::*;

use crate::board::BoardView;
use crate::board::KeyColour;
use crate::board::KeyboardData;
use crate::board::TOTAL_KEYS;
use crate::board::spec_colour_bytes;
use crate::effects::Effect;
use crate::effects::EffectView;
use crate::effects::effect_from_save_name;
use crate::effects::spec_effect_from_save_name;

verus! {

/// The abstract state of one layer: its key mask and its effect's model.
pub ghost struct LayerView {
    pub mask: Seq<bool>,
    pub effect: EffectView,
}

/// An effect combined with a key mask: the mask tells the manager which
/// keys the effect controls, which allows stacked effects.
pub struct EffectLayer {
    key_mask: Vec<bool>,
    effect: Effect,
}

impl View for EffectLayer {
    type V = LayerView;

    closed spec fn view(&self) -> LayerView {
        LayerView { mask: self.key_mask@, effect: self.effect@ }
    }
}

impl EffectLayer {
    /// The mask holds one flag per key and the effect is well formed.
    pub closed spec fn wf(self) -> bool {
        &&& self.key_mask@.len() == TOTAL_KEYS
        &&& self.effect.wf()
    }

    /// Facts every well-formed layer's model satisfies.
    pub proof fn lemma_wf_model(self)
        requires
            self.wf(),
        ensures
            self@.mask.len() == TOTAL_KEYS,
            self@.effect.board().keys.len() == TOTAL_KEYS,
            self@.effect is Static ==> self@.effect.params().len() == 3,
            self@.effect is StaticGradient ==> self@.effect.params().len() == 7,
            self@.effect is WaveGradient ==> self@.effect.params().len() == 7,
            self@.effect is BreathSingle ==> self@.effect.params().len() == 4,
    {
        self.effect.lemma_wf_model();
    }

    /// Pairs an effect with the mask of keys it controls.
    pub fn new(effect: Effect, key_mask: Vec<bool>) -> (layer: EffectLayer)
        requires
            effect.wf(),
            key_mask@.len() == TOTAL_KEYS,
        ensures
            layer.wf(),
            layer@ == (LayerView { mask: key_mask@, effect: effect@ }),
    {
        EffectLayer { key_mask, effect }
    }

    /// One animation tick: advances the layer's effect; the mask never
    /// changes.
    pub fn update(&mut self, now_ms: u64)
        requires
            old(self).wf(),
        ensures
            final(self).wf(),
            final(self)@.mask == old(self)@.mask,
            final(self)@.effect == old(self)@.effect.stepped(now_ms),
    {
        self.effect.update(now_ms);
    }

    /// The colour the layer's effect currently shows at flat key index
    /// `index`.
    pub fn key_at(&self, index: usize) -> (k: KeyColour)
        requires
            self.wf(),
            index < TOTAL_KEYS,
        ensures
            k == self@.effect.board().keys[index as int],
    {
        self.effect.key_at(index)
    }

    /// Whether the layer's mask enables flat key index `index`.
    pub fn mask_at(&self, index: usize) -> (b: bool)
        requires
            self.wf(),
            index < TOTAL_KEYS,
        ensures
            b == self@.mask[index as int],
    {
        self.key_mask[index]
    }
}

/// One saved layer: the effect's name, its parameter bytes, and the layer's
/// key mask — everything needed to rebuild the layer.
pub struct EffectSave {
    pub name: String,
    pub params: Vec<u8>,
    pub mask: Vec<bool>,
}

/// The abstract content of a saved layer record.
pub ghost struct SaveView {
    pub name: Seq<char>,
    pub params: Seq<u8>,
    pub mask: Seq<bool>,
}

impl View for EffectSave {
    type V = SaveView;

    open spec fn view(&self) -> SaveView {
        SaveView { name: self.name@, params: self.params@, mask: self.mask@ }
    }
}

/// The saved records of a layer stack, in layer order.
pub open spec fn spec_save_records(layers: Seq<LayerView>) -> Seq<SaveView> {
    layers.map_values(
        |l: LayerView| SaveView { name: l.effect.name(), params: l.effect.params(), mask: l.mask },
    )
}

/// The layer stack a list of saved records rebuilds: records whose mask is
/// not exactly one flag per key, or whose name no effect answers to, are
/// skipped; all others become layers in record order.
pub open spec fn spec_layers_from_save(records: Seq<SaveView>, now_ms: u64) -> Seq<LayerView>
    decreases records.len(),
{
    if records.len() == 0 {
        Seq::empty()
    } else {
        let rest = spec_layers_from_save(records.drop_last(), now_ms);
        let r = records.last();
        if r.mask.len() == TOTAL_KEYS {
            match spec_effect_from_save_name(r.name, r.params, now_ms) {
                Some(ev) => rest.push(LayerView { mask: r.mask, effect: ev }),
                None => rest,
            }
        } else {
            rest
        }
    }
}

/// The colour key `k` shows after compositing `layers` bottom to top over a
/// prior render target `prev`: the topmost layer whose mask enables `k`
/// wins; if none does, the prior colour stays.
pub open spec fn spec_composite_key(prev: Seq<KeyColour>, layers: Seq<LayerView>, k: int) -> KeyColour
    decreases layers.len(),
{
    if layers.len() == 0 {
        prev[k]
    } else {
        let top = layers.last();
        if top.mask[k] {
            top.effect.board().keys[k]
        } else {
            spec_composite_key(prev, layers.drop_last(), k)
        }
    }
}

/// The abstract state of the manager: the layer stack (bottom to top), the
/// render target, and the last tick's timestamp.
pub ghost struct ManagerView {
    pub layers: Seq<LayerView>,
    pub render: BoardView,
    pub last_update_ms: u64,
}

/// An ordered stack of effect layers plus the render-target board they are
/// composited into.
pub struct EffectManager {
    layers: Vec<EffectLayer>,
    last_update_ms: u64,
    render_board: KeyboardData,
}

impl View for EffectManager {
    type V = ManagerView;

    closed spec fn view(&self) -> ManagerView {
        ManagerView {
            layers: self.layers@.map_values(|l: EffectLayer| l@),
            render: self.render_board@,
            last_update_ms: self.last_update_ms,
        }
    }
}

impl EffectManager {
    /// Every layer is well formed and the render target holds one colour
    /// per key.
    pub closed spec fn wf(self) -> bool {
        &&& self.render_board.wf()
        &&& forall|i: int| 0 <= i < self.layers@.len() ==> (#[trigger] self.layers@[i]).wf()
    }

    /// Facts every well-formed manager's model satisfies.
    pub proof fn lemma_wf_model(self)
        requires
            self.wf(),
        ensures
            self@.render.keys.len() == TOTAL_KEYS,
            forall|i: int|
                0 <= i < self@.layers.len() ==> (#[trigger] self@.layers[i]).mask.len() == TOTAL_KEYS,
            forall|i: int|
                0 <= i < self@.layers.len() ==> (#[trigger] self@.layers[i]).effect.board().keys.len()
                    == TOTAL_KEYS,
    {
        assert forall|i: int| 0 <= i < self@.layers.len() implies (#[trigger] self@.layers[i]).mask.len()
            == TOTAL_KEYS && self@.layers[i].effect.board().keys.len() == TOTAL_KEYS by {
            self.layers@[i].lemma_wf_model();
        }
    }

    /// A fresh manager: no layers, the render target all white with
    /// brightness zero, the tick timestamp started at `now_ms`.
    pub fn new(now_ms: u64) -> (m: EffectManager)
        ensures
            m.wf(),
            m@.layers.len() == 0,
            m@.last_update_ms == now_ms,
            m@.render.brightness == 0,
            m@.render.keys == Seq::new(
                TOTAL_KEYS as nat,
                |i: int| KeyColour { red: 255, green: 255, blue: 255 },
            ),
    {
        let m = EffectManager {
            layers: Vec::new(),
            last_update_ms: now_ms,
            render_board: KeyboardData::new(),
        };
        proof {
            assert(m@.layers =~= Seq::<LayerView>::empty());
            assert(m@.render.keys =~= Seq::new(
                TOTAL_KEYS as nat,
                |i: int| KeyColour { red: 255, green: 255, blue: 255 },
            ));
        }
        m
    }

    /// How many layers the stack currently holds.
    pub fn get_effect_layer_count(&self) -> (n: usize)
        ensures
            n == self@.layers.len(),
    {
        self.layers.len()
    }

    /// Appends a new top layer: `effect` controlling the keys `mask`
    /// enables.
    pub fn push_effect(&mut self, effect: Effect, mask: Vec<bool>)
        requires
            old(self).wf(),
            effect.wf(),
            mask@.len() == TOTAL_KEYS,
        ensures
            final(self).wf(),
            final(self)@.layers == old(self)@.layers.push(
                LayerView { mask: mask@, effect: effect@ },
            ),
            final(self)@.render == old(self)@.render,
            final(self)@.last_update_ms == old(self)@.last_update_ms,
    {
        let ghost m = mask@;
        self.layers.push(EffectLayer::new(effect, mask));
        proof {
            assert(self@.layers =~= old(self)@.layers.push(LayerView { mask: m, effect: effect@ }));
        }
    }

    /// Removes the top layer; an empty stack stays empty.
    pub fn pop_effect(&mut self)
        requires
            old(self).wf(),
        ensures
            final(self).wf(),
            old(self)@.layers.len() > 0 ==> final(self)@.layers == old(self)@.layers.drop_last(),
            old(self)@.layers.len() == 0 ==> final(self)@.layers == old(self)@.layers,
            final(self)@.render == old(self)@.render,
            final(self)@.last_update_ms == old(self)@.last_update_ms,
    {
        if self.layers.len() > 0 {
            self.layers.pop();
        }
        proof {
            if old(self)@.layers.len() > 0 {
                assert(self@.layers =~= old(self)@.layers.drop_last());
            } else {
                assert(self@.layers =~= old(self)@.layers);
            }
        }
    }

    /// One animation tick at wall-clock time `now_ms`: advances every
    /// layer's effect bottom to top, overwrites the render target at every
    /// key an advancing layer's mask enables, stamps the tick time, and
    /// returns the composited render target's flat device payload for the
    /// caller to write through the device interface.
    pub fn update(&mut self, now_ms: u64) -> (out: Vec<u8>)
        requires
            old(self).wf(),
        ensures
            final(self).wf(),
            final(self)@.layers.len() == old(self)@.layers.len(),
            forall|i: int|
                0 <= i < old(self)@.layers.len() ==> (#[trigger] final(self)@.layers[i]).mask == old(
                    self,
                )@.layers[i].mask,
            forall|i: int|
                0 <= i < old(self)@.layers.len() ==> (#[trigger] final(self)@.layers[i]).effect == old(
                    self,
                )@.layers[i].effect.stepped(now_ms),
            forall|k: int|
                0 <= k < TOTAL_KEYS ==> (#[trigger] final(self)@.render.keys[k])
                    == spec_composite_key(old(self)@.render.keys, final(self)@.layers, k),
            final(self)@.render.brightness == old(self)@.render.brightness,
            final(self)@.last_update_ms == now_ms,
            out@ == spec_colour_bytes(final(self)@.render.keys),
            out@.len() == 270,
    {
        let ghost orig = old(self)@;
        let n = self.layers.len();
        let mut li: usize = 0;
        while li < n
            invariant
                n == orig.layers.len(),
                li <= n,
                self.layers@.len() == n,
                self.render_board.wf(),
                forall|i: int| 0 <= i < n ==> (#[trigger] self.layers@[i]).wf(),
                forall|i: int| 0 <= i < n ==> (#[trigger] self.layers@[i])@.mask == orig.layers[i].mask,
                forall|i: int|
                    0 <= i < li ==> (#[trigger] self.layers@[i])@.effect == orig.layers[i].effect.stepped(
                        now_ms,
                    ),
                forall|i: int| li <= i < n ==> (#[trigger] self.layers@[i])@.effect == orig.layers[i].effect,
                self.render_board@.brightness == orig.render.brightness,
                forall|k: int|
                    0 <= k < TOTAL_KEYS ==> (#[trigger] self.render_board@.keys[k])
                        == spec_composite_key(orig.render.keys, self@.layers.take(li as int), k),
            decreases n - li,
        {
            let ghost pre_layers = self@.layers;
            self.layers[li].update(now_ms);
            let ghost done = self@.layers.take(li as int);
            let ghost done_next = self@.layers.take(li as int + 1);
            proof {
                assert(done =~= pre_layers.take(li as int));
                assert(done_next.drop_last() =~= done);
                assert(done_next.last() == self@.layers[li as int]);
            }
            let mut k: usize = 0;
            while k < TOTAL_KEYS
                invariant
                    n == orig.layers.len(),
                    li < n,
                    k <= TOTAL_KEYS,
                    self.layers@.len() == n,
                    self.render_board.wf(),
                    forall|i: int| 0 <= i < n ==> (#[trigger] self.layers@[i]).wf(),
                    forall|i: int|
                        0 <= i < n ==> (#[trigger] self.layers@[i])@.mask == orig.layers[i].mask,
                    forall|i: int|
                        0 <= i <= li ==> (#[trigger] self.layers@[i])@.effect
                            == orig.layers[i].effect.stepped(now_ms),
                    forall|i: int|
                        li < i < n ==> (#[trigger] self.layers@[i])@.effect == orig.layers[i].effect,
                    done == self@.layers.take(li as int),
                    done_next == self@.layers.take(li as int + 1),
                    done_next.drop_last() == done,
                    done_next.last() == self@.layers[li as int],
                    self.render_board@.brightness == orig.render.brightness,
                    forall|kk: int|
                        0 <= kk < k ==> (#[trigger] self.render_board@.keys[kk])
                            == spec_composite_key(orig.render.keys, done_next, kk),
                    forall|kk: int|
                        k <= kk < TOTAL_KEYS ==> (#[trigger] self.render_board@.keys[kk])
                            == spec_composite_key(orig.render.keys, done, kk),
                decreases TOTAL_KEYS - k,
            {
                let masked = self.layers[li].mask_at(k);
                if masked {
                    let c = self.layers[li].key_at(k);
                    self.render_board.set_key_at(k, c);
                }
                k = k + 1;
            }
            li = li + 1;
            proof {
                assert(done_next =~= self@.layers.take(li as int));
            }
        }
        self.last_update_ms = now_ms;
        proof {
            assert(self@.layers.take(n as int) =~= self@.layers);
        }
        let out = self.render_board.update_kbd();
        out
    }

    /// The flattened colour bytes of layer `layer`'s current board, for
    /// introspection.  A request for a layer that does not exist returns an
    /// empty payload instead of failing.
    pub fn get_map(&self, layer: i32) -> (out: Vec<u8>)
        requires
            self.wf(),
        ensures
            0 <= layer < self@.layers.len() ==> out@ == spec_colour_bytes(
                self@.layers[layer as int].effect.board().keys,
            ) && out@.len() == 270,
            !(0 <= layer < self@.layers.len()) ==> out@ == Seq::<u8>::empty(),
    {
        if layer < 0 {
            return Vec::new();
        }
        let idx = layer as usize;
        if idx >= self.layers.len() {
            return Vec::new();
        }
        proof {
            self.layers@[idx as int].lemma_wf_model();
        }
        let ghost keys = self@.layers[idx as int].effect.board().keys;
        let mut out: Vec<u8> = Vec::new();
        let mut k: usize = 0;
        while k < TOTAL_KEYS
            invariant
                self.wf(),
                idx < self.layers@.len(),
                keys == self@.layers[idx as int].effect.board().keys,
                keys.len() == TOTAL_KEYS,
                k <= TOTAL_KEYS,
                out@.len() == 3 * k,
                forall|j: int|
                    0 <= j < out@.len() ==> (#[trigger] out@[j]) == spec_colour_bytes(keys)[j],
            decreases TOTAL_KEYS - k,
        {
            let c = self.layers[idx].key_at(k);
            out.push(c.red);
            out.push(c.green);
            out.push(c.blue);
            k = k + 1;
        }
        proof {
            assert(out@ =~= spec_colour_bytes(keys));
        }
        out
    }

    /// Saves the layer stack as plain records, one per layer in layer
    /// order: the effect's name, its parameter bytes, and the key mask.
    pub fn get_save(&self) -> (records: Vec<EffectSave>)
        requires
            self.wf(),
        ensures
            records@.map_values(|s: EffectSave| s@) == spec_save_records(self@.layers),
    {
        let mut records: Vec<EffectSave> = Vec::new();
        let mut i: usize = 0;
        while i < self.layers.len()
            invariant
                self.wf(),
                i <= self.layers@.len(),
                records@.len() == i,
                forall|j: int|
                    0 <= j < i ==> (#[trigger] records@[j])@ == spec_save_records(self@.layers)[j],
            decreases self.layers@.len() - i,
        {
            let layer = &self.layers[i];
            let name = layer.effect.get_name();
            let params = layer.effect.get_varargs();
            let mask = copy_bools(&layer.key_mask);
            records.push(EffectSave { name, params, mask });
            i = i + 1;
        }
        proof {
            assert(records@.map_values(|s: EffectSave| s@) =~= spec_save_records(self@.layers));
        }
        records
    }

    /// Rebuilds a manager from saved records: each recognised record
    /// becomes a layer in record order; records with a wrong mask length or
    /// an unknown effect name are skipped and loading continues.  The
    /// render target starts fresh and the tick timestamp at `now_ms`.
    pub fn from_save(records: &Vec<EffectSave>, now_ms: u64) -> (m: EffectManager)
        ensures
            m.wf(),
            m@.layers == spec_layers_from_save(records@.map_values(|s: EffectSave| s@), now_ms),
            m@.last_update_ms == now_ms,
            m@.render.brightness == 0,
            m@.render.keys == Seq::new(
                TOTAL_KEYS as nat,
                |i: int| KeyColour { red: 255, green: 255, blue: 255 },
            ),
    {
        let ghost views = records@.map_values(|s: EffectSave| s@);
        let mut m = EffectManager::new(now_ms);
        let mut i: usize = 0;
        while i < records.len()
            invariant
                views == records@.map_values(|s: EffectSave| s@),
                i <= records@.len(),
                m.wf(),
                m@.layers == spec_layers_from_save(views.take(i as int), now_ms),
                m@.last_update_ms == now_ms,
                m@.render.brightness == 0,
                m@.render.keys == Seq::new(
                    TOTAL_KEYS as nat,
                    |i: int| KeyColour { red: 255, green: 255, blue: 255 },
                ),
            decreases records@.len() - i,
        {
            proof {
                assert(views.take(i as int + 1).drop_last() =~= views.take(i as int));
                assert(views.take(i as int + 1).last() == views[i as int]);
            }
            let record = &records[i];
            if record.mask.len() == TOTAL_KEYS {
                match effect_from_save_name(&record.name, &record.params, now_ms) {
                    Some(effect) => {
                        let mask = copy_bools(&record.mask);
                        m.push_effect(effect, mask);
                    },
                    None => {},
                }
            }
            i = i + 1;
        }
        proof {
            assert(views.take(records@.len() as int) =~= views);
        }
        m
    }
}

/// What saving demands of a layer's model: one mask flag per key and the
/// parameter count its variant was constructed with.  Every well-formed
/// layer satisfies it.
pub open spec fn spec_layer_saveable(l: LayerView) -> bool {
    &&& l.mask.len() == TOTAL_KEYS
    &&& (l.effect is Static ==> l.effect.params().len() == 3)
    &&& (l.effect is StaticGradient ==> l.effect.params().len() == 7)
    &&& (l.effect is WaveGradient ==> l.effect.params().len() == 7)
    &&& (l.effect is BreathSingle ==> l.effect.params().len() == 4)
}

/// Rebuilding saveable layers from their own saved records skips nothing
/// and preserves order, masks, names and parameters.
proof fn lemma_rebuild_records(layers: Seq<LayerView>, now_ms: u64)
    requires
        forall|i: int| 0 <= i < layers.len() ==> spec_layer_saveable(#[trigger] layers[i]),
    ensures
        ({
            let rebuilt = spec_layers_from_save(spec_save_records(layers), now_ms);
            &&& rebuilt.len() == layers.len()
            &&& forall|i: int|
                0 <= i < layers.len() ==> (#[trigger] rebuilt[i]).mask == layers[i].mask
            &&& forall|i: int|
                0 <= i < layers.len() ==> (#[trigger] rebuilt[i]).effect.name()
                    == layers[i].effect.name()
            &&& forall|i: int|
                0 <= i < layers.len() ==> (#[trigger] rebuilt[i]).effect.params()
                    == layers[i].effect.params()
        }),
    decreases layers.len(),
{
    reveal_strlit("Static");
    reveal_strlit("Static Gradient");
    reveal_strlit("Wave Gradient");
    reveal_strlit("Breathing Single");
    if layers.len() > 0 {
        let prefix = layers.drop_last();
        assert(spec_save_records(layers).drop_last() =~= spec_save_records(prefix));
        lemma_rebuild_records(prefix, now_ms);
        let l = layers.last();
        let r = spec_save_records(layers).last();
        assert(r.name == l.effect.name() && r.params == l.effect.params() && r.mask == l.mask);
        match l.effect {
            EffectView::Static { .. } => {
                assert(r.params.subrange(0, 3) =~= r.params);
            },
            EffectView::StaticGradient { .. } => {
                assert(r.name != "Static"@);
                assert(r.params.subrange(0, 7) =~= r.params);
            },
            EffectView::WaveGradient { .. } => {
                assert(r.name != "Static"@ && r.name != "Static Gradient"@);
                assert(r.params.subrange(0, 7) =~= r.params);
            },
            EffectView::BreathSingle { .. } => {
                assert(r.name != "Static"@ && r.name != "Static Gradient"@ && r.name
                    != "Wave Gradient"@);
                assert(r.params.subrange(0, 4) =~= r.params);
            },
        }
    }
}

impl EffectManager {
    /// Law: a save and load round trip reproduces the layer stack exactly —
    /// the same number of layers, and for each layer the same key mask and
    /// an effect reporting the same name and the same parameters, in the
    /// same order.  (The rebuilt animation timers start at load time.)
    pub proof fn lemma_save_load_round_trip(self, now_ms: u64)
        requires
            self.wf(),
        ensures
            ({
                let rebuilt = spec_layers_from_save(spec_save_records(self@.layers), now_ms);
                &&& rebuilt.len() == self@.layers.len()
                &&& forall|i: int|
                    0 <= i < self@.layers.len() ==> (#[trigger] rebuilt[i]).mask
                        == self@.layers[i].mask
                &&& forall|i: int|
                    0 <= i < self@.layers.len() ==> (#[trigger] rebuilt[i]).effect.name()
                        == self@.layers[i].effect.name()
                &&& forall|i: int|
                    0 <= i < self@.layers.len() ==> (#[trigger] rebuilt[i]).effect.params()
                        == self@.layers[i].effect.params()
            }),
    {
        assert forall|i: int| 0 <= i < self@.layers.len() implies spec_layer_saveable(
            #[trigger] self@.layers[i],
        ) by {
            self.layers@[i].lemma_wf_model();
        }
        lemma_rebuild_records(self@.layers, now_ms);
    }
}

/// Flag-for-flag copy of a key mask.
fn copy_bools(v: &Vec<bool>) -> (r: Vec<bool>)
    ensures
        r@ == v@,
{
    let mut r: Vec<bool> = Vec::new();
    let mut i: usize = 0;
    while i < v.len()
        invariant
            i <= v@.len(),
            r@.len() == i,
            forall|j: int| 0 <= j < i ==> r@[j] == v@[j],
        decreases v@.len() - i,
    {
        r.push(v[i]);
        i = i + 1;
    }
    proof {
        assert(r@ =~= v@);
    }
    r
}

} // verus!
