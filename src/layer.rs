//! The description of one layer instance and the per-layer state that the
//! forward and backward passes rely on.
use vstd::prelude::*;
use crate::param::ParamConfig;

verus! {

/// The layer types, each with its own worker.
#[derive(Debug, Clone, Copy, PartialEq, Eq)]
pub enum LayerType {
    /// Sigmoid layer.
    Sigmoid,
}

impl LayerType {
    /// Whether "anonymous" top blobs are created automatically for the layer,
    /// enough to meet `exact_num_top_blobs` or `min_top_blobs`.
    pub fn auto_top_blobs(&self) -> (r: bool)
        ensures
            !r,
    {
        match self {
            LayerType::Sigmoid => false,
        }
    }

    /// The minimum number of top blobs the layer needs, or 0 for no minimum.
    pub fn min_top_blobs(&self) -> (r: usize)
        ensures
            r == 0,
    {
        match self {
            LayerType::Sigmoid => 0,
        }
    }

    /// The exact number of top blobs the layer needs, or 0 for no exact number.
    pub fn exact_num_top_blobs(&self) -> (r: usize)
        ensures
            r == 0,
    {
        match self {
            LayerType::Sigmoid => 0,
        }
    }

    /// The exact number of bottom blobs the layer needs, or 0 for no exact number.
    pub fn exact_num_bottom_blobs(&self) -> (r: usize)
        ensures
            r == 0,
    {
        match self {
            LayerType::Sigmoid => 0,
        }
    }

    /// Whether a global "force backward" setting may override the
    /// propagate-down setting of the bottom blob at `bottom_id`.
    pub fn allow_force_backward(&self, bottom_id: usize) -> (r: bool)
        ensures
            r,
    {
        match self {
            LayerType::Sigmoid => true,
        }
    }
}

/// The configuration of one layer.
#[derive(Debug)]
pub struct LayerConfig {
    /// The name of the layer.
    pub name: String,
    /// The type of the layer.
    layer_type: LayerType,
    /// The name of each top blob.
    tops: Vec<String>,
    /// The name of each bottom blob.
    bottoms: Vec<String>,
    /// Training parameters (multipliers on global learning constants, and the
    /// name and other settings used for weight sharing), one per parameter blob.
    params: Vec<ParamConfig>,
    /// On which bottoms backpropagation is skipped (`false`). Either empty,
    /// meaning every bottom, or one entry per bottom.
    pub propagate_down: Vec<bool>,
}

impl LayerConfig {
    /// The name of the layer.
    pub closed spec fn name_view(&self) -> Seq<char> {
        self.name@
    }

    /// The propagate-down mask.
    pub closed spec fn propagate_down_view(&self) -> Seq<bool> {
        self.propagate_down@
    }

    /// The type of the layer.
    pub closed spec fn layer_type_view(&self) -> LayerType {
        self.layer_type
    }

    /// The names of the top blobs, in order.
    pub closed spec fn tops_view(&self) -> Seq<String> {
        self.tops@
    }

    /// The names of the bottom blobs, in order.
    pub closed spec fn bottoms_view(&self) -> Seq<String> {
        self.bottoms@
    }

    /// The parameter configurations, in order.
    pub closed spec fn params_view(&self) -> Seq<ParamConfig> {
        self.params@
    }

    /// Creates a configuration without blobs or parameters.
    pub fn new(name: String, layer_type: LayerType) -> (r: LayerConfig)
        ensures
            r.name_view() == name@,
            r.layer_type_view() == layer_type,
            r.tops_view().len() == 0,
            r.bottoms_view().len() == 0,
            r.params_view().len() == 0,
            r.propagate_down_view().len() == 0,
    {
        LayerConfig {
            name,
            layer_type,
            tops: Vec::new(),
            bottoms: Vec::new(),
            params: Vec::new(),
            propagate_down: Vec::new(),
        }
    }

    /// Whether `propagate_down` is empty or has one entry per bottom blob.
    pub fn check_propagate_down_len(&self) -> (r: bool)
        ensures
            r == (self.propagate_down_view().len() == 0 || self.propagate_down_view().len()
                == self.bottoms_view().len()),
    {
        self.propagate_down.len() == 0 || self.propagate_down.len() == self.bottoms.len()
    }

    /// The type of the layer.
    pub fn layer_type(&self) -> (r: LayerType)
        ensures
            r == self.layer_type_view(),
    {
        self.layer_type
    }

    /// The name of the top blob at `top_id`, if there is one.
    pub fn top(&self, top_id: usize) -> (r: Option<&String>)
        ensures
            match r {
                Some(s) => top_id < self.tops_view().len() && *s == self.tops_view()[top_id as int],
                None => top_id >= self.tops_view().len(),
            },
    {
        if top_id < self.tops.len() {
            Some(&self.tops[top_id])
        } else {
            None
        }
    }

    /// The number of top blobs.
    pub fn tops_len(&self) -> (r: usize)
        ensures
            r == self.tops_view().len(),
    {
        self.tops.len()
    }

    /// The name of the bottom blob at `bottom_id`, if there is one.
    pub fn bottom(&self, bottom_id: usize) -> (r: Option<&String>)
        ensures
            match r {
                Some(s) => bottom_id < self.bottoms_view().len() && *s
                    == self.bottoms_view()[bottom_id as int],
                None => bottom_id >= self.bottoms_view().len(),
            },
    {
        if bottom_id < self.bottoms.len() {
            Some(&self.bottoms[bottom_id])
        } else {
            None
        }
    }

    /// The number of bottom blobs.
    pub fn bottoms_len(&self) -> (r: usize)
        ensures
            r == self.bottoms_view().len(),
    {
        self.bottoms.len()
    }

    /// The parameter configuration at `param_id`, if there is one.
    pub fn param(&self, param_id: usize) -> (r: Option<&ParamConfig>)
        ensures
            match r {
                Some(p) => param_id < self.params_view().len() && *p
                    == self.params_view()[param_id as int],
                None => param_id >= self.params_view().len(),
            },
    {
        if param_id < self.params.len() {
            Some(&self.params[param_id])
        } else {
            None
        }
    }

    /// The number of parameters.
    pub fn params_len(&self) -> (r: usize)
        ensures
            r == self.params_view().len(),
    {
        self.params.len()
    }

    /// Declares one more top blob, after those already declared.
    pub fn add_top(&mut self, name: String)
        ensures
            final(self).tops_view() == old(self).tops_view().push(name),
            final(self).bottoms_view() == old(self).bottoms_view(),
            final(self).params_view() == old(self).params_view(),
            final(self).layer_type_view() == old(self).layer_type_view(),
            final(self).name_view() == old(self).name_view(),
            final(self).propagate_down_view() == old(self).propagate_down_view(),
    {
        self.tops.push(name);
    }

    /// Declares one more bottom blob, after those already declared.
    pub fn add_bottom(&mut self, name: String)
        ensures
            final(self).bottoms_view() == old(self).bottoms_view().push(name),
            final(self).tops_view() == old(self).tops_view(),
            final(self).params_view() == old(self).params_view(),
            final(self).layer_type_view() == old(self).layer_type_view(),
            final(self).name_view() == old(self).name_view(),
            final(self).propagate_down_view() == old(self).propagate_down_view(),
    {
        self.bottoms.push(name);
    }

    /// Replaces the propagate-down mask.
    pub fn set_propagate_down(&mut self, mask: Vec<bool>)
        ensures
            final(self).propagate_down_view() == mask@,
            final(self).tops_view() == old(self).tops_view(),
            final(self).bottoms_view() == old(self).bottoms_view(),
            final(self).params_view() == old(self).params_view(),
            final(self).layer_type_view() == old(self).layer_type_view(),
            final(self).name_view() == old(self).name_view(),
    {
        self.propagate_down = mask;
    }

    /// Adds the configuration of one more parameter blob.
    pub fn add_param(&mut self, param: ParamConfig)
        ensures
            final(self).params_view() == old(self).params_view().push(param),
            final(self).tops_view() == old(self).tops_view(),
            final(self).bottoms_view() == old(self).bottoms_view(),
            final(self).layer_type_view() == old(self).layer_type_view(),
            final(self).name_view() == old(self).name_view(),
            final(self).propagate_down_view() == old(self).propagate_down_view(),
    {
        self.params.push(param);
    }
}

/// Whether a loss weight, as a binary32 bit pattern, is zero (`+0.0` or `-0.0`).
pub open spec fn is_zero_weight(bits: u32) -> bool {
    bits & 0x7fff_ffffu32 == 0
}

/// The flags after the flag at `id` is set to `value`: the sequence grows to
/// hold index `id` if needed, and new slots other than `id` are `true`.
pub open spec fn flags_with(flags: Seq<bool>, id: nat, value: bool) -> Seq<bool> {
    let len = if id < flags.len() { flags.len() } else { id + 1 };
    Seq::new(len, |j: int| if j == id { value } else if j < flags.len() { flags[j] } else { true })
}

/// Setting the same propagate-down flag to the same value a second time
/// changes nothing.
pub proof fn lemma_set_flag_idempotent(flags: Seq<bool>, id: nat, value: bool)
    ensures
        flags_with(flags_with(flags, id, value), id, value) == flags_with(flags, id, value),
{
    assert(flags_with(flags_with(flags, id, value), id, value) =~= flags_with(flags, id, value));
}

/// Setting a propagate-down flag beyond the current length sets the flag at
/// `id`, keeps every earlier flag, and leaves every slot created in between `true`.
pub proof fn lemma_set_flag_grows(flags: Seq<bool>, id: nat, value: bool)
    requires
        id >= flags.len(),
    ensures
        flags_with(flags, id, value).len() == id + 1,
        flags_with(flags, id, value)[id as int] == value,
        forall|j: int| 0 <= j < flags.len() ==> flags_with(flags, id, value)[j] == flags[j],
        forall|j: int| flags.len() <= j < id ==> flags_with(flags, id, value)[j],
{
}

/// A layer: its configuration, the loss weight of each top blob, its
/// parameter blobs (shared handles of type `B`) and whether gradients are
/// computed for each parameter blob.
#[derive(Debug)]
pub struct Layer<B> {
    config: LayerConfig,
    /// One weight per declared top blob, as binary32 bit patterns; a top blob
    /// with weight zero does not take part in the loss.
    loss: Vec<u32>,
    /// Shared references to the parameter blobs.
    pub blobs: Vec<B>,
    /// Whether to compute the diff of each parameter blob.
    param_propagate_down: Vec<bool>,
}

impl<B> Layer<B> {
    /// The configuration the layer was made from.
    pub closed spec fn config_view(&self) -> LayerConfig {
        self.config
    }

    /// The loss weight of each top blob.
    pub closed spec fn loss_view(&self) -> Seq<u32> {
        self.loss@
    }

    /// Whether gradients are computed for each parameter blob, as far as set.
    pub closed spec fn param_propagate_down_view(&self) -> Seq<bool> {
        self.param_propagate_down@
    }

    /// The parameter blobs.
    pub closed spec fn blobs_view(&self) -> Seq<B> {
        self.blobs@
    }

    /// There is exactly one loss weight per declared top blob.
    pub open spec fn wf(&self) -> bool {
        self.loss_view().len() == self.config_view().tops_view().len()
    }

    /// Whether the top blob at `top_id` takes part in the loss: it is declared
    /// and its weight is not zero.
    pub open spec fn contributes(&self, top_id: int) -> bool {
        0 <= top_id < self.loss_view().len() && !is_zero_weight(self.loss_view()[top_id])
    }

    /// Creates a layer from its configuration, with weight zero for every
    /// top blob, no parameter blobs and no propagate-down flags set.
    pub fn from_config(config: LayerConfig) -> (r: Layer<B>)
        ensures
            r.wf(),
            r.config_view() == config,
            forall|i: int| 0 <= i < r.loss_view().len() ==> r.loss_view()[i] == 0,
            r.blobs_view().len() == 0,
            r.param_propagate_down_view().len() == 0,
    {
        let n = config.tops_len();
        let mut loss: Vec<u32> = Vec::new();
        let mut i: usize = 0;
        while i < n
            invariant
                0 <= i <= n,
                n == config.tops_view().len(),
                loss@.len() == i,
                forall|k: int| 0 <= k < i ==> loss@[k] == 0,
            decreases n - i,
        {
            loss.push(0);
            i = i + 1;
        }
        Layer { config, loss, blobs: Vec::new(), param_propagate_down: Vec::new() }
    }

    /// The configuration the layer was made from.
    pub fn config(&self) -> (r: &LayerConfig)
        ensures
            *r == self.config_view(),
    {
        &self.config
    }

    /// Sets whether the layer computes gradients with respect to the parameter
    /// at `param_id`. Slots created on the way to `param_id` are `true`.
    pub fn set_param_propagate_down(&mut self, param_id: usize, value: bool)
        requires
            param_id < usize::MAX,
        ensures
            final(self).param_propagate_down_view() == flags_with(
                old(self).param_propagate_down_view(),
                param_id as nat,
                value,
            ),
            final(self).config_view() == old(self).config_view(),
            final(self).loss_view() == old(self).loss_view(),
            final(self).blobs_view() == old(self).blobs_view(),
    {
        let ghost before = self.param_propagate_down@;
        while self.param_propagate_down.len() <= param_id
            invariant
                param_id < usize::MAX,
                self.param_propagate_down@.len() <= param_id + 1
                    || self.param_propagate_down@.len() == before.len(),
                before.len() <= self.param_propagate_down@.len(),
                forall|j: int| 0 <= j < before.len() ==> self.param_propagate_down@[j] == before[j],
                forall|j: int|
                    before.len() <= j < self.param_propagate_down@.len()
                        ==> self.param_propagate_down@[j],
                self.config == old(self).config,
                self.loss == old(self).loss,
                self.blobs == old(self).blobs,
            decreases param_id + 1 - self.param_propagate_down.len(),
        {
            self.param_propagate_down.push(true);
        }
        self.param_propagate_down.set(param_id, value);
        proof {
            assert(self.param_propagate_down@ =~= flags_with(before, param_id as nat, value));
        }
    }

    /// Whether gradients are computed for the parameter at `param_id`, if
    /// that flag has been set.
    pub fn param_propagate_down(&self, param_id: usize) -> (r: Option<bool>)
        ensures
            r == (if param_id < self.param_propagate_down_view().len() {
                Some(self.param_propagate_down_view()[param_id as int])
            } else {
                None
            }),
    {
        if param_id < self.param_propagate_down.len() {
            Some(self.param_propagate_down[param_id])
        } else {
            None
        }
    }

    /// The loss weight of the top blob at `id`, or `None` when no such top
    /// blob is declared.
    pub fn loss(&self, id: usize) -> (r: Option<&u32>)
        requires
            self.wf(),
        ensures
            match r {
                Some(w) => id < self.config_view().tops_view().len() && *w == self.loss_view()[id as int],
                None => id >= self.config_view().tops_view().len(),
            },
    {
        if id < self.loss.len() {
            Some(&self.loss[id])
        } else {
            None
        }
    }

    /// Sets the loss weight of the top blob at `top_id`. Returns false, and
    /// changes nothing, when no such top blob is declared.
    pub fn set_loss(&mut self, top_id: usize, weight: u32) -> (r: bool)
        requires
            old(self).wf(),
        ensures
            final(self).wf(),
            r == (top_id < old(self).config_view().tops_view().len()),
            final(self).loss_view() == (if r {
                old(self).loss_view().update(top_id as int, weight)
            } else {
                old(self).loss_view()
            }),
            final(self).config_view() == old(self).config_view(),
            final(self).param_propagate_down_view() == old(self).param_propagate_down_view(),
            final(self).blobs_view() == old(self).blobs_view(),
    {
        if top_id < self.loss.len() {
            self.loss.set(top_id, weight);
            true
        } else {
            false
        }
    }

    /// The indices below `n_tops` of the top blobs that take part in the loss,
    /// in increasing order: those that are declared and have a weight that is
    /// not zero. The loss of a forward pass sums over exactly these.
    pub fn loss_tops(&self, n_tops: usize) -> (r: Vec<usize>)
        ensures
            forall|a: int, b: int| 0 <= a < b < r@.len() ==> r@[a] < r@[b],
            forall|k: int| 0 <= k < r@.len() ==> r@[k] < n_tops && self.contributes(r@[k] as int),
            forall|t: int| 0 <= t < n_tops && self.contributes(t) ==> r@.contains(t as usize),
    {
        let mut r: Vec<usize> = Vec::new();
        let mut i: usize = 0;
        while i < n_tops
            invariant
                0 <= i <= n_tops,
                forall|a: int, b: int| 0 <= a < b < r@.len() ==> r@[a] < r@[b],
                forall|k: int| 0 <= k < r@.len() ==> r@[k] < i && self.contributes(r@[k] as int),
                forall|t: int| 0 <= t < i && self.contributes(t) ==> r@.contains(t as usize),
            decreases n_tops - i,
        {
            if i < self.loss.len() && self.loss[i] & 0x7fff_ffffu32 != 0 {
                let ghost prev = r@;
                r.push(i);
                proof {
                    assert forall|t: int| 0 <= t < i + 1 && self.contributes(t) implies r@.contains(
                        t as usize,
                    ) by {
                        if t < i {
                            let k = choose|k: int| 0 <= k < prev.len() && prev[k] == t as usize;
                            assert(r@[k] == t as usize);
                        } else {
                            assert(r@[prev.len() as int] == t as usize);
                        }
                    }
                }
            }
            i = i + 1;
        }
        r
    }
}

} // verus!
