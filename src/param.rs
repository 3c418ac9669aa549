//! Training parameters of a layer and the compatibility check for parameters
//! that several layers share.
use vstd::prelude::*;
use crate::shape::{copy_shape, count, fits_in_memory, same_shape, shape_count};

verus! {

/// The bit pattern of the single-precision number `1.0`.
///
/// Multipliers and loss weights are held as IEEE 754 binary32 bit patterns,
/// which callers turn into `f32` with `f32::from_bits`.
pub const ONE_F32_BITS: u32 = 0x3f80_0000;

/// Whether two shared parameter blobs must agree in shape or only in element count.
#[derive(Debug, Clone, Copy, PartialEq, Eq)]
pub enum DimCheckMode {
    /// Strict requires that shapes match.
    Strict,
    /// Permissive requires only the count of weights to match.
    Permissive,
}

/// Why a parameter cannot be shared between two layers.
///
/// `owner_shape` is the shape of the owning layer's parameter blob and
/// `sharer_shape` the shape that the sharing layer holds or expects.
#[derive(Debug, PartialEq, Eq)]
pub enum ShareError {
    /// Permissive checking: the element counts differ.
    CountMismatch {
        param_name: String,
        owner_name: String,
        layer_name: String,
        owner_shape: Vec<usize>,
        sharer_shape: Vec<usize>,
    },
    /// Strict checking: the shapes differ.
    ShapeMismatch {
        param_name: String,
        owner_name: String,
        layer_name: String,
        owner_shape: Vec<usize>,
        sharer_shape: Vec<usize>,
    },
}

impl ShareError {
    /// The name of the shared parameter.
    pub open spec fn param_name_view(&self) -> Seq<char> {
        match self {
            ShareError::CountMismatch { param_name, .. } => param_name@,
            ShareError::ShapeMismatch { param_name, .. } => param_name@,
        }
    }

    /// The name of the layer that owns the parameter.
    pub open spec fn owner_name_view(&self) -> Seq<char> {
        match self {
            ShareError::CountMismatch { owner_name, .. } => owner_name@,
            ShareError::ShapeMismatch { owner_name, .. } => owner_name@,
        }
    }

    /// The name of the layer that wants to share the parameter.
    pub open spec fn layer_name_view(&self) -> Seq<char> {
        match self {
            ShareError::CountMismatch { layer_name, .. } => layer_name@,
            ShareError::ShapeMismatch { layer_name, .. } => layer_name@,
        }
    }

    /// The shape of the owner's parameter blob.
    pub open spec fn owner_shape_view(&self) -> Seq<usize> {
        match self {
            ShareError::CountMismatch { owner_shape, .. } => owner_shape@,
            ShareError::ShapeMismatch { owner_shape, .. } => owner_shape@,
        }
    }

    /// The shape of the sharer's parameter blob.
    pub open spec fn sharer_shape_view(&self) -> Seq<usize> {
        match self {
            ShareError::CountMismatch { sharer_shape, .. } => sharer_shape@,
            ShareError::ShapeMismatch { sharer_shape, .. } => sharer_shape@,
        }
    }
}

/// Whether a share of a parameter between blobs of these shapes is allowed
/// under the given mode.
pub open spec fn shapes_compatible(mode: DimCheckMode, sharer: Seq<usize>, owner: Seq<usize>) -> bool {
    match mode {
        DimCheckMode::Strict => sharer == owner,
        DimCheckMode::Permissive => shape_count(sharer) == shape_count(owner),
    }
}

/// Specifies training parameters (multipliers on global learning constants,
/// and the name and other settings used for weight sharing).
#[derive(Debug)]
pub struct ParamConfig {
    /// The name of the parameter blob: useful for sharing parameters among
    /// layers, but never required otherwise. To share a parameter between two
    /// layers, give it a non-empty name.
    pub name: String,
    /// Whether shared weights must have the same shape, or just the same count.
    pub share_mode: DimCheckMode,
    /// The multiplier on the global learning rate for this parameter,
    /// as a binary32 bit pattern; `1.0` when unset.
    pub lr_mult: Option<u32>,
    /// The multiplier on the global weight decay for this parameter,
    /// as a binary32 bit pattern; `1.0` when unset.
    pub decay_mult: Option<u32>,
}

/// The configured multiplier, or `1.0` when none is configured.
pub open spec fn mult_or_one(m: Option<u32>) -> u32 {
    match m {
        Some(v) => v,
        None => ONE_F32_BITS,
    }
}

impl Default for ParamConfig {
    /// An unnamed parameter with strict sharing and unset multipliers.
    fn default() -> (r: ParamConfig)
        ensures
            r.name@ == Seq::<char>::empty(),
            r.share_mode == DimCheckMode::Strict,
            r.lr_mult.is_none(),
            r.decay_mult.is_none(),
    {
        ParamConfig { name: String::new(), share_mode: DimCheckMode::Strict, lr_mult: None, decay_mult: None }
    }
}

impl ParamConfig {
    /// Checks the dimensions of two parameter blobs according to `share_mode`:
    /// `blob_one` is the shape the sharing layer `layer_name` has, `blob_two`
    /// the shape of the parameter owned by layer `owner_name`.
    ///
    /// Strict sharing needs equal shapes, permissive sharing equal element
    /// counts. A mismatch is reported with all three names and both shapes.
    pub fn check_dimensions(
        &self,
        blob_one: &Vec<usize>,
        blob_two: &Vec<usize>,
        param_name: String,
        owner_name: String,
        layer_name: String,
    ) -> (r: Result<(), ShareError>)
        requires
            fits_in_memory(blob_one@),
            fits_in_memory(blob_two@),
        ensures
            r is Ok <==> shapes_compatible(self.share_mode, blob_one@, blob_two@),
            r matches Err(e) ==> {
                &&& (self.share_mode == DimCheckMode::Strict <==> e is ShapeMismatch)
                &&& e.param_name_view() == param_name@
                &&& e.owner_name_view() == owner_name@
                &&& e.layer_name_view() == layer_name@
                &&& e.owner_shape_view() == blob_two@
                &&& e.sharer_shape_view() == blob_one@
            },
    {
        match self.share_mode {
            DimCheckMode::Permissive => {
                if count(blob_one) != count(blob_two) {
                    return Err(
                        ShareError::CountMismatch {
                            param_name,
                            owner_name,
                            layer_name,
                            owner_shape: copy_shape(blob_two),
                            sharer_shape: copy_shape(blob_one),
                        },
                    );
                }
            },
            DimCheckMode::Strict => {
                if !same_shape(blob_one, blob_two) {
                    return Err(
                        ShareError::ShapeMismatch {
                            param_name,
                            owner_name,
                            layer_name,
                            owner_shape: copy_shape(blob_two),
                            sharer_shape: copy_shape(blob_one),
                        },
                    );
                }
            },
        }
        Ok(())
    }

    /// The multiplier on the global learning rate for this parameter.
    pub fn lr_mult(&self) -> (r: u32)
        ensures
            r == mult_or_one(self.lr_mult),
    {
        match self.lr_mult {
            Some(val) => val,
            None => ONE_F32_BITS,
        }
    }

    /// The multiplier on the global weight decay for this parameter.
    pub fn decay_mult(&self) -> (r: u32)
        ensures
            r == mult_or_one(self.decay_mult),
    {
        match self.decay_mult {
            Some(val) => val,
            None => ONE_F32_BITS,
        }
    }
}

} // verus!
