//! Layer configuration and the bookkeeping around a layer's execution:
//! parameter sharing checks, propagate-down masks and loss weights.
use vstd::prelude::*;

pub mod layer;
pub mod param;
pub mod shape;

pub use layer::{Layer, LayerConfig, LayerType};
pub use param::{DimCheckMode, ParamConfig, ShareError};
