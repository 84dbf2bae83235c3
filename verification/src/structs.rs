//! The entities that the systems work on.

use vstd::prelude::*;

pub mod base;
pub mod scene;

verus! {

/// Another name for [`base::BaseDirection`].
pub type Direction = base::BaseDirection;

/// Another name for [`base::BaseAnimation`].
pub type AnimationConfig = base::BaseAnimation;

} // verus!
