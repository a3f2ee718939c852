//! Objects: a surface together with its material.

use vstd::prelude::*;
use crate::material::MaterialBox;

verus! {

/// The atomic unit of a scene: a surface of kind `S` and what it is made of.
pub struct Object<S, M> {
    pub surface: S,
    pub material: MaterialBox<M>,
}

} // verus!
