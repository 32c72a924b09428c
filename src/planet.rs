//! Planets as the database stores them.
use vstd::prelude::*;

verus! {

/// The ocean of a planet, as the `ocean_type` database enum names it.
#[derive(Debug, Clone, Copy, PartialEq, Eq, Structural)]
pub enum OceanType {
    Water,
    Lava,
    Ice,
    SulfuricAcid,
}

} // verus!
