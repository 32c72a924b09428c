//! Plain records and classifications of the game's items, planets and solar
//! systems.
use vstd::prelude::*;

verus! {

#[derive(Debug, Clone, Copy, PartialEq, Eq, Structural)]
pub enum ItemType {
    Component,
    Building,
}

#[derive(Debug, Clone, Copy, PartialEq, Eq, Structural)]
pub enum ItemSubType {
    CommonResource,
    RareResource,
    Miner,
    AssemblingMachine,
    ChemicalPlant,
    MatrixLab,
}

/// An item consumed by a recipe, identified by 128-bit ids.
#[derive(Debug, Clone, Copy, PartialEq, Eq, Structural)]
pub struct ItemRecipeInput {
    pub recipe_id: u128,
    pub item_id: u128,
    pub amount: u16,
    pub extra_products: bool,
    pub production_speedup: bool,
}

/// An item produced by a recipe.
#[derive(Debug, Clone, Copy, PartialEq, Eq, Structural)]
pub struct ItemRecipeOutput {
    pub recipe_id: u128,
    pub item_id: u128,
    pub amount: u16,
}

#[derive(Debug, Clone, Copy, PartialEq, Eq, Structural)]
pub enum SpectralClass {
    A,
    B,
    F,
    G,
    K,
    M,
    O,
    RedGiant,
    YellowGiant,
    WhiteGiant,
    BlueGiant,
    WhiteDwarf,
    BlackHole,
    Neutron,
}

#[derive(Debug, Clone, Copy, PartialEq, Eq, Structural)]
pub enum OceanType {
    Water,
    Lava,
    Ice,
    SulfuricAcid,
}

/// A kind of planet.
#[derive(Debug, Clone, PartialEq)]
pub struct PlanetType {
    pub id: u128,
    pub created_at: u32,
    pub version: u32,
    pub name: String,
    pub ocean_type: Option<OceanType>,
    pub wind_energy_percent: u16,
}

#[derive(Debug, Clone, Copy, PartialEq, Eq, Structural)]
pub enum RotationDirection {
    Normal,
    Reverse,
    Horizontal,
}

/// A resource that planets of a type may hold, possibly only around stars of
/// one spectral class.
#[derive(Debug, Clone, Copy, PartialEq, Eq, Structural)]
pub struct PlanetTypeAllowedResource {
    pub planet_type_id: u128,
    pub item_id: u128,
    pub star_spectral_class: Option<SpectralClass>,
}

/// A resource that a planet holds.
#[derive(Debug, Clone, Copy, PartialEq, Eq, Structural)]
pub struct PlanetAvailableResource {
    pub planet_id: u128,
    pub item_id: u128,
}

} // verus!
