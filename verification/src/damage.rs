use vstd::prelude::*;

verus! {

/// The thirteen physical, elemental and energy damage types: a closed set
/// with no extension point.
#[derive(Debug, Clone, Copy, PartialEq, Eq, Hash, Structural)]
pub enum DamageKind {
    Acid,
    Bludgeoning,
    Cold,
    Fire,
    Force,
    Lightning,
    Necrotic,
    Piercing,
    Poison,
    Psychic,
    Radiant,
    Slashing,
    Thunder,
}

/// An amount of damage of one kind. The amount is unsigned: any computation
/// that could go negative is clamped to zero before it becomes a `Damage`.
#[derive(Debug, Clone, Copy, PartialEq, Eq, Structural)]
pub struct Damage(pub usize, pub DamageKind);

} // verus!
