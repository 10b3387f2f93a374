//! Item hooks into the firing pipeline.
//!
//! Items may contribute an upgrade that the firing code applies to each
//! shot; upgrades are a closed set of variants, so every handler can match
//! on them exhaustively.  None of the stock items contributes one.

use vstd::prelude::*;

verus! {

/// A shot-time upgrade an item can contribute.
#[derive(Clone, Copy, PartialEq, Eq, Structural, Debug)]
pub enum ShootUpgrade {
    /// Adds a flat amount to each bullet's damage.
    DamageUp(i64),
}

/// An item with no effect on the firing pipeline.
#[derive(Clone, Copy, PartialEq, Eq, Structural, Debug)]
pub struct Null {}

impl Null {
    /// This item contributes nothing to a shot.
    pub fn get_shoot_function(&self) -> (r: Option<ShootUpgrade>)
        ensures
            r is None,
    {
        None
    }
}

/// A damage-upgrade item slot; its hook is not wired up yet, so it
/// contributes nothing to a shot.
#[derive(Clone, Copy, PartialEq, Eq, Structural, Debug)]
pub struct DmgUpStruct {}

impl DmgUpStruct {
    /// This item contributes nothing to a shot.
    pub fn get_shoot_function(&self) -> (r: Option<ShootUpgrade>)
        ensures
            r is None,
    {
        None
    }
}

} // verus!
