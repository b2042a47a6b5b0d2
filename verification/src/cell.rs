use vstd::prelude::*;

verus! {

/// The state of a single cell of the automaton.
#[derive(Copy, Clone, Debug, PartialEq, Eq, Structural)]
pub enum CellState {
    On,
    Off,
}

impl CellState {
    /// The bit a cell contributes to an encoded neighborhood index.
    pub open spec fn spec_bit(self) -> u32 {
        match self {
            CellState::On => 1u32,
            CellState::Off => 0u32,
        }
    }

    /// Executable counterpart of `spec_bit`.
    pub fn bit(self) -> (r: u32)
        ensures
            r == self.spec_bit(),
            r <= 1,
    {
        match self {
            CellState::On => 1,
            CellState::Off => 0,
        }
    }

    /// True exactly for a live cell.
    pub fn is_on(self) -> (r: bool)
        ensures
            r == (self is On),
    {
        match self {
            CellState::On => true,
            CellState::Off => false,
        }
    }
}

/// A full, ordered Moore neighborhood, in the fixed order upper-left, upper,
/// upper-right, left, center, right, lower-left, lower, lower-right.
#[derive(Copy, Clone, Debug, PartialEq, Eq)]
pub struct InputState(pub [CellState; 9]);

/// An encoded neighborhood index.
#[derive(Copy, Clone, Debug, PartialEq, Eq, Structural)]
pub struct RuleState(pub u32);

/// A single rule: one neighborhood together with the state it maps to.
#[derive(Copy, Clone, Debug, PartialEq, Eq)]
pub struct Rule {
    pub input: InputState,
    pub output: CellState,
}

} // verus!
