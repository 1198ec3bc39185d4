//! The sixteen-state test-access-port automaton.
//!
//! The port's controller moves between states on every clock edge, steered
//! by the mode-select line alone.  The transition table below is the
//! protocol's specification: any deviation desynchronizes the device's own
//! controller from the one mirrored here.

use vstd::prelude::*;

verus! {

/// One of the sixteen canonical boundary-scan controller states.
#[derive(Clone, Copy, Debug, PartialEq, Eq, Structural)]
pub enum TapState {
    Reset,
    Idle,
    SelectDr,
    CaptureDr,
    ShiftDr,
    Exit1Dr,
    PauseDr,
    Exit2Dr,
    UpdateDr,
    SelectIr,
    CaptureIr,
    ShiftIr,
    Exit1Ir,
    PauseIr,
    Exit2Ir,
    UpdateIr,
}

/// The state reached from `s` after one clock edge with the mode-select
/// line at `tms`.
pub open spec fn tap_next(s: TapState, tms: bool) -> TapState {
    match s {
        TapState::Reset => if tms { TapState::Reset } else { TapState::Idle },
        TapState::Idle => if tms { TapState::SelectDr } else { TapState::Idle },
        TapState::SelectDr => if tms { TapState::SelectIr } else { TapState::CaptureDr },
        TapState::CaptureDr => if tms { TapState::Exit1Dr } else { TapState::ShiftDr },
        TapState::ShiftDr => if tms { TapState::Exit1Dr } else { TapState::ShiftDr },
        TapState::Exit1Dr => if tms { TapState::UpdateDr } else { TapState::PauseDr },
        TapState::PauseDr => if tms { TapState::Exit2Dr } else { TapState::PauseDr },
        TapState::Exit2Dr => if tms { TapState::UpdateDr } else { TapState::ShiftDr },
        TapState::UpdateDr => if tms { TapState::SelectDr } else { TapState::Idle },
        TapState::SelectIr => if tms { TapState::Reset } else { TapState::CaptureIr },
        TapState::CaptureIr => if tms { TapState::Exit1Ir } else { TapState::ShiftIr },
        TapState::ShiftIr => if tms { TapState::Exit1Ir } else { TapState::ShiftIr },
        TapState::Exit1Ir => if tms { TapState::UpdateIr } else { TapState::PauseIr },
        TapState::PauseIr => if tms { TapState::Exit2Ir } else { TapState::PauseIr },
        TapState::Exit2Ir => if tms { TapState::UpdateIr } else { TapState::ShiftIr },
        TapState::UpdateIr => if tms { TapState::SelectDr } else { TapState::Idle },
    }
}

/// The state reached from `s` after driving the mode-select line high for
/// `n` consecutive clock edges.
pub open spec fn tap_after_ones(s: TapState, n: nat) -> TapState
    decreases n,
{
    if n == 0 {
        s
    } else {
        tap_after_ones(tap_next(s, true), (n - 1) as nat)
    }
}

impl TapState {
    /// One controller step.  The table is total and deterministic.
    pub fn advance(self, tms: bool) -> (next: TapState)
        ensures
            next == tap_next(self, tms),
    {
        match self {
            TapState::Reset => if tms { TapState::Reset } else { TapState::Idle },
            TapState::Idle => if tms { TapState::SelectDr } else { TapState::Idle },
            TapState::SelectDr => if tms { TapState::SelectIr } else { TapState::CaptureDr },
            TapState::CaptureDr => if tms { TapState::Exit1Dr } else { TapState::ShiftDr },
            TapState::ShiftDr => if tms { TapState::Exit1Dr } else { TapState::ShiftDr },
            TapState::Exit1Dr => if tms { TapState::UpdateDr } else { TapState::PauseDr },
            TapState::PauseDr => if tms { TapState::Exit2Dr } else { TapState::PauseDr },
            TapState::Exit2Dr => if tms { TapState::UpdateDr } else { TapState::ShiftDr },
            TapState::UpdateDr => if tms { TapState::SelectDr } else { TapState::Idle },
            TapState::SelectIr => if tms { TapState::Reset } else { TapState::CaptureIr },
            TapState::CaptureIr => if tms { TapState::Exit1Ir } else { TapState::ShiftIr },
            TapState::ShiftIr => if tms { TapState::Exit1Ir } else { TapState::ShiftIr },
            TapState::Exit1Ir => if tms { TapState::UpdateIr } else { TapState::PauseIr },
            TapState::PauseIr => if tms { TapState::Exit2Ir } else { TapState::PauseIr },
            TapState::Exit2Ir => if tms { TapState::UpdateIr } else { TapState::ShiftIr },
            TapState::UpdateIr => if tms { TapState::SelectDr } else { TapState::Idle },
        }
    }
}

/// Holding the mode-select line high one edge longer extends the walk at
/// its end.
pub proof fn lemma_after_ones_step(s: TapState, k: nat)
    ensures
        tap_after_ones(s, k + 1) == tap_next(tap_after_ones(s, k), true),
    decreases k,
{
    reveal_with_fuel(tap_after_ones, 2);
    if k > 0 {
        lemma_after_ones_step(tap_next(s, true), (k - 1) as nat);
    }
}

/// Reset convergence: from any state, five consecutive clock edges with the
/// mode-select line held high land the controller in `Reset`, regardless of
/// prior history.
pub proof fn lemma_reset_convergence(s: TapState)
    ensures
        tap_after_ones(s, 5) == TapState::Reset,
{
    reveal_with_fuel(tap_after_ones, 6);
}

} // verus!
