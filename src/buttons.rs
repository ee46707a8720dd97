use vstd::prelude::*;

verus! {

/// An integer point in absolute screen coordinates, origin top-left.
#[derive(Clone, Copy, Debug, PartialEq, Eq, Structural)]
pub struct ScreenPoint {
    pub x: i32,
    pub y: i32,
}

/// The three standard pointer buttons.
#[derive(Clone, Copy, Debug, PartialEq, Eq, Structural)]
pub enum ButtonKind {
    Primary,
    Secondary,
    Tertiary,
}

/// Errors of the engine.
#[derive(Clone, Copy, Debug, PartialEq, Eq, Structural)]
pub enum EngineError {
    /// The operating system refused or could not perform a pointer operation.
    BackendUnavailable,
    /// A shared guard could not be taken; the operation is skipped.
    LockContention,
    /// A capture session could not complete.
    CaptureAborted,
}

/// Position of each button in the backend's raw pressed-flag sequence.
/// This is a fixed table for the X11 backend, which reports core button
/// `n` at index `n` (1 left, 2 middle, 3 right); it is not inferred at runtime.
pub open spec fn snapshot_index(b: ButtonKind) -> nat {
    match b {
        ButtonKind::Primary => 1,
        ButtonKind::Secondary => 3,
        ButtonKind::Tertiary => 2,
    }
}

/// Whether `b` reads as pressed in the raw snapshot `s`; a button beyond
/// the snapshot's end reads as released.
pub open spec fn pressed_in(s: Seq<bool>, b: ButtonKind) -> bool {
    snapshot_index(b) < s.len() && s[snapshot_index(b) as int]
}

/// Index of `b` in a raw button snapshot.
pub fn button_index(b: ButtonKind) -> (r: usize)
    ensures
        r as nat == snapshot_index(b),
{
    match b {
        ButtonKind::Primary => 1,
        ButtonKind::Secondary => 3,
        ButtonKind::Tertiary => 2,
    }
}

/// Reads the pressed state of `b` from a raw button snapshot.
pub fn is_pressed_in(snapshot: &Vec<bool>, b: ButtonKind) -> (r: bool)
    ensures
        r == pressed_in(snapshot@, b),
{
    let i = button_index(b);
    if i < snapshot.len() {
        snapshot[i]
    } else {
        false
    }
}

} // verus!
