//! Taking the terminal for a session and giving it back: which steps are
//! taken, and in which order. The steps themselves are carried out by the
//! program that owns the terminal.

use vstd::prelude::*;

verus! {

/// One step in taking the terminal or in giving it back.
#[derive(Debug, Clone, Copy, PartialEq, Eq, Structural)]
pub enum TerminalStep {
    /// Arrange that the terminal is given back if the program panics.
    InstallRestoreHook,
    EnableRawMode,
    EnterAlternateScreen,
    EnableMouseCapture,
    HideCursor,
    ClearScreen,
    DisableRawMode,
    LeaveAlternateScreen,
    DisableMouseCapture,
    ShowCursor,
}

impl TerminalStep {
    /// The step that gives back what this step takes, if it takes anything.
    pub open spec fn undone_by(self) -> Option<TerminalStep> {
        match self {
            TerminalStep::EnableRawMode => Some(TerminalStep::DisableRawMode),
            TerminalStep::EnterAlternateScreen => Some(TerminalStep::LeaveAlternateScreen),
            TerminalStep::EnableMouseCapture => Some(TerminalStep::DisableMouseCapture),
            TerminalStep::HideCursor => Some(TerminalStep::ShowCursor),
            _ => None,
        }
    }

    /// Whether the step needs the handle of the terminal. A step that does
    /// not can be carried out from a panic hook.
    pub open spec fn needs_handle(self) -> bool {
        self == TerminalStep::HideCursor || self == TerminalStep::ClearScreen || self
            == TerminalStep::ShowCursor
    }
}

/// The steps at the start of a session. The hook that gives the terminal
/// back comes before everything else, so that a failure at any later step
/// still leaves the terminal usable.
pub open spec fn setup_plan() -> Seq<TerminalStep> {
    seq![
        TerminalStep::InstallRestoreHook,
        TerminalStep::EnableRawMode,
        TerminalStep::EnterAlternateScreen,
        TerminalStep::EnableMouseCapture,
        TerminalStep::HideCursor,
        TerminalStep::ClearScreen,
    ]
}

/// The steps that give the terminal back, as far as that can be done
/// without its handle. The panic hook takes these.
pub open spec fn restore_plan() -> Seq<TerminalStep> {
    seq![
        TerminalStep::DisableRawMode,
        TerminalStep::LeaveAlternateScreen,
        TerminalStep::DisableMouseCapture,
    ]
}

/// The steps at the end of a session: those of [`restore_plan`], and the
/// cursor shown again.
pub open spec fn exit_plan() -> Seq<TerminalStep> {
    restore_plan().push(TerminalStep::ShowCursor)
}

/// The steps to take at the start of a session, in order.
pub fn setup_steps() -> (steps: Vec<TerminalStep>)
    ensures
        steps@ == setup_plan(),
{
    let mut steps: Vec<TerminalStep> = Vec::new();
    steps.push(TerminalStep::InstallRestoreHook);
    steps.push(TerminalStep::EnableRawMode);
    steps.push(TerminalStep::EnterAlternateScreen);
    steps.push(TerminalStep::EnableMouseCapture);
    steps.push(TerminalStep::HideCursor);
    steps.push(TerminalStep::ClearScreen);
    assert(steps@ =~= setup_plan());
    steps
}

/// The steps that the panic hook takes, in order.
pub fn restore_steps() -> (steps: Vec<TerminalStep>)
    ensures
        steps@ == restore_plan(),
{
    let mut steps: Vec<TerminalStep> = Vec::new();
    steps.push(TerminalStep::DisableRawMode);
    steps.push(TerminalStep::LeaveAlternateScreen);
    steps.push(TerminalStep::DisableMouseCapture);
    assert(steps@ =~= restore_plan());
    steps
}

/// The steps to take at the end of a session, in order.
pub fn exit_steps() -> (steps: Vec<TerminalStep>)
    ensures
        steps@ == exit_plan(),
{
    let mut steps = restore_steps();
    steps.push(TerminalStep::ShowCursor);
    steps
}

/// The hook is installed first, and once only.
pub proof fn lemma_hook_comes_first()
    ensures
        setup_plan()[0] == TerminalStep::InstallRestoreHook,
        forall|i: int|
            0 < i < setup_plan().len() ==> #[trigger] setup_plan()[i]
                != TerminalStep::InstallRestoreHook,
{
}

/// Whatever the start of a session takes, its end gives back.
pub proof fn lemma_exit_undoes_setup(i: int)
    requires
        0 <= i < setup_plan().len(),
    ensures
        setup_plan()[i].undone_by() matches Some(undo) ==> exit_plan().contains(undo),
{
    let plan = exit_plan();
    assert(plan[0] == TerminalStep::DisableRawMode);
    assert(plan[1] == TerminalStep::LeaveAlternateScreen);
    assert(plan[2] == TerminalStep::DisableMouseCapture);
    assert(plan[3] == TerminalStep::ShowCursor);
}

/// The panic hook gives back everything that the start of a session takes
/// and that can be given back without the handle of the terminal, and it
/// takes no step that needs the handle.
pub proof fn lemma_hook_restores_without_handle(i: int)
    requires
        0 <= i < setup_plan().len(),
    ensures
        setup_plan()[i].undone_by() matches Some(undo) ==> undo.needs_handle()
            || restore_plan().contains(undo),
        forall|j: int| 0 <= j < restore_plan().len() ==> !(#[trigger] restore_plan()[j]).needs_handle(),
{
    let plan = restore_plan();
    assert(plan[0] == TerminalStep::DisableRawMode);
    assert(plan[1] == TerminalStep::LeaveAlternateScreen);
    assert(plan[2] == TerminalStep::DisableMouseCapture);
}

} // verus!
