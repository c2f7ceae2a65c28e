use harview::lifecycle::{exit_steps, restore_steps, setup_steps, TerminalStep};

#[test]
fn setup_installs_the_hook_first() {
    let steps = setup_steps();
    assert_eq!(
        steps,
        vec![
            TerminalStep::InstallRestoreHook,
            TerminalStep::EnableRawMode,
            TerminalStep::EnterAlternateScreen,
            TerminalStep::EnableMouseCapture,
            TerminalStep::HideCursor,
            TerminalStep::ClearScreen,
        ]
    );
    assert_eq!(steps[0], TerminalStep::InstallRestoreHook);
}

#[test]
fn restore_gives_back_what_needs_no_handle() {
    assert_eq!(
        restore_steps(),
        vec![
            TerminalStep::DisableRawMode,
            TerminalStep::LeaveAlternateScreen,
            TerminalStep::DisableMouseCapture,
        ]
    );
}

#[test]
fn exit_restores_and_shows_the_cursor() {
    let mut expected = restore_steps();
    expected.push(TerminalStep::ShowCursor);
    assert_eq!(exit_steps(), expected);
    assert_eq!(exit_steps().len(), 4);
}
