//! Taking the terminal and giving it back: which commands to run, in which
//! order. There are two plans: one for a terminal with or without mouse
//! capture and bracketed paste, and one for the screen, which always takes
//! both.

use vstd::prelude::*;

verus! {

/// One command to the terminal.
#[derive(Clone, Copy, Debug, PartialEq, Eq, Structural)]
pub enum TermCommand {
    EnableRawMode,
    EnterAlternateScreen,
    HideCursor,
    EnableMouseCapture,
    EnableBracketedPaste,
    /// Start the task that watches the terminal.
    StartEvents,
    /// Write out what is buffered for the terminal.
    Flush,
    DisableBracketedPaste,
    DisableMouseCapture,
    LeaveAlternateScreen,
    ShowCursor,
    DisableRawMode,
}

/// The command `c` alone, where `wanted`; else nothing.
pub open spec fn only_if(wanted: bool, c: TermCommand) -> Seq<TermCommand> {
    if wanted {
        seq![c]
    } else {
        Seq::empty()
    }
}

/// The commands that take the terminal: raw mode, the alternate screen with
/// the cursor hidden, mouse capture and bracketed paste where they are
/// wanted, and then the start of the watching task.
pub open spec fn enter_plan(mouse: bool, paste: bool) -> Seq<TermCommand> {
    seq![TermCommand::EnableRawMode, TermCommand::EnterAlternateScreen, TermCommand::HideCursor]
        + only_if(mouse, TermCommand::EnableMouseCapture) + only_if(
        paste,
        TermCommand::EnableBracketedPaste,
    ) + seq![TermCommand::StartEvents]
}

/// The commands that give the terminal back. Where raw mode is not on there
/// is nothing to give back; else the buffer is flushed, bracketed paste and
/// mouse capture are switched off where they were wanted, the alternate
/// screen is left with the cursor shown, and raw mode ends.
pub open spec fn exit_plan(raw_mode: bool, mouse: bool, paste: bool) -> Seq<TermCommand> {
    if raw_mode {
        seq![TermCommand::Flush] + only_if(paste, TermCommand::DisableBracketedPaste) + only_if(
            mouse,
            TermCommand::DisableMouseCapture,
        ) + seq![
            TermCommand::LeaveAlternateScreen,
            TermCommand::ShowCursor,
            TermCommand::DisableRawMode,
        ]
    } else {
        Seq::empty()
    }
}

/// The commands that take the screen: raw mode, the alternate screen with the
/// cursor hidden, mouse capture and bracketed paste, and then the start of
/// the watching task.
pub open spec fn screen_enter_plan() -> Seq<TermCommand> {
    seq![
        TermCommand::EnableRawMode,
        TermCommand::EnterAlternateScreen,
        TermCommand::HideCursor,
        TermCommand::EnableMouseCapture,
        TermCommand::EnableBracketedPaste,
        TermCommand::StartEvents,
    ]
}

/// The commands that give the screen back. Where raw mode is not on there is
/// nothing to give back; else the buffer is flushed, the alternate screen is
/// left with the cursor shown, mouse capture and bracketed paste are switched
/// off, and raw mode ends.
pub open spec fn screen_exit_plan(raw_mode: bool) -> Seq<TermCommand> {
    if raw_mode {
        seq![
            TermCommand::Flush,
            TermCommand::LeaveAlternateScreen,
            TermCommand::ShowCursor,
            TermCommand::DisableMouseCapture,
            TermCommand::DisableBracketedPaste,
            TermCommand::DisableRawMode,
        ]
    } else {
        Seq::empty()
    }
}

/// The command that undoes `c`, where `c` changes the terminal's mode.
pub open spec fn undoing(c: TermCommand) -> Option<TermCommand> {
    match c {
        TermCommand::EnableRawMode => Some(TermCommand::DisableRawMode),
        TermCommand::EnterAlternateScreen => Some(TermCommand::LeaveAlternateScreen),
        TermCommand::HideCursor => Some(TermCommand::ShowCursor),
        TermCommand::EnableMouseCapture => Some(TermCommand::DisableMouseCapture),
        TermCommand::EnableBracketedPaste => Some(TermCommand::DisableBracketedPaste),
        _ => None,
    }
}

/// Builds the commands that take the terminal.
pub fn enter_commands(mouse: bool, paste: bool) -> (plan: Vec<TermCommand>)
    ensures
        plan@ == enter_plan(mouse, paste),
{
    let mut plan: Vec<TermCommand> = Vec::new();
    plan.push(TermCommand::EnableRawMode);
    plan.push(TermCommand::EnterAlternateScreen);
    plan.push(TermCommand::HideCursor);
    if mouse {
        plan.push(TermCommand::EnableMouseCapture);
    }
    if paste {
        plan.push(TermCommand::EnableBracketedPaste);
    }
    plan.push(TermCommand::StartEvents);
    plan
}

/// Builds the commands that give the terminal back.
pub fn exit_commands(raw_mode: bool, mouse: bool, paste: bool) -> (plan: Vec<TermCommand>)
    ensures
        plan@ == exit_plan(raw_mode, mouse, paste),
{
    let mut plan: Vec<TermCommand> = Vec::new();
    if raw_mode {
        plan.push(TermCommand::Flush);
        if paste {
            plan.push(TermCommand::DisableBracketedPaste);
        }
        if mouse {
            plan.push(TermCommand::DisableMouseCapture);
        }
        plan.push(TermCommand::LeaveAlternateScreen);
        plan.push(TermCommand::ShowCursor);
        plan.push(TermCommand::DisableRawMode);
    }
    plan
}

/// Builds the commands that take the screen.
pub fn screen_enter_commands() -> (plan: Vec<TermCommand>)
    ensures
        plan@ == screen_enter_plan(),
{
    let mut plan: Vec<TermCommand> = Vec::new();
    plan.push(TermCommand::EnableRawMode);
    plan.push(TermCommand::EnterAlternateScreen);
    plan.push(TermCommand::HideCursor);
    plan.push(TermCommand::EnableMouseCapture);
    plan.push(TermCommand::EnableBracketedPaste);
    plan.push(TermCommand::StartEvents);
    proof {
        assert(plan@ =~= screen_enter_plan());
    }
    plan
}

/// Builds the commands that give the screen back.
pub fn screen_exit_commands(raw_mode: bool) -> (plan: Vec<TermCommand>)
    ensures
        plan@ == screen_exit_plan(raw_mode),
{
    let mut plan: Vec<TermCommand> = Vec::new();
    if raw_mode {
        plan.push(TermCommand::Flush);
        plan.push(TermCommand::LeaveAlternateScreen);
        plan.push(TermCommand::ShowCursor);
        plan.push(TermCommand::DisableMouseCapture);
        plan.push(TermCommand::DisableBracketedPaste);
        plan.push(TermCommand::DisableRawMode);
    }
    proof {
        assert(plan@ =~= screen_exit_plan(raw_mode));
    }
    plan
}

/// The screen is given back whole: every change of mode that taking the
/// screen makes is undone by giving it back, and raw mode ends last.
pub proof fn law_screen_exit_undoes_enter(k: int)
    requires
        0 <= k < screen_enter_plan().len(),
        undoing(screen_enter_plan()[k]) is Some,
    ensures
        screen_exit_plan(true).contains(undoing(screen_enter_plan()[k])->0),
        screen_exit_plan(true).last() == TermCommand::DisableRawMode,
{
    let back = screen_exit_plan(true);
    assert(back[1] == TermCommand::LeaveAlternateScreen);
    assert(back[2] == TermCommand::ShowCursor);
    assert(back[3] == TermCommand::DisableMouseCapture);
    assert(back[4] == TermCommand::DisableBracketedPaste);
    assert(back[5] == TermCommand::DisableRawMode);
}

/// The terminal is given back whole: every change of mode that taking the
/// terminal makes is undone by giving it back, and raw mode ends last.
pub proof fn law_exit_undoes_enter(mouse: bool, paste: bool, k: int)
    requires
        0 <= k < enter_plan(mouse, paste).len(),
        undoing(enter_plan(mouse, paste)[k]) is Some,
    ensures
        exit_plan(true, mouse, paste).contains(undoing(enter_plan(mouse, paste)[k])->0),
        exit_plan(true, mouse, paste).last() == TermCommand::DisableRawMode,
{
    let back = exit_plan(true, mouse, paste);
    let n = back.len() as int;
    assert(back[n - 1] == TermCommand::DisableRawMode);
    assert(back[n - 2] == TermCommand::ShowCursor);
    assert(back[n - 3] == TermCommand::LeaveAlternateScreen);
    if mouse && paste {
        assert(back[1] == TermCommand::DisableBracketedPaste);
        assert(back[2] == TermCommand::DisableMouseCapture);
    } else if mouse {
        assert(back[1] == TermCommand::DisableMouseCapture);
    } else if paste {
        assert(back[1] == TermCommand::DisableBracketedPaste);
    }
}

} // verus!
