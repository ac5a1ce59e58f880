//! The tray controller: which command each menu id names, what the shell
//! does for each command, what a window event does, and the launch-on-login
//! toggle.
//!
//! The host performs the reactions decided here: it shows the window,
//! registers or unregisters the launch-on-login flag, ticks the checkbox
//! item, runs the forget-and-prompt sequence, or ends the process. The one
//! piece of state the controller keeps is [`TrayState`]: the flag as last
//! attempted and the checkbox mirroring it.

use vstd::prelude::*;
use crate::url_text::str_eq;

verus! {

/// A tray menu entry, as the menu event names it.
#[derive(Clone, Copy, PartialEq, Eq, Structural, Debug)]
pub enum TrayCommand {
    /// Bring the main window back.
    Open,
    /// Toggle launch-on-login.
    Autostart,
    /// Forget the stored server and ask again.
    Forget,
    /// End the process.
    Quit,
    /// An id the menu never produces.
    Unknown,
}

/// What the shell does in response to one tray command or window event.
#[derive(Clone, Copy, PartialEq, Eq, Structural, Debug)]
pub enum Reaction {
    /// Show the main window.
    ShowWindow,
    /// Set the launch-on-login flag — and the checkbox — to `target`.
    SetAutostart { target: bool },
    /// Clear the stored URL, then put the first-run question again; a new
    /// URL is loaded and the window shown, a cancellation changes nothing.
    ForgetServer,
    /// Hide the window and keep the process resident.
    HideWindow,
    /// End the process with the given status.
    Exit { code: i32 },
    /// Do nothing.
    Ignore,
}

/// A window event the shell watches.
#[derive(Clone, Copy, PartialEq, Eq, Structural, Debug)]
pub enum WindowEvent {
    /// The user asked the window to close.
    CloseRequested,
    /// Anything else.
    Other,
}

/// The command a menu id names.
pub open spec fn command_of(id: Seq<char>) -> TrayCommand {
    if id == "open"@ {
        TrayCommand::Open
    } else if id == "autostart"@ {
        TrayCommand::Autostart
    } else if id == "forget"@ {
        TrayCommand::Forget
    } else if id == "quit"@ {
        TrayCommand::Quit
    } else {
        TrayCommand::Unknown
    }
}

/// What each command does, given the launch-on-login flag as currently
/// known: open shows the window, autostart aims at the inverted flag,
/// forget starts the forget-and-prompt sequence, quit ends the process
/// with status 0, and an unknown id does nothing.
pub open spec fn command_reaction_of(cmd: TrayCommand, autostart_on: bool) -> Reaction {
    match cmd {
        TrayCommand::Open => Reaction::ShowWindow,
        TrayCommand::Autostart => (Reaction::SetAutostart { target: !autostart_on }),
        TrayCommand::Forget => Reaction::ForgetServer,
        TrayCommand::Quit => (Reaction::Exit { code: 0 }),
        TrayCommand::Unknown => Reaction::Ignore,
    }
}

/// What each window event does: a close request hides the window — the
/// process stays resident, the tray remains the only way out — and
/// anything else is left alone.
pub open spec fn window_reaction_of(ev: WindowEvent) -> Reaction {
    match ev {
        WindowEvent::CloseRequested => Reaction::HideWindow,
        WindowEvent::Other => Reaction::Ignore,
    }
}

/// Names the command behind a menu id.
pub fn parse_command(id: &str) -> (cmd: TrayCommand)
    ensures
        cmd == command_of(id@),
{
    if str_eq(id, "open") {
        TrayCommand::Open
    } else if str_eq(id, "autostart") {
        TrayCommand::Autostart
    } else if str_eq(id, "forget") {
        TrayCommand::Forget
    } else if str_eq(id, "quit") {
        TrayCommand::Quit
    } else {
        TrayCommand::Unknown
    }
}

/// Decides the reaction to a tray command.
pub fn command_reaction(cmd: TrayCommand, autostart_on: bool) -> (r: Reaction)
    ensures
        r == command_reaction_of(cmd, autostart_on),
{
    match cmd {
        TrayCommand::Open => Reaction::ShowWindow,
        TrayCommand::Autostart => Reaction::SetAutostart { target: !autostart_on },
        TrayCommand::Forget => Reaction::ForgetServer,
        TrayCommand::Quit => Reaction::Exit { code: 0 },
        TrayCommand::Unknown => Reaction::Ignore,
    }
}

/// Decides the reaction to a window event.
pub fn window_reaction(ev: WindowEvent) -> (r: Reaction)
    ensures
        r == window_reaction_of(ev),
{
    match ev {
        WindowEvent::CloseRequested => Reaction::HideWindow,
        WindowEvent::Other => Reaction::Ignore,
    }
}

/// The controller's mirror of launch-on-login: the OS flag as last
/// attempted, and the checkbox the menu shows. The checkbox is a view of
/// the attempted flag, never a source of truth; should the OS silently
/// refuse a toggle, the real registration may lag what is mirrored here.
#[derive(Clone, Copy, PartialEq, Eq, Structural, Debug)]
pub struct TrayState {
    /// The launch-on-login flag, as last attempted.
    pub autostart_flag: bool,
    /// The checkbox shown beside "start on login".
    pub checkbox: bool,
}

/// One toggle of launch-on-login: the flag inverts, and the checkbox shows
/// the attempted new state.
pub open spec fn toggled(s: TrayState) -> TrayState {
    TrayState { autostart_flag: !s.autostart_flag, checkbox: !s.autostart_flag }
}

impl TrayState {
    /// The state at menu construction: the flag as the OS reports it, the
    /// checkbox agreeing with it.
    pub fn initial(autostart_on: bool) -> (s: Self)
        ensures
            s == (TrayState { autostart_flag: autostart_on, checkbox: autostart_on }),
    {
        TrayState { autostart_flag: autostart_on, checkbox: autostart_on }
    }

    /// Performs the "autostart" command on the mirror and answers the value
    /// the OS flag is to be set to.
    pub fn toggle(&mut self) -> (target: bool)
        ensures
            *final(self) == toggled(*old(self)),
            target == !old(self).autostart_flag,
    {
        let target = !self.autostart_flag;
        self.autostart_flag = target;
        self.checkbox = target;
        target
    }
}

/// Law: toggling launch-on-login twice restores the original flag, and the
/// checkbox agrees with the flag after each toggle.
pub proof fn lemma_double_toggle_restores(s: TrayState)
    ensures
        toggled(toggled(s)).autostart_flag == s.autostart_flag,
        toggled(s).checkbox == toggled(s).autostart_flag,
        toggled(toggled(s)).checkbox == toggled(toggled(s)).autostart_flag,
{
}

/// Law: no window event ends the process; among tray commands exactly
/// "quit" does, and it does so with status 0.
pub proof fn lemma_only_quit_exits(cmd: TrayCommand, autostart_on: bool, ev: WindowEvent)
    ensures
        !(window_reaction_of(ev) matches Reaction::Exit { .. }),
        (command_reaction_of(cmd, autostart_on) matches Reaction::Exit { .. }) <==> cmd
            == TrayCommand::Quit,
        command_reaction_of(TrayCommand::Quit, autostart_on) == (Reaction::Exit { code: 0 }),
{
}

} // verus!
