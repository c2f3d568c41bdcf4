//! From a click on the bar to the commands for the window manager.
//!
//! A click becomes one ordered batch of commands. The caller sends the
//! batch as a whole and reports back whether the window manager took it;
//! only then does the model move ahead of the next snapshot.

use vstd::prelude::*;

use crate::error::BarError;
use crate::monitor::{MonitorInfo, MonitorModel};

verus! {

/// A command for the window manager.
#[derive(Clone, Debug, PartialEq, Eq)]
pub enum SocketMessage {
    /// Focus the monitor under the mouse cursor.
    FocusMonitorAtCursor,
    /// Focus a workspace, given by monitor index and workspace index.
    FocusMonitorWorkspaceNumber(usize, usize),
    /// Focus a window of the focused stack, given by its index.
    FocusStackWindow(usize),
    /// Move the focus between the tiling and the floating layer.
    ToggleWorkspaceLayer,
    /// Lock or unlock the focused container.
    ToggleLock,
    /// Set whether the mouse cursor follows the focus.
    MouseFollowsFocus(bool),
    /// Replace the running configuration by the file at the given path.
    ReplaceConfiguration(String),
}

/// View of a [`SocketMessage`].
pub enum Command {
    FocusMonitorAtCursor,
    FocusMonitorWorkspaceNumber(usize, usize),
    FocusStackWindow(usize),
    ToggleWorkspaceLayer,
    ToggleLock,
    MouseFollowsFocus(bool),
    ReplaceConfiguration(Seq<char>),
}

impl View for SocketMessage {
    type V = Command;

    open spec fn view(&self) -> Command {
        match self {
            SocketMessage::FocusMonitorAtCursor => Command::FocusMonitorAtCursor,
            SocketMessage::FocusMonitorWorkspaceNumber(monitor, workspace) => {
                Command::FocusMonitorWorkspaceNumber(*monitor, *workspace)
            },
            SocketMessage::FocusStackWindow(idx) => Command::FocusStackWindow(*idx),
            SocketMessage::ToggleWorkspaceLayer => Command::ToggleWorkspaceLayer,
            SocketMessage::ToggleLock => Command::ToggleLock,
            SocketMessage::MouseFollowsFocus(on) => Command::MouseFollowsFocus(*on),
            SocketMessage::ReplaceConfiguration(path) => Command::ReplaceConfiguration(path@),
        }
    }
}

/// The views of a sequence of messages, in order.
pub open spec fn command_views(messages: Seq<SocketMessage>) -> Seq<Command> {
    Seq::new(messages.len(), |i: int| messages[i]@)
}

/// What the user did on the bar.
#[derive(Clone, Debug, PartialEq, Eq)]
pub enum Interaction {
    /// Clicked the workspace at this index.
    FocusWorkspace(usize),
    /// Clicked the window at this index of the focused container.
    FocusStackWindow(usize),
    /// Clicked the workspace layer widget.
    ToggleWorkspaceLayer,
    /// Clicked the locked container widget.
    ToggleLock,
    /// Chose the configuration file at this path.
    ReplaceConfiguration(String),
}

/// View of an [`Interaction`].
pub enum Click {
    FocusWorkspace(usize),
    FocusStackWindow(usize),
    ToggleWorkspaceLayer,
    ToggleLock,
    ReplaceConfiguration(Seq<char>),
}

impl View for Interaction {
    type V = Click;

    open spec fn view(&self) -> Click {
        match self {
            Interaction::FocusWorkspace(idx) => Click::FocusWorkspace(*idx),
            Interaction::FocusStackWindow(idx) => Click::FocusStackWindow(*idx),
            Interaction::ToggleWorkspaceLayer => Click::ToggleWorkspaceLayer,
            Interaction::ToggleLock => Click::ToggleLock,
            Interaction::ReplaceConfiguration(path) => Click::ReplaceConfiguration(path@),
        }
    }
}

/// A command that moves the focus, kept from dragging the mouse cursor
/// along: while the cursor follows the focus, following is switched off
/// before the command and on again after it.
pub open spec fn guarded(command: Command, mouse_follows_focus: bool) -> Seq<Command> {
    if mouse_follows_focus {
        seq![Command::MouseFollowsFocus(false), command, Command::MouseFollowsFocus(true)]
    } else {
        seq![command]
    }
}

/// Whether the mouse cursor follows the focus once the first `upto`
/// commands have been carried out, if it did so or not before: the last
/// command that sets it decides.
pub open spec fn follows_after(commands: Seq<Command>, before: bool, upto: int) -> bool
    decreases upto,
{
    if upto <= 0 || upto > commands.len() {
        before
    } else {
        match commands[upto - 1] {
            Command::MouseFollowsFocus(on) => on,
            _ => follows_after(commands, before, upto - 1),
        }
    }
}

/// Whether a command takes the focus to another window, so that a mouse
/// cursor that follows the focus would jump: so for the commands that
/// focus a workspace or a window of a stack, and for the change of layer.
/// Focusing the monitor under the cursor takes the focus to the cursor,
/// and locking a container or replacing the configuration leaves it where
/// it is.
pub open spec fn moves_focus(command: Command) -> bool {
    match command {
        Command::FocusMonitorWorkspaceNumber(_, _) => true,
        Command::FocusStackWindow(_) => true,
        Command::ToggleWorkspaceLayer => true,
        _ => false,
    }
}

impl Click {
    /// The command that the click stands for, on the monitor at
    /// `monitor_index`.
    pub open spec fn command(self, monitor_index: usize) -> Command {
        match self {
            Click::FocusWorkspace(idx) => Command::FocusMonitorWorkspaceNumber(monitor_index, idx),
            Click::FocusStackWindow(idx) => Command::FocusStackWindow(idx),
            Click::ToggleWorkspaceLayer => Command::ToggleWorkspaceLayer,
            Click::ToggleLock => Command::ToggleLock,
            Click::ReplaceConfiguration(path) => Command::ReplaceConfiguration(path),
        }
    }

    /// Whether the monitor under the cursor is focused before the command
    /// goes out: so for the two toggles.
    pub open spec fn focuses_monitor_first(self) -> bool {
        self is ToggleWorkspaceLayer || self is ToggleLock
    }
}

impl MonitorModel {
    /// The batch of commands for a click, in the order in which they are
    /// sent: the command that the click stands for, guarded where it moves
    /// the focus, and before it, for the two toggles, the command to focus
    /// the monitor under the cursor. Replacing the configuration goes out
    /// alone.
    pub open spec fn batch(self, click: Click) -> Seq<Command> {
        let command = click.command(self.monitor_index);
        let core = if moves_focus(command) {
            guarded(command, self.mouse_follows_focus)
        } else {
            seq![command]
        };
        if click.focuses_monitor_first() {
            seq![Command::FocusMonitorAtCursor] + core
        } else {
            core
        }
    }

    /// The place in the batch of the command that the click stands for.
    pub open spec fn command_position(self, click: Click) -> int {
        let lead: int = if click.focuses_monitor_first() {
            1
        } else {
            0
        };
        let guard: int = if moves_focus(click.command(self.monitor_index))
            && self.mouse_follows_focus {
            1
        } else {
            0
        };
        lead + guard
    }

    /// The model after the batch for a click went out. A batch that the
    /// window manager took moves the focused workspace to the one clicked,
    /// where the model has it; nothing else changes the model.
    pub open spec fn dispatched(self, click: Click, sent: bool) -> MonitorModel {
        match click {
            Click::FocusWorkspace(idx) if sent && idx < self.workspaces.len() => MonitorModel {
                focused_workspace_idx: Some(idx),
                ..self
            },
            _ => self,
        }
    }
}

/// The batch for one command that moves the focus.
pub fn socket_message_batch(monitor: &MonitorInfo, message: SocketMessage) -> (messages: Vec<
    SocketMessage,
>)
    ensures
        command_views(messages@) == guarded(message@, monitor.mouse_follows_focus),
{
    let mut messages: Vec<SocketMessage> = Vec::new();
    if monitor.mouse_follows_focus {
        messages.push(SocketMessage::MouseFollowsFocus(false));
        messages.push(message);
        messages.push(SocketMessage::MouseFollowsFocus(true));
    } else {
        messages.push(message);
    }
    assert(command_views(messages@) =~= guarded(message@, monitor.mouse_follows_focus));
    messages
}

impl MonitorInfo {
    /// The batch of commands for `interaction`.
    pub fn batch(&self, interaction: &Interaction) -> (messages: Vec<SocketMessage>)
        ensures
            command_views(messages@) == self@.batch(interaction@),
    {
        match interaction {
            Interaction::FocusWorkspace(idx) => socket_message_batch(
                self,
                SocketMessage::FocusMonitorWorkspaceNumber(self.monitor_index, *idx),
            ),
            Interaction::FocusStackWindow(idx) => socket_message_batch(
                self,
                SocketMessage::FocusStackWindow(*idx),
            ),
            Interaction::ToggleWorkspaceLayer => {
                let mut messages: Vec<SocketMessage> = Vec::new();
                messages.push(SocketMessage::FocusMonitorAtCursor);
                if self.mouse_follows_focus {
                    messages.push(SocketMessage::MouseFollowsFocus(false));
                    messages.push(SocketMessage::ToggleWorkspaceLayer);
                    messages.push(SocketMessage::MouseFollowsFocus(true));
                } else {
                    messages.push(SocketMessage::ToggleWorkspaceLayer);
                }
                assert(command_views(messages@) =~= self@.batch(interaction@));
                messages
            },
            Interaction::ToggleLock => {
                let mut messages: Vec<SocketMessage> = Vec::new();
                messages.push(SocketMessage::FocusMonitorAtCursor);
                messages.push(SocketMessage::ToggleLock);
                assert(command_views(messages@) =~= self@.batch(interaction@));
                messages
            },
            Interaction::ReplaceConfiguration(path) => {
                let mut messages: Vec<SocketMessage> = Vec::new();
                messages.push(SocketMessage::ReplaceConfiguration(path.clone()));
                assert(command_views(messages@) =~= self@.batch(interaction@));
                messages
            },
        }
    }

    /// Takes note of how sending the batch for `interaction` went: `sent`
    /// says whether the window manager took the whole batch.
    ///
    /// A batch that was not taken leaves the model exactly as it was and
    /// is reported as [`BarError::CommandSendFailure`]. A batch that was
    /// taken moves the focused workspace to the one clicked, where the
    /// model has a workspace under that index, and changes nothing else.
    /// Focus indices that named an element before still do.
    pub fn dispatch(&mut self, interaction: &Interaction, sent: bool) -> (outcome: Result<
        (),
        BarError,
    >)
        ensures
            outcome == if sent {
                Ok::<(), BarError>(())
            } else {
                Err::<(), BarError>(BarError::CommandSendFailure)
            },
            final(self)@ == old(self)@.dispatched(interaction@, sent),
            *final(self) == match *interaction {
                Interaction::FocusWorkspace(idx) if sent && idx < old(self).workspaces@.len() => {
                    MonitorInfo { focused_workspace_idx: Some(idx), ..*old(self) }
                },
                _ => *old(self),
            },
            old(self)@.focus_valid() ==> final(self)@.focus_valid(),
            old(self)@.window_focus_valid() ==> final(self)@.window_focus_valid(),
    {
        if !sent {
            return Err(BarError::CommandSendFailure);
        }
        match interaction {
            Interaction::FocusWorkspace(idx) => {
                if *idx < self.workspaces.len() {
                    self.focused_workspace_idx = Some(*idx);
                }
            },
            _ => {},
        }
        Ok(())
    }
}

} // verus!
