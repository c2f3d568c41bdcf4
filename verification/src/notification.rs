//! What the bar does with a notification from the window manager.

use vstd::prelude::*;

use crate::error::BarError;
use crate::monitor::{MonitorInfo, MonitorModel};
use crate::state::State;

verus! {

/// What happened in the window manager, as far as the bar acts on it. The
/// payload of an event stays with the caller.
#[derive(Clone, Copy, Debug, PartialEq, Eq, Structural)]
pub enum NotificationEvent {
    /// The window manager read its static configuration again.
    ReloadStaticConfiguration,
    /// The window manager was sent a theme.
    Theme,
    /// Anything else.
    Other,
}

/// A notification: an event, and the state of the window manager after it.
#[derive(Clone, Debug, PartialEq, Eq)]
pub struct Notification {
    pub event: NotificationEvent,
    pub state: State,
}

/// What a notification asks of the bar's theme.
#[derive(Clone, Copy, Debug, PartialEq, Eq, Structural)]
pub enum ThemeRequest {
    /// Leave the theme alone.
    Keep,
    /// Read the static configuration and take the theme from there.
    FromStaticConfiguration,
    /// Take the theme that came with the event.
    FromMessage,
}

/// The theme to apply after the static configuration was read again.
#[derive(Clone, Copy, Debug, PartialEq, Eq, Structural)]
pub enum ThemeChoice {
    /// The configuration could not be read: leave the theme alone.
    Keep,
    /// The theme that the configuration names.
    Configured,
    /// The bar's own default theme: the configuration names none.
    Default,
    /// The configuration names no theme and the bar has no default: leave
    /// the theme alone and say so.
    Missing,
}

impl ThemeRequest {
    /// What an event asks of the theme.
    pub open spec fn of(event: NotificationEvent) -> ThemeRequest {
        match event {
            NotificationEvent::ReloadStaticConfiguration => ThemeRequest::FromStaticConfiguration,
            NotificationEvent::Theme => ThemeRequest::FromMessage,
            NotificationEvent::Other => ThemeRequest::Keep,
        }
    }
}

impl ThemeChoice {
    /// The theme to apply once the static configuration was read again:
    /// `readable` says whether it could be read, `has_theme` whether it
    /// names a theme, `has_default` whether the bar has a default theme.
    pub open spec fn after_reload(
        readable: bool,
        has_theme: bool,
        has_default: bool,
    ) -> ThemeChoice {
        if !readable {
            ThemeChoice::Keep
        } else if has_theme {
            ThemeChoice::Configured
        } else if has_default {
            ThemeChoice::Default
        } else {
            ThemeChoice::Missing
        }
    }

    /// Chooses the theme to apply once the static configuration was read
    /// again.
    pub fn choose_after_reload(readable: bool, has_theme: bool, has_default: bool) -> (choice:
        ThemeChoice)
        ensures
            choice == Self::after_reload(readable, has_theme, has_default),
    {
        if !readable {
            ThemeChoice::Keep
        } else if has_theme {
            ThemeChoice::Configured
        } else if has_default {
            ThemeChoice::Default
        } else {
            ThemeChoice::Missing
        }
    }
}

/// What came of a notification.
#[derive(Clone, Copy, Debug, PartialEq, Eq)]
pub struct NotificationOutcome {
    /// Whether the model took the state in.
    pub synchronized: Result<(), BarError>,
    /// What the caller is to do about the theme.
    pub theme: ThemeRequest,
}

/// The state that the bar keeps between notifications: the model of its
/// monitor.
#[derive(Clone, Debug, PartialEq, Eq)]
pub struct KomorebiNotificationStateNew(pub MonitorInfo);

impl View for KomorebiNotificationStateNew {
    type V = MonitorModel;

    open spec fn view(&self) -> MonitorModel {
        self.0@
    }
}

impl KomorebiNotificationStateNew {
    /// Takes over from `config` whether empty workspaces are hidden.
    pub fn update_from_config(&mut self, config: &Self)
        ensures
            final(self).0 == (MonitorInfo {
                hide_empty_workspaces: config.0.hide_empty_workspaces,
                ..old(self).0
            }),
            old(self)@.focus_valid() ==> final(self)@.focus_valid(),
            old(self)@.window_focus_valid() ==> final(self)@.window_focus_valid(),
    {
        self.0.hide_empty_workspaces = config.0.hide_empty_workspaces;
        assert(self@.workspaces == old(self)@.workspaces);
        assert(self@.focused_workspace_idx == old(self)@.focused_workspace_idx);
    }

    /// Takes the state of `notification` into the model, as
    /// [`MonitorInfo::update`] does, and says what the event asks of the
    /// theme. The theme is asked for whether or not the monitor was there.
    /// Where the monitor was there, every focus index of the model names
    /// an element afterwards.
    pub fn handle_notification(
        &mut self,
        monitor_index: Option<usize>,
        notification: Notification,
        show_all_icons: bool,
    ) -> (outcome: NotificationOutcome)
        ensures
            outcome.theme == ThemeRequest::of(notification.event),
            old(self)@.effective_index(monitor_index) < notification.state@.monitors.len()
                ==> outcome.synchronized is Ok && final(self)@ == old(self)@.synchronized(
                old(self)@.effective_index(monitor_index),
                notification.state@,
                show_all_icons,
            ) && final(self)@.focus_valid() && final(self)@.window_focus_valid(),
            old(self)@.effective_index(monitor_index) >= notification.state@.monitors.len()
                ==> outcome.synchronized == Err::<(), BarError>(BarError::MonitorUnavailable)
                && *final(self) == *old(self),
            old(self)@.focus_valid() ==> final(self)@.focus_valid(),
            old(self)@.window_focus_valid() ==> final(self)@.window_focus_valid(),
    {
        let Notification { event, state } = notification;
        let synchronized = self.0.update(monitor_index, state, show_all_icons);
        let theme = match event {
            NotificationEvent::ReloadStaticConfiguration => ThemeRequest::FromStaticConfiguration,
            NotificationEvent::Theme => ThemeRequest::FromMessage,
            NotificationEvent::Other => ThemeRequest::Keep,
        };
        NotificationOutcome { synchronized, theme }
    }
}

} // verus!
