//! What the engine hands to the world around it, and what the presenter
//! hands back.

use vstd::prelude::*;
use crate::bus::CloseReason;
use crate::notification::{Notification, NotificationView};

verus! {

/// What the presenter is asked to do.
#[derive(Debug)]
pub enum UiEvent {
    /// Show a new notification.
    Show(Notification),
    /// Show a notification in place of the one with this identifier.
    Update(u32, Notification),
    /// Take a notification off the screen.
    Close(u32),
    /// Lay the notifications out again.
    Reposition,
    /// Show the panel of past notifications.
    ShowCenter,
    /// Hide the panel of past notifications.
    HideCenter,
    /// Show the panel if it is hidden, hide it if it is shown.
    ToggleCenter,
}

/// What a person did to a notification, as the presenter reports it.
#[derive(Debug)]
pub enum ActionEvent {
    /// One of the actions was picked.
    ActionInvoked { id: u32, action_key: String },
    /// The notification was dismissed.
    Dismissed { id: u32 },
    /// The pointer came over the notification.
    Hovered { id: u32 },
    /// The pointer left the notification.
    Unhovered { id: u32 },
    /// A reply was typed into the notification.
    InlineReply { id: u32, text: String },
    /// The application behind the notification is to get the focus.
    FocusApp { id: u32, app_name: String },
    /// The notification itself was clicked.
    DefaultAction { id: u32 },
}

/// What an `ActionEvent` holds.
pub enum ActionEventView {
    ActionInvoked { id: u32, action_key: Seq<char> },
    Dismissed { id: u32 },
    Hovered { id: u32 },
    Unhovered { id: u32 },
    InlineReply { id: u32, text: Seq<char> },
    FocusApp { id: u32, app_name: Seq<char> },
    DefaultAction { id: u32 },
}

impl View for ActionEvent {
    type V = ActionEventView;

    open spec fn view(&self) -> ActionEventView {
        match *self {
            ActionEvent::ActionInvoked { id, action_key } => ActionEventView::ActionInvoked {
                id,
                action_key: action_key@,
            },
            ActionEvent::Dismissed { id } => ActionEventView::Dismissed { id },
            ActionEvent::Hovered { id } => ActionEventView::Hovered { id },
            ActionEvent::Unhovered { id } => ActionEventView::Unhovered { id },
            ActionEvent::InlineReply { id, text } => ActionEventView::InlineReply { id, text: text@ },
            ActionEvent::FocusApp { id, app_name } => ActionEventView::FocusApp {
                id,
                app_name: app_name@,
            },
            ActionEvent::DefaultAction { id } => ActionEventView::DefaultAction { id },
        }
    }
}

/// Something that the engine wants done: a request to the presenter, a
/// signal on the bus, a timer to set, or a window to focus.
#[derive(Debug)]
pub enum Outbound {
    /// A request to the presenter.
    Ui(UiEvent),
    /// The bus signal that a notification was closed.
    Closed { id: u32, reason: CloseReason },
    /// The bus signal that an action was invoked.
    ActionInvoked { id: u32, action_key: String },
    /// The bus signal that carries a typed reply.
    Replied { id: u32, text: String },
    /// A request to report, after `delay_ms` milliseconds, that the timer
    /// of generation `epoch` of a notification ran out.
    ArmTimer { id: u32, epoch: u64, delay_ms: i32 },
    /// A request to focus the windows of an application.
    Focus { app_name: String },
}

/// What an `Outbound` holds.
pub enum Effect {
    Show(NotificationView),
    Update(u32, NotificationView),
    Close(u32),
    Reposition,
    ShowCenter,
    HideCenter,
    ToggleCenter,
    Closed { id: u32, reason: CloseReason },
    ActionInvoked { id: u32, action_key: Seq<char> },
    Replied { id: u32, text: Seq<char> },
    ArmTimer { id: u32, epoch: u64, delay_ms: i32 },
    Focus { app_name: Seq<char> },
}

impl View for UiEvent {
    type V = Effect;

    open spec fn view(&self) -> Effect {
        match *self {
            UiEvent::Show(n) => Effect::Show(n@),
            UiEvent::Update(id, n) => Effect::Update(id, n@),
            UiEvent::Close(id) => Effect::Close(id),
            UiEvent::Reposition => Effect::Reposition,
            UiEvent::ShowCenter => Effect::ShowCenter,
            UiEvent::HideCenter => Effect::HideCenter,
            UiEvent::ToggleCenter => Effect::ToggleCenter,
        }
    }
}

impl View for Outbound {
    type V = Effect;

    open spec fn view(&self) -> Effect {
        match *self {
            Outbound::Ui(e) => e@,
            Outbound::Closed { id, reason } => Effect::Closed { id, reason },
            Outbound::ActionInvoked { id, action_key } => Effect::ActionInvoked {
                id,
                action_key: action_key@,
            },
            Outbound::Replied { id, text } => Effect::Replied { id, text: text@ },
            Outbound::ArmTimer { id, epoch, delay_ms } => Effect::ArmTimer { id, epoch, delay_ms },
            Outbound::Focus { app_name } => Effect::Focus { app_name: app_name@ },
        }
    }
}

/// What each item of a list of outbound requests holds.
pub open spec fn effects_of(items: Seq<Outbound>) -> Seq<Effect> {
    items.map_values(|o: Outbound| o@)
}

} // verus!
