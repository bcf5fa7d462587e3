//! The control protocol: the commands a desktop utility can send, the
//! responses it gets, and what each command makes of the engine.

use vstd::prelude::*;
use crate::bus::CloseReason;
use crate::events::Effect;
use crate::manager::NotificationManager;
use crate::model::{close, dismiss_all, invoke, visible, EngineView};
use crate::dnd::DndState;
use crate::notification::{Notification, NotificationView};
use crate::text::{opt_text, str_equal};

verus! {

/// A command of the control protocol.
#[derive(Debug)]
pub enum IpcCommand {
    /// Dismiss one notification.
    Dismiss { id: u32 },
    /// Dismiss every notification.
    DismissAll,
    /// Flip Do-Not-Disturb.
    ToggleDnd,
    /// Switch Do-Not-Disturb on.
    EnableDnd,
    /// Switch Do-Not-Disturb off.
    DisableDnd,
    /// Ask whether Do-Not-Disturb is on.
    GetDndStatus,
    /// Show the panel of past notifications.
    ShowHistory,
    /// Hide the panel of past notifications.
    HideHistory,
    /// Ask how many notifications are active.
    GetCount,
    /// Read the configuration again.
    ReloadConfig,
    /// Ask for the notifications that are shown.
    GetNotifications,
    /// Invoke an action of a notification.
    InvokeAction { id: u32, action: String },
}

/// What an `IpcCommand` holds.
pub enum IpcCommandView {
    Dismiss { id: u32 },
    DismissAll,
    ToggleDnd,
    EnableDnd,
    DisableDnd,
    GetDndStatus,
    ShowHistory,
    HideHistory,
    GetCount,
    ReloadConfig,
    GetNotifications,
    InvokeAction { id: u32, action: Seq<char> },
}

impl View for IpcCommand {
    type V = IpcCommandView;

    open spec fn view(&self) -> IpcCommandView {
        match *self {
            IpcCommand::Dismiss { id } => IpcCommandView::Dismiss { id },
            IpcCommand::DismissAll => IpcCommandView::DismissAll,
            IpcCommand::ToggleDnd => IpcCommandView::ToggleDnd,
            IpcCommand::EnableDnd => IpcCommandView::EnableDnd,
            IpcCommand::DisableDnd => IpcCommandView::DisableDnd,
            IpcCommand::GetDndStatus => IpcCommandView::GetDndStatus,
            IpcCommand::ShowHistory => IpcCommandView::ShowHistory,
            IpcCommand::HideHistory => IpcCommandView::HideHistory,
            IpcCommand::GetCount => IpcCommandView::GetCount,
            IpcCommand::ReloadConfig => IpcCommandView::ReloadConfig,
            IpcCommand::GetNotifications => IpcCommandView::GetNotifications,
            IpcCommand::InvokeAction { id, action } => IpcCommandView::InvokeAction {
                id,
                action: action@,
            },
        }
    }
}

/// The command that a request names, given the fields that came with it.
/// A name that the protocol does not know, and a command without a field
/// that it needs, give none.
pub open spec fn command_of(name: Seq<char>, id: Option<u32>, action: Option<Seq<char>>) -> Option<
    IpcCommandView,
> {
    if name == "dismiss"@ {
        match id {
            Some(id) => Some(IpcCommandView::Dismiss { id }),
            None => None,
        }
    } else if name == "dismiss_all"@ {
        Some(IpcCommandView::DismissAll)
    } else if name == "toggle_dnd"@ {
        Some(IpcCommandView::ToggleDnd)
    } else if name == "enable_dnd"@ {
        Some(IpcCommandView::EnableDnd)
    } else if name == "disable_dnd"@ {
        Some(IpcCommandView::DisableDnd)
    } else if name == "get_dnd_status"@ {
        Some(IpcCommandView::GetDndStatus)
    } else if name == "show_history"@ {
        Some(IpcCommandView::ShowHistory)
    } else if name == "hide_history"@ {
        Some(IpcCommandView::HideHistory)
    } else if name == "get_count"@ {
        Some(IpcCommandView::GetCount)
    } else if name == "reload_config"@ {
        Some(IpcCommandView::ReloadConfig)
    } else if name == "get_notifications"@ {
        Some(IpcCommandView::GetNotifications)
    } else if name == "invoke_action"@ {
        match (id, action) {
            (Some(id), Some(action)) => Some(IpcCommandView::InvokeAction { id, action }),
            _ => None,
        }
    } else {
        None
    }
}

impl IpcCommand {
    /// The name of the command in a request.
    pub open spec fn name(self) -> Seq<char> {
        match self {
            IpcCommand::Dismiss { .. } => "dismiss"@,
            IpcCommand::DismissAll => "dismiss_all"@,
            IpcCommand::ToggleDnd => "toggle_dnd"@,
            IpcCommand::EnableDnd => "enable_dnd"@,
            IpcCommand::DisableDnd => "disable_dnd"@,
            IpcCommand::GetDndStatus => "get_dnd_status"@,
            IpcCommand::ShowHistory => "show_history"@,
            IpcCommand::HideHistory => "hide_history"@,
            IpcCommand::GetCount => "get_count"@,
            IpcCommand::ReloadConfig => "reload_config"@,
            IpcCommand::GetNotifications => "get_notifications"@,
            IpcCommand::InvokeAction { .. } => "invoke_action"@,
        }
    }

    /// The name of the command in a request.
    pub fn tag(&self) -> (r: &'static str)
        ensures
            r@ == self.name(),
    {
        match self {
            IpcCommand::Dismiss { .. } => "dismiss",
            IpcCommand::DismissAll => "dismiss_all",
            IpcCommand::ToggleDnd => "toggle_dnd",
            IpcCommand::EnableDnd => "enable_dnd",
            IpcCommand::DisableDnd => "disable_dnd",
            IpcCommand::GetDndStatus => "get_dnd_status",
            IpcCommand::ShowHistory => "show_history",
            IpcCommand::HideHistory => "hide_history",
            IpcCommand::GetCount => "get_count",
            IpcCommand::ReloadConfig => "reload_config",
            IpcCommand::GetNotifications => "get_notifications",
            IpcCommand::InvokeAction { .. } => "invoke_action",
        }
    }

    /// Reads a command from the name and the fields of a request.
    pub fn from_fields(name: &str, id: Option<u32>, action: Option<String>) -> (r: Option<IpcCommand>)
        ensures
            match r {
                Some(c) => command_of(name@, id, opt_text(action)) == Some(c@),
                None => command_of(name@, id, opt_text(action)) is None,
            },
    {
        if str_equal(name, "dismiss") {
            match id {
                Some(id) => Some(IpcCommand::Dismiss { id }),
                None => None,
            }
        } else if str_equal(name, "dismiss_all") {
            Some(IpcCommand::DismissAll)
        } else if str_equal(name, "toggle_dnd") {
            Some(IpcCommand::ToggleDnd)
        } else if str_equal(name, "enable_dnd") {
            Some(IpcCommand::EnableDnd)
        } else if str_equal(name, "disable_dnd") {
            Some(IpcCommand::DisableDnd)
        } else if str_equal(name, "get_dnd_status") {
            Some(IpcCommand::GetDndStatus)
        } else if str_equal(name, "show_history") {
            Some(IpcCommand::ShowHistory)
        } else if str_equal(name, "hide_history") {
            Some(IpcCommand::HideHistory)
        } else if str_equal(name, "get_count") {
            Some(IpcCommand::GetCount)
        } else if str_equal(name, "reload_config") {
            Some(IpcCommand::ReloadConfig)
        } else if str_equal(name, "get_notifications") {
            Some(IpcCommand::GetNotifications)
        } else if str_equal(name, "invoke_action") {
            match (id, action) {
                (Some(id), Some(action)) => Some(IpcCommand::InvokeAction { id, action }),
                _ => None,
            }
        } else {
            None
        }
    }
}

/// One line of the answer to `get_notifications`.
#[derive(Debug)]
pub struct NotificationSummary {
    pub id: u32,
    pub app: String,
    pub summary: String,
    /// The urgency by its lower-case name.
    pub urgency: String,
}

/// What a `NotificationSummary` holds.
pub struct SummaryView {
    pub id: u32,
    pub app: Seq<char>,
    pub summary: Seq<char>,
    pub urgency: Seq<char>,
}

impl View for NotificationSummary {
    type V = SummaryView;

    open spec fn view(&self) -> SummaryView {
        SummaryView { id: self.id, app: self.app@, summary: self.summary@, urgency: self.urgency@ }
    }
}

/// The line that stands for a notification.
pub open spec fn summary_of(n: NotificationView) -> SummaryView {
    SummaryView { id: n.id, app: n.app_name, summary: n.summary, urgency: n.hints.urgency.name() }
}

/// The data that a response carries.
#[derive(Debug)]
pub enum ResponseData {
    Flag(bool),
    Count(usize),
    Notifications(Vec<NotificationSummary>),
}

/// What a `ResponseData` holds.
pub enum DataView {
    Flag(bool),
    Count(usize),
    Notifications(Seq<SummaryView>),
}

impl View for ResponseData {
    type V = DataView;

    open spec fn view(&self) -> DataView {
        match *self {
            ResponseData::Flag(b) => DataView::Flag(b),
            ResponseData::Count(n) => DataView::Count(n),
            ResponseData::Notifications(v) => DataView::Notifications(
                v@.map_values(|s: NotificationSummary| s@),
            ),
        }
    }
}

/// The answer to a command.
#[derive(Debug)]
pub struct IpcResponse {
    pub success: bool,
    pub data: Option<ResponseData>,
    pub error: Option<String>,
}

/// What an `IpcResponse` holds.
pub struct ResponseView {
    pub success: bool,
    pub data: Option<DataView>,
    pub error: Option<Seq<char>>,
}

impl ResponseView {
    /// The answer that all went well, with nothing to report.
    pub open spec fn done() -> ResponseView {
        ResponseView { success: true, data: None, error: None }
    }

    /// The answer that all went well, with data.
    pub open spec fn carrying(data: DataView) -> ResponseView {
        ResponseView { success: true, data: Some(data), error: None }
    }

    /// The answer that the command failed, with the reason.
    pub open spec fn failed(message: Seq<char>) -> ResponseView {
        ResponseView { success: false, data: None, error: Some(message) }
    }
}

impl View for IpcResponse {
    type V = ResponseView;

    open spec fn view(&self) -> ResponseView {
        ResponseView {
            success: self.success,
            data: match self.data {
                Some(d) => Some(d@),
                None => None,
            },
            error: opt_text(self.error),
        }
    }
}

impl IpcResponse {
    /// The answer that all went well, with nothing to report.
    pub fn success() -> (r: IpcResponse)
        ensures
            r@ == ResponseView::done(),
    {
        IpcResponse { success: true, data: None, error: None }
    }

    /// The answer that all went well, with data.
    pub fn with_data(data: ResponseData) -> (r: IpcResponse)
        ensures
            r@ == ResponseView::carrying(data@),
    {
        IpcResponse { success: true, data: Some(data), error: None }
    }

    /// The answer that the command failed, with the reason.
    pub fn error(msg: String) -> (r: IpcResponse)
        ensures
            r@ == ResponseView::failed(msg@),
    {
        IpcResponse { success: false, data: None, error: Some(msg) }
    }
}

/// What a command makes of the engine, what it asks of the world, and
/// the answer to it.
pub open spec fn handled(s: EngineView, command: IpcCommandView) -> (EngineView, Seq<Effect>, ResponseView) {
    match command {
        IpcCommandView::Dismiss { id } => (
            close(s, id, CloseReason::Dismissed).0,
            close(s, id, CloseReason::Dismissed).1,
            ResponseView::done(),
        ),
        IpcCommandView::DismissAll => (dismiss_all(s).0, dismiss_all(s).1, ResponseView::done()),
        IpcCommandView::ToggleDnd => (
            EngineView { dnd: DndState::with(!s.dnd.enabled(), true), ..s },
            Seq::empty(),
            ResponseView::carrying(DataView::Flag(!s.dnd.enabled())),
        ),
        IpcCommandView::EnableDnd => (
            EngineView { dnd: DndState::with(true, true), ..s },
            Seq::empty(),
            ResponseView::done(),
        ),
        IpcCommandView::DisableDnd => (
            EngineView { dnd: DndState::with(false, true), ..s },
            Seq::empty(),
            ResponseView::done(),
        ),
        IpcCommandView::GetDndStatus => (
            s,
            Seq::empty(),
            ResponseView::carrying(DataView::Flag(s.dnd.enabled())),
        ),
        IpcCommandView::ShowHistory => (s, seq![Effect::ShowCenter], ResponseView::done()),
        IpcCommandView::HideHistory => (s, seq![Effect::HideCenter], ResponseView::done()),
        IpcCommandView::GetCount => (
            s,
            Seq::empty(),
            ResponseView::carrying(DataView::Count(s.order.len() as usize)),
        ),
        IpcCommandView::ReloadConfig => (s, Seq::empty(), ResponseView::done()),
        IpcCommandView::GetNotifications => (
            s,
            Seq::empty(),
            ResponseView::carrying(
                DataView::Notifications(visible(s).map_values(|n: NotificationView| summary_of(n))),
            ),
        ),
        IpcCommandView::InvokeAction { id, action } => (
            invoke(s, id, action).0,
            invoke(s, id, action).1,
            ResponseView::done(),
        ),
    }
}

/// Handles the commands of the control protocol.
pub struct IpcHandler;

impl IpcHandler {
    /// The lines that stand for a list of notifications.
    pub fn summaries(notifications: &Vec<Notification>) -> (r: Vec<NotificationSummary>)
        ensures
            r@.map_values(|s: NotificationSummary| s@) == notifications@.map_values(
                |n: Notification| n@,
            ).map_values(|n: NotificationView| summary_of(n)),
    {
        let mut out: Vec<NotificationSummary> = Vec::new();
        let mut i: usize = 0;
        while i < notifications.len()
            invariant
                0 <= i <= notifications.len(),
                out.len() == i,
                forall|j: int| 0 <= j < i ==> out@[j]@ == summary_of(notifications@[j]@),
            decreases notifications.len() - i,
        {
            let n = &notifications[i];
            out.push(
                NotificationSummary {
                    id: n.id,
                    app: n.app_name.clone(),
                    summary: n.summary.clone(),
                    urgency: n.hints.urgency.to_string(),
                },
            );
            i += 1;
        }
        out
    }

    /// Carries out a command on the engine and returns the answer.
    ///
    /// `reload_config` changes nothing here: whoever holds the
    /// configuration file reads it and hands the result to
    /// `NotificationManager::reload_config`.
    pub fn handle(manager: &mut NotificationManager, command: IpcCommand) -> (r: IpcResponse)
        requires
            old(manager).wf(),
        ensures
            final(manager).wf(),
            final(manager)@ == handled(old(manager)@, command@).0,
            final(manager).pending() == old(manager).pending() + handled(old(manager)@, command@).1,
            r@ == handled(old(manager)@, command@).2,
    {
        match command {
            IpcCommand::Dismiss { id } => {
                manager.close_notification(id, CloseReason::Dismissed);
                IpcResponse::success()
            },
            IpcCommand::DismissAll => {
                manager.dismiss_all();
                IpcResponse::success()
            },
            IpcCommand::ToggleDnd => {
                let on = manager.toggle_dnd();
                IpcResponse::with_data(ResponseData::Flag(on))
            },
            IpcCommand::EnableDnd => {
                manager.enable_dnd();
                IpcResponse::success()
            },
            IpcCommand::DisableDnd => {
                manager.disable_dnd();
                IpcResponse::success()
            },
            IpcCommand::GetDndStatus => {
                IpcResponse::with_data(ResponseData::Flag(manager.dnd_enabled()))
            },
            IpcCommand::ShowHistory => {
                manager.show_center();
                IpcResponse::success()
            },
            IpcCommand::HideHistory => {
                manager.hide_center();
                IpcResponse::success()
            },
            IpcCommand::GetCount => { IpcResponse::with_data(ResponseData::Count(manager.count())) },
            IpcCommand::ReloadConfig => { IpcResponse::success() },
            IpcCommand::GetNotifications => {
                let shown = manager.get_visible_notifications();
                let lines = IpcHandler::summaries(&shown);
                IpcResponse::with_data(ResponseData::Notifications(lines))
            },
            IpcCommand::InvokeAction { id, action } => {
                manager.invoke_action(id, action.as_str());
                IpcResponse::success()
            },
        }
    }
}

} // verus!
