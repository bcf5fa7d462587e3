//! The session-bus face of the daemon: the values a client sends, the
//! hint dictionary, the close reasons and the server's self-description.

use vstd::prelude::*;
use vstd::std_specs::convert::FromSpecImpl;
use crate::manager::NotificationManager;
use crate::model::close;
use crate::notification::{
    current_time_millis, HintsView, ImageData, ImageDataView, Notification, NotificationHints,
    NotificationView, MAX_TIMESTAMP_MS,
};
use crate::text::{str_equal, texts};
use crate::urgency::Urgency;

verus! {

/// Why a notification was closed, as the bus reports it.
#[derive(Debug, Clone, Copy, PartialEq, Eq, Structural)]
pub enum CloseReason {
    /// Its time ran out.
    Expired,
    /// A person dismissed it.
    Dismissed,
    /// A client asked for it to be closed.
    CloseCall,
    /// None of the above.
    Undefined,
}

impl CloseReason {
    /// The number that stands for the reason on the bus.
    pub open spec fn number(self) -> int {
        match self {
            CloseReason::Expired => 1,
            CloseReason::Dismissed => 2,
            CloseReason::CloseCall => 3,
            CloseReason::Undefined => 4,
        }
    }

    /// The number that stands for the reason on the bus.
    pub fn code(self) -> (r: u32)
        ensures
            r == self.number(),
    {
        match self {
            CloseReason::Expired => 1,
            CloseReason::Dismissed => 2,
            CloseReason::CloseCall => 3,
            CloseReason::Undefined => 4,
        }
    }
}

impl From<CloseReason> for u32 {
    fn from(reason: CloseReason) -> (r: u32) {
        reason.code()
    }
}

impl FromSpecImpl<CloseReason> for u32 {
    open spec fn obeys_from_spec() -> bool {
        true
    }

    open spec fn from_spec(reason: CloseReason) -> u32 {
        reason.number() as u32
    }
}

/// What the server says of itself.
#[derive(Debug, Clone, Copy)]
pub struct ServerInfo {
    pub name: &'static str,
    pub vendor: &'static str,
    pub version: &'static str,
    pub spec_version: &'static str,
}

impl Default for ServerInfo {
    fn default() -> (r: ServerInfo)
        ensures
            r.name@ == "swaynoti"@,
            r.vendor@ == "swaynoti"@,
            r.version@ == "0.1.0"@,
            r.spec_version@ == "1.2"@,
    {
        ServerInfo { name: "swaynoti", vendor: "swaynoti", version: "0.1.0", spec_version: "1.2" }
    }
}

/// The capabilities that the server advertises, in their order.
pub open spec fn advertised() -> Seq<Seq<char>> {
    seq![
        "actions"@,
        "action-icons"@,
        "body"@,
        "body-hyperlinks"@,
        "body-markup"@,
        "icon-static"@,
        "persistence"@,
    ]
}

/// A value of the hint dictionary, by the type it has on the wire. Types
/// that no hint uses are `Other`.
#[derive(Debug)]
pub enum HintValue {
    U8(u8),
    Bool(bool),
    I32(i32),
    Str(String),
    Structure(Vec<HintValue>),
    Array(Vec<HintValue>),
    Other,
}

impl HintValue {
    /// The byte that the value is, if it is one.
    pub open spec fn byte(self) -> Option<u8> {
        match self {
            HintValue::U8(b) => Some(b),
            _ => None,
        }
    }

    /// The boolean that the value is, if it is one.
    pub open spec fn boolean(self) -> Option<bool> {
        match self {
            HintValue::Bool(b) => Some(b),
            _ => None,
        }
    }

    /// The 32-bit integer that the value is, if it is one.
    pub open spec fn int32(self) -> Option<i32> {
        match self {
            HintValue::I32(i) => Some(i),
            _ => None,
        }
    }

    /// The characters of the string that the value is, if it is one.
    pub open spec fn text(self) -> Option<Seq<char>> {
        match self {
            HintValue::Str(s) => Some(s@),
            _ => None,
        }
    }

    /// The image that the value is, if it is a structure of at least seven
    /// members: three integers, a boolean, two integers and an array. The
    /// pixels are the bytes of the array; members of it that are no bytes
    /// are left out.
    pub open spec fn image(self) -> Option<ImageDataView> {
        match self {
            HintValue::Structure(fields) => {
                if fields@.len() >= 7 && fields@[0].int32() is Some && fields@[1].int32() is Some
                    && fields@[2].int32() is Some && fields@[3].boolean() is Some
                    && fields@[4].int32() is Some && fields@[5].int32() is Some
                    && fields@[6] is Array {
                    Some(
                        ImageDataView {
                            width: fields@[0].int32()->0,
                            height: fields@[1].int32()->0,
                            rowstride: fields@[2].int32()->0,
                            has_alpha: fields@[3].boolean()->0,
                            bits_per_sample: fields@[4].int32()->0,
                            channels: fields@[5].int32()->0,
                            data: bytes_among(fields@[6]->Array_0@),
                        },
                    )
                } else {
                    None
                }
            },
            _ => None,
        }
    }
}

/// The bytes among a list of values, in their order.
pub open spec fn bytes_among(items: Seq<HintValue>) -> Seq<u8>
    decreases items.len(),
{
    if items.len() == 0 {
        Seq::empty()
    } else {
        match items.last() {
            HintValue::U8(b) => bytes_among(items.drop_last()).push(b),
            _ => bytes_among(items.drop_last()),
        }
    }
}

/// The hints after one more entry of the dictionary was read. A key that
/// is not known, or whose value has another type than the key asks for,
/// changes nothing.
pub open spec fn with_hint(h: HintsView, key: Seq<char>, value: HintValue) -> HintsView {
    if key == "urgency"@ {
        match value.byte() {
            Some(b) => HintsView { urgency: Urgency::from_level(b as int), ..h },
            None => h,
        }
    } else if key == "category"@ {
        match value.text() {
            Some(s) => HintsView { category: Some(s), ..h },
            None => h,
        }
    } else if key == "desktop-entry"@ {
        match value.text() {
            Some(s) => HintsView { desktop_entry: Some(s), ..h },
            None => h,
        }
    } else if key == "image-data"@ || key == "image_data"@ || key == "icon_data"@ {
        match value.image() {
            Some(d) => HintsView { image_data: Some(d), ..h },
            None => h,
        }
    } else if key == "image-path"@ || key == "image_path"@ {
        match value.text() {
            Some(s) => HintsView { image_path: Some(s), ..h },
            None => h,
        }
    } else if key == "sound-file"@ {
        match value.text() {
            Some(s) => HintsView { sound_file: Some(s), ..h },
            None => h,
        }
    } else if key == "sound-name"@ {
        match value.text() {
            Some(s) => HintsView { sound_name: Some(s), ..h },
            None => h,
        }
    } else if key == "suppress-sound"@ {
        match value.boolean() {
            Some(b) => HintsView { suppress_sound: b, ..h },
            None => h,
        }
    } else if key == "transient"@ {
        match value.boolean() {
            Some(b) => HintsView { transient: b, ..h },
            None => h,
        }
    } else if key == "x"@ {
        match value.int32() {
            Some(i) => HintsView { x: Some(i), ..h },
            None => h,
        }
    } else if key == "y"@ {
        match value.int32() {
            Some(i) => HintsView { y: Some(i), ..h },
            None => h,
        }
    } else if key == "action-icons"@ {
        match value.boolean() {
            Some(b) => HintsView { action_icons: b, ..h },
            None => h,
        }
    } else if key == "value"@ {
        match value.int32() {
            Some(i) => HintsView { value: Some(i), ..h },
            None => h,
        }
    } else if key == "resident"@ {
        match value.boolean() {
            Some(b) => HintsView { resident: b, ..h },
            None => h,
        }
    } else if key == "inline-reply"@ {
        match value.boolean() {
            Some(b) => HintsView { inline_reply: b, ..h },
            None => h,
        }
    } else {
        h
    }
}

/// The hints that a dictionary gives, its entries read in order: where two
/// entries set the same hint, the later one stands.
pub open spec fn hints_of(entries: Seq<(String, HintValue)>) -> HintsView
    decreases entries.len(),
{
    if entries.len() == 0 {
        HintsView::empty()
    } else {
        with_hint(hints_of(entries.drop_last()), entries.last().0@, entries.last().1)
    }
}

/// The bytes among the values of an array.
fn collect_bytes(items: &Vec<HintValue>) -> (r: Vec<u8>)
    ensures
        r@ == bytes_among(items@),
{
    let mut out: Vec<u8> = Vec::new();
    let mut i: usize = 0;
    while i < items.len()
        invariant
            0 <= i <= items.len(),
            out@ == bytes_among(items@.take(i as int)),
        decreases items.len() - i,
    {
        assert(items@.take(i + 1).drop_last() =~= items@.take(i as int));
        match &items[i] {
            HintValue::U8(b) => {
                out.push(*b);
            },
            _ => {},
        }
        i += 1;
    }
    assert(items@.take(items.len() as int) =~= items@);
    out
}

/// The server side of the bus interface.
pub struct NotificationServer;

impl NotificationServer {
    /// Reads an image from a hint value.
    pub fn parse_image_data(value: &HintValue) -> (r: Option<ImageData>)
        ensures
            crate::notification::opt_image(r) == value.image(),
    {
        match value {
            HintValue::Structure(fields) => {
                if fields.len() < 7 {
                    return None;
                }
                let width = match &fields[0] {
                    HintValue::I32(i) => *i,
                    _ => { return None; },
                };
                let height = match &fields[1] {
                    HintValue::I32(i) => *i,
                    _ => { return None; },
                };
                let rowstride = match &fields[2] {
                    HintValue::I32(i) => *i,
                    _ => { return None; },
                };
                let has_alpha = match &fields[3] {
                    HintValue::Bool(b) => *b,
                    _ => { return None; },
                };
                let bits_per_sample = match &fields[4] {
                    HintValue::I32(i) => *i,
                    _ => { return None; },
                };
                let channels = match &fields[5] {
                    HintValue::I32(i) => *i,
                    _ => { return None; },
                };
                match &fields[6] {
                    HintValue::Array(items) => {
                        let data = collect_bytes(items);
                        Some(
                            ImageData {
                                width,
                                height,
                                rowstride,
                                has_alpha,
                                bits_per_sample,
                                channels,
                                data,
                            },
                        )
                    },
                    _ => None,
                }
            },
            _ => None,
        }
    }

    /// Reads the hints from the entries of a hint dictionary.
    pub fn parse_hints(hints: &Vec<(String, HintValue)>) -> (r: NotificationHints)
        ensures
            r@ == hints_of(hints@),
    {
        let mut result = NotificationHints::default();
        let mut i: usize = 0;
        while i < hints.len()
            invariant
                0 <= i <= hints.len(),
                result@ == hints_of(hints@.take(i as int)),
            decreases hints.len() - i,
        {
            assert(hints@.take(i + 1).drop_last() =~= hints@.take(i as int));
            let key = hints[i].0.as_str();
            let value = &hints[i].1;
            if str_equal(key, "urgency") {
                match value {
                    HintValue::U8(b) => {
                        result.urgency = Urgency::from(*b);
                    },
                    _ => {},
                }
            } else if str_equal(key, "category") {
                match value {
                    HintValue::Str(s) => {
                        result.category = Some(s.clone());
                    },
                    _ => {},
                }
            } else if str_equal(key, "desktop-entry") {
                match value {
                    HintValue::Str(s) => {
                        result.desktop_entry = Some(s.clone());
                    },
                    _ => {},
                }
            } else if str_equal(key, "image-data") || str_equal(key, "image_data") || str_equal(
                key,
                "icon_data",
            ) {
                match NotificationServer::parse_image_data(value) {
                    Some(d) => {
                        result.image_data = Some(d);
                    },
                    None => {},
                }
            } else if str_equal(key, "image-path") || str_equal(key, "image_path") {
                match value {
                    HintValue::Str(s) => {
                        result.image_path = Some(s.clone());
                    },
                    _ => {},
                }
            } else if str_equal(key, "sound-file") {
                match value {
                    HintValue::Str(s) => {
                        result.sound_file = Some(s.clone());
                    },
                    _ => {},
                }
            } else if str_equal(key, "sound-name") {
                match value {
                    HintValue::Str(s) => {
                        result.sound_name = Some(s.clone());
                    },
                    _ => {},
                }
            } else if str_equal(key, "suppress-sound") {
                match value {
                    HintValue::Bool(b) => {
                        result.suppress_sound = *b;
                    },
                    _ => {},
                }
            } else if str_equal(key, "transient") {
                match value {
                    HintValue::Bool(b) => {
                        result.transient = *b;
                    },
                    _ => {},
                }
            } else if str_equal(key, "x") {
                match value {
                    HintValue::I32(v) => {
                        result.x = Some(*v);
                    },
                    _ => {},
                }
            } else if str_equal(key, "y") {
                match value {
                    HintValue::I32(v) => {
                        result.y = Some(*v);
                    },
                    _ => {},
                }
            } else if str_equal(key, "action-icons") {
                match value {
                    HintValue::Bool(b) => {
                        result.action_icons = *b;
                    },
                    _ => {},
                }
            } else if str_equal(key, "value") {
                match value {
                    HintValue::I32(v) => {
                        result.value = Some(*v);
                    },
                    _ => {},
                }
            } else if str_equal(key, "resident") {
                match value {
                    HintValue::Bool(b) => {
                        result.resident = *b;
                    },
                    _ => {},
                }
            } else if str_equal(key, "inline-reply") {
                match value {
                    HintValue::Bool(b) => {
                        result.inline_reply = *b;
                    },
                    _ => {},
                }
            }
            i += 1;
        }
        assert(hints@.take(hints.len() as int) =~= hints@);
        result
    }

    /// The capabilities that the server advertises.
    pub fn get_capabilities() -> (r: Vec<String>)
        ensures
            texts(r@) == advertised(),
    {
        let mut out: Vec<String> = Vec::new();
        out.push("actions".to_string());
        out.push("action-icons".to_string());
        out.push("body".to_string());
        out.push("body-hyperlinks".to_string());
        out.push("body-markup".to_string());
        out.push("icon-static".to_string());
        out.push("persistence".to_string());
        out
    }

    /// The name, vendor and version of the server, and the version of
    /// the notification specification that it speaks.
    pub fn get_server_information() -> (r: (String, String, String, String))
        ensures
            r.0@ == "swaynoti"@,
            r.1@ == "swaynoti"@,
            r.2@ == "0.1.0"@,
            r.3@ == "1.2"@,
    {
        let info = ServerInfo::default();
        (
            info.name.to_string(),
            info.vendor.to_string(),
            info.version.to_string(),
            info.spec_version.to_string(),
        )
    }

    /// The notification that a `Notify` call at the instant `now` hands
    /// to the engine: its hints read from the dictionary, its actions
    /// paired, no identifier yet.
    pub open spec fn notified(
        app_name: Seq<char>,
        replaces_id: u32,
        app_icon: Seq<char>,
        summary: Seq<char>,
        body: Seq<char>,
        actions: Seq<Seq<char>>,
        hints: Seq<(String, HintValue)>,
        expire_timeout: i32,
        now: i64,
    ) -> NotificationView {
        NotificationView::created(
            0,
            app_name,
            replaces_id,
            app_icon,
            summary,
            body,
            actions,
            hints_of(hints),
            expire_timeout,
            now,
        )
    }

    /// Serves a `Notify` call that arrived at the instant `now`: builds
    /// the notification, submits it and returns its identifier.
    pub fn notify_at(
        manager: &mut NotificationManager,
        app_name: &str,
        replaces_id: u32,
        app_icon: &str,
        summary: &str,
        body: &str,
        actions: Vec<String>,
        hints: &Vec<(String, HintValue)>,
        expire_timeout: i32,
        now: i64,
    ) -> (id: u32)
        requires
            old(manager).wf(),
            now <= MAX_TIMESTAMP_MS,
        ensures
            final(manager).wf(),
            NotificationManager::submitted(
                old(manager)@,
                old(manager).pending(),
                NotificationServer::notified(
                    app_name@,
                    replaces_id,
                    app_icon@,
                    summary@,
                    body@,
                    texts(actions@),
                    hints@,
                    expire_timeout,
                    now,
                ),
                now,
                final(manager)@,
                final(manager).pending(),
                id,
            ),
    {
        let parsed = NotificationServer::parse_hints(hints);
        let notification = Notification::at(
            0,
            app_name.to_string(),
            replaces_id,
            app_icon.to_string(),
            summary.to_string(),
            body.to_string(),
            actions,
            parsed,
            expire_timeout,
            now,
        );
        manager.submit(notification, now)
    }

    /// Serves a `Notify` call now, by the clock. What happens is what
    /// `notify_at` states, at an instant that the clock gave.
    pub fn notify(
        manager: &mut NotificationManager,
        app_name: &str,
        replaces_id: u32,
        app_icon: &str,
        summary: &str,
        body: &str,
        actions: Vec<String>,
        hints: &Vec<(String, HintValue)>,
        expire_timeout: i32,
    ) -> (id: u32)
        requires
            old(manager).wf(),
        ensures
            final(manager).wf(),
            exists|now: i64|
                0 <= now <= MAX_TIMESTAMP_MS && #[trigger] NotificationManager::submitted(
                    old(manager)@,
                    old(manager).pending(),
                    NotificationServer::notified(
                        app_name@,
                        replaces_id,
                        app_icon@,
                        summary@,
                        body@,
                        texts(actions@),
                        hints@,
                        expire_timeout,
                        now,
                    ),
                    now,
                    final(manager)@,
                    final(manager).pending(),
                    id,
                ),
    {
        let now = current_time_millis();
        NotificationServer::notify_at(
            manager,
            app_name,
            replaces_id,
            app_icon,
            summary,
            body,
            actions,
            hints,
            expire_timeout,
            now,
        )
    }

    /// Serves a `CloseNotification` call: the notification is closed,
    /// for the reason that a client asked for it.
    pub fn close_notification(manager: &mut NotificationManager, id: u32)
        requires
            old(manager).wf(),
        ensures
            final(manager).wf(),
            final(manager)@ == close(old(manager)@, id, CloseReason::CloseCall).0,
            final(manager).pending() == old(manager).pending() + close(
                old(manager)@,
                id,
                CloseReason::CloseCall,
            ).1,
    {
        manager.close_notification(id, CloseReason::CloseCall);
    }
}

} // verus!
