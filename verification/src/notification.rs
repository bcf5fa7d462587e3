//! The notification record and the hints that accompany it.

use vstd::prelude::*;
use crate::text::{
    clone_bytes, clone_opt_string, clone_string_pairs, opt_text, str_equal, text_pairs, texts,
};
use crate::urgency::Urgency;

verus! {

/// Latest instant, in milliseconds since the Unix epoch, that the library
/// accepts: any 32-bit timeout can be added to it within 64 bits.
pub const MAX_TIMESTAMP_MS: i64 = 0x0400_0000_0000_0000;

/// A raw pixel buffer that came with a notification.
#[derive(Debug)]
pub struct ImageData {
    pub width: i32,
    pub height: i32,
    pub rowstride: i32,
    pub has_alpha: bool,
    pub bits_per_sample: i32,
    pub channels: i32,
    pub data: Vec<u8>,
}

/// What an `ImageData` holds.
pub struct ImageDataView {
    pub width: i32,
    pub height: i32,
    pub rowstride: i32,
    pub has_alpha: bool,
    pub bits_per_sample: i32,
    pub channels: i32,
    pub data: Seq<u8>,
}

impl View for ImageData {
    type V = ImageDataView;

    open spec fn view(&self) -> ImageDataView {
        ImageDataView {
            width: self.width,
            height: self.height,
            rowstride: self.rowstride,
            has_alpha: self.has_alpha,
            bits_per_sample: self.bits_per_sample,
            channels: self.channels,
            data: self.data@,
        }
    }
}

impl Clone for ImageData {
    fn clone(&self) -> (r: ImageData)
        ensures
            r@ == self@,
    {
        ImageData {
            width: self.width,
            height: self.height,
            rowstride: self.rowstride,
            has_alpha: self.has_alpha,
            bits_per_sample: self.bits_per_sample,
            channels: self.channels,
            data: clone_bytes(&self.data),
        }
    }
}

/// What an optional image holds.
pub open spec fn opt_image(o: Option<ImageData>) -> Option<ImageDataView> {
    match o {
        Some(d) => Some(d@),
        None => None,
    }
}

/// The structured overrides a client may attach to a notification.
#[derive(Debug)]
pub struct NotificationHints {
    pub urgency: Urgency,
    pub category: Option<String>,
    pub desktop_entry: Option<String>,
    pub image_data: Option<ImageData>,
    pub image_path: Option<String>,
    pub sound_file: Option<String>,
    pub sound_name: Option<String>,
    pub suppress_sound: bool,
    pub transient: bool,
    pub x: Option<i32>,
    pub y: Option<i32>,
    pub action_icons: bool,
    pub value: Option<i32>,
    pub resident: bool,
    pub inline_reply: bool,
}

/// What a `NotificationHints` holds.
pub struct HintsView {
    pub urgency: Urgency,
    pub category: Option<Seq<char>>,
    pub desktop_entry: Option<Seq<char>>,
    pub image_data: Option<ImageDataView>,
    pub image_path: Option<Seq<char>>,
    pub sound_file: Option<Seq<char>>,
    pub sound_name: Option<Seq<char>>,
    pub suppress_sound: bool,
    pub transient: bool,
    pub x: Option<i32>,
    pub y: Option<i32>,
    pub action_icons: bool,
    pub value: Option<i32>,
    pub resident: bool,
    pub inline_reply: bool,
}

impl HintsView {
    /// The hints of a notification that attached none.
    pub open spec fn empty() -> HintsView {
        HintsView {
            urgency: Urgency::Normal,
            category: None,
            desktop_entry: None,
            image_data: None,
            image_path: None,
            sound_file: None,
            sound_name: None,
            suppress_sound: false,
            transient: false,
            x: None,
            y: None,
            action_icons: false,
            value: None,
            resident: false,
            inline_reply: false,
        }
    }
}

impl View for NotificationHints {
    type V = HintsView;

    open spec fn view(&self) -> HintsView {
        HintsView {
            urgency: self.urgency,
            category: opt_text(self.category),
            desktop_entry: opt_text(self.desktop_entry),
            image_data: opt_image(self.image_data),
            image_path: opt_text(self.image_path),
            sound_file: opt_text(self.sound_file),
            sound_name: opt_text(self.sound_name),
            suppress_sound: self.suppress_sound,
            transient: self.transient,
            x: self.x,
            y: self.y,
            action_icons: self.action_icons,
            value: self.value,
            resident: self.resident,
            inline_reply: self.inline_reply,
        }
    }
}

impl Default for NotificationHints {
    fn default() -> (r: NotificationHints)
        ensures
            r@ == HintsView::empty(),
    {
        NotificationHints {
            urgency: Urgency::Normal,
            category: None,
            desktop_entry: None,
            image_data: None,
            image_path: None,
            sound_file: None,
            sound_name: None,
            suppress_sound: false,
            transient: false,
            x: None,
            y: None,
            action_icons: false,
            value: None,
            resident: false,
            inline_reply: false,
        }
    }
}

impl Clone for NotificationHints {
    fn clone(&self) -> (r: NotificationHints)
        ensures
            r@ == self@,
    {
        let image_data = match &self.image_data {
            Some(d) => Some(d.clone()),
            None => None,
        };
        NotificationHints {
            urgency: self.urgency,
            category: clone_opt_string(&self.category),
            desktop_entry: clone_opt_string(&self.desktop_entry),
            image_data,
            image_path: clone_opt_string(&self.image_path),
            sound_file: clone_opt_string(&self.sound_file),
            sound_name: clone_opt_string(&self.sound_name),
            suppress_sound: self.suppress_sound,
            transient: self.transient,
            x: self.x,
            y: self.y,
            action_icons: self.action_icons,
            value: self.value,
            resident: self.resident,
            inline_reply: self.inline_reply,
        }
    }
}

/// A message that a client submitted, as the daemon tracks it.
#[derive(Debug)]
pub struct Notification {
    /// Identifier assigned by the daemon; 0 until it is assigned.
    pub id: u32,
    pub app_name: String,
    /// Identifier of the notification to replace; 0 asks for a new one.
    pub replaces_id: u32,
    pub app_icon: String,
    pub summary: String,
    pub body: String,
    /// Action buttons as `(key, label)` pairs.
    pub actions: Vec<(String, String)>,
    pub hints: NotificationHints,
    /// Milliseconds; -1 asks for the server default, 0 never expires.
    pub expire_timeout: i32,
    /// When the notification expires, in milliseconds since the Unix epoch.
    pub expires_at: Option<i64>,
    /// When the notification was created, in milliseconds since the Unix epoch.
    pub created_at: i64,
    /// Whether the pointer is over the notification.
    pub is_hovered: bool,
}

/// What a `Notification` holds.
pub struct NotificationView {
    pub id: u32,
    pub app_name: Seq<char>,
    pub replaces_id: u32,
    pub app_icon: Seq<char>,
    pub summary: Seq<char>,
    pub body: Seq<char>,
    pub actions: Seq<(Seq<char>, Seq<char>)>,
    pub hints: HintsView,
    pub expire_timeout: i32,
    pub expires_at: Option<i64>,
    pub created_at: i64,
    pub is_hovered: bool,
}

impl View for Notification {
    type V = NotificationView;

    open spec fn view(&self) -> NotificationView {
        NotificationView {
            id: self.id,
            app_name: self.app_name@,
            replaces_id: self.replaces_id,
            app_icon: self.app_icon@,
            summary: self.summary@,
            body: self.body@,
            actions: text_pairs(self.actions@),
            hints: self.hints@,
            expire_timeout: self.expire_timeout,
            expires_at: self.expires_at,
            created_at: self.created_at,
            is_hovered: self.is_hovered,
        }
    }
}

impl Clone for Notification {
    fn clone(&self) -> (r: Notification)
        ensures
            r@ == self@,
    {
        Notification {
            id: self.id,
            app_name: self.app_name.clone(),
            replaces_id: self.replaces_id,
            app_icon: self.app_icon.clone(),
            summary: self.summary.clone(),
            body: self.body.clone(),
            actions: clone_string_pairs(&self.actions),
            hints: self.hints.clone(),
            expire_timeout: self.expire_timeout,
            expires_at: self.expires_at,
            created_at: self.created_at,
            is_hovered: self.is_hovered,
        }
    }
}

/// The `(key, label)` pairs of a flat alternating list. A last element
/// without a partner is left out.
pub open spec fn paired_actions(flat: Seq<Seq<char>>) -> Seq<(Seq<char>, Seq<char>)> {
    Seq::new((flat.len() / 2) as nat, |i: int| (flat[2 * i], flat[2 * i + 1]))
}

/// Whether a list of actions holds one with the given key.
pub open spec fn has_action_key(actions: Seq<(Seq<char>, Seq<char>)>, key: Seq<char>) -> bool {
    exists|i: int| 0 <= i < actions.len() && (#[trigger] actions[i]).0 == key
}

/// A progress value brought into the range that is displayed.
pub open spec fn clamped_progress(value: int) -> int {
    if value < 0 {
        0
    } else if value > 100 {
        100
    } else {
        value
    }
}

impl NotificationView {
    /// The notification that `Notification::at` builds from its arguments.
    pub open spec fn created(
        id: u32,
        app_name: Seq<char>,
        replaces_id: u32,
        app_icon: Seq<char>,
        summary: Seq<char>,
        body: Seq<char>,
        actions: Seq<Seq<char>>,
        hints: HintsView,
        expire_timeout: i32,
        created_at: i64,
    ) -> NotificationView {
        NotificationView {
            id,
            app_name,
            replaces_id,
            app_icon,
            summary,
            body,
            actions: paired_actions(actions),
            hints,
            expire_timeout,
            expires_at: None,
            created_at,
            is_hovered: false,
        }
    }
}

/// Reads the clock: `chrono::Utc::now().timestamp_millis()`.
///
/// `Utc::now` returns only when the system clock is at or after the Unix
/// epoch, and a `DateTime` counts its days in 32 bits, so the milliseconds
/// lie between 0 and `MAX_TIMESTAMP_MS`. Nothing else is claimed: two
/// readings may differ in either direction.
#[verifier::external_body]
pub(crate) fn current_time_millis() -> (now: i64)
    ensures
        0 <= now <= MAX_TIMESTAMP_MS,
{
    chrono::Utc::now().timestamp_millis()
}

/// Splits a flat alternating list into `(key, label)` pairs.
pub fn pair_actions(flat: &Vec<String>) -> (r: Vec<(String, String)>)
    ensures
        text_pairs(r@) == paired_actions(texts(flat@)),
{
    let mut out: Vec<(String, String)> = Vec::new();
    let n: usize = flat.len() / 2;
    let mut i: usize = 0;
    while i < n
        invariant
            n == flat.len() / 2,
            0 <= i <= n,
            out.len() == i,
            forall|j: int|
                0 <= j < i ==> out@[j].0@ == flat@[2 * j]@ && out@[j].1@ == flat@[2 * j + 1]@,
        decreases n - i,
    {
        out.push((flat[2 * i].clone(), flat[2 * i + 1].clone()));
        i += 1;
    }
    out
}

impl Notification {
    /// Builds a notification created now, read from the clock. Everything
    /// but `created_at` is as `Notification::at` states.
    pub fn new(
        id: u32,
        app_name: String,
        replaces_id: u32,
        app_icon: String,
        summary: String,
        body: String,
        actions: Vec<String>,
        hints: NotificationHints,
        expire_timeout: i32,
    ) -> (r: Notification)
        ensures
            0 <= r.created_at <= MAX_TIMESTAMP_MS,
            r@ == NotificationView::created(
                id,
                app_name@,
                replaces_id,
                app_icon@,
                summary@,
                body@,
                texts(actions@),
                hints@,
                expire_timeout,
                r.created_at,
            ),
    {
        let now = current_time_millis();
        Notification::at(
            id,
            app_name,
            replaces_id,
            app_icon,
            summary,
            body,
            actions,
            hints,
            expire_timeout,
            now,
        )
    }

    /// Builds a notification created at the given instant: the actions are
    /// paired, there is no expiry yet and the pointer is not over it.
    pub fn at(
        id: u32,
        app_name: String,
        replaces_id: u32,
        app_icon: String,
        summary: String,
        body: String,
        actions: Vec<String>,
        hints: NotificationHints,
        expire_timeout: i32,
        created_at: i64,
    ) -> (r: Notification)
        ensures
            r@ == NotificationView::created(
                id,
                app_name@,
                replaces_id,
                app_icon@,
                summary@,
                body@,
                texts(actions@),
                hints@,
                expire_timeout,
                created_at,
            ),
    {
        let pairs = pair_actions(&actions);
        Notification {
            id,
            app_name,
            replaces_id,
            app_icon,
            summary,
            body,
            actions: pairs,
            hints,
            expire_timeout,
            expires_at: None,
            created_at,
            is_hovered: false,
        }
    }

    /// Whether one of the actions has the given key.
    pub fn has_action(&self, key: &str) -> (r: bool)
        ensures
            r == has_action_key(self@.actions, key@),
    {
        let mut i: usize = 0;
        while i < self.actions.len()
            invariant
                0 <= i <= self.actions.len(),
                forall|j: int| 0 <= j < i ==> self.actions@[j].0@ != key@,
            decreases self.actions.len() - i,
        {
            if str_equal(self.actions[i].0.as_str(), key) {
                assert(text_pairs(self.actions@)[i as int].0 == key@);
                return true;
            }
            i += 1;
        }
        assert forall|j: int| 0 <= j < self@.actions.len() implies (#[trigger] self@.actions[j]).0
            != key@ by {
        }
        false
    }

    /// Whether the notification has the primary click action, `default`.
    pub fn has_default_action(&self) -> (r: bool)
        ensures
            r == has_action_key(self@.actions, "default"@),
    {
        self.has_action("default")
    }

    /// The progress to display, if this is a progress notification.
    pub fn progress(&self) -> (r: Option<u8>)
        ensures
            r is Some == self@.hints.value is Some,
            r matches Some(p) ==> p == clamped_progress(self@.hints.value->0 as int),
    {
        match self.hints.value {
            Some(v) => {
                if v < 0 {
                    Some(0)
                } else if v > 100 {
                    Some(100)
                } else {
                    Some(v as u8)
                }
            },
            None => None,
        }
    }

    /// Whether the notification goes into the history: it does unless it is transient.
    pub fn should_persist(&self) -> (r: bool)
        ensures
            r == !self@.hints.transient,
    {
        !self.hints.transient
    }

    /// Whether the notification stays open after one of its actions was invoked.
    pub fn is_resident(&self) -> (r: bool)
        ensures
            r == self@.hints.resident,
    {
        self.hints.resident
    }
}

} // verus!
