//! The bounded history of notifications: newest first, at most
//! `max_entries` records.

use vstd::prelude::*;
use crate::notification::{current_time_millis, Notification, NotificationView, MAX_TIMESTAMP_MS};
use crate::text::{clone_opt_string, clone_strings, opt_text, texts};

verus! {

/// A record of the history.
#[derive(Debug)]
pub struct HistoryEntry {
    /// The identifier of the notification that the record is of.
    pub id: u32,
    pub app_name: String,
    pub summary: String,
    pub body: String,
    pub icon: Option<String>,
    /// The urgency by its lower-case name.
    pub urgency: String,
    /// When the record was made, in milliseconds since the Unix epoch.
    pub timestamp: i64,
    /// The keys of the notification's actions.
    pub actions: Vec<String>,
    pub dismissed: bool,
    pub expired: bool,
}

/// What a `HistoryEntry` holds.
pub struct HistoryEntryView {
    pub id: u32,
    pub app_name: Seq<char>,
    pub summary: Seq<char>,
    pub body: Seq<char>,
    pub icon: Option<Seq<char>>,
    pub urgency: Seq<char>,
    pub timestamp: i64,
    pub actions: Seq<Seq<char>>,
    pub dismissed: bool,
    pub expired: bool,
}

impl View for HistoryEntry {
    type V = HistoryEntryView;

    open spec fn view(&self) -> HistoryEntryView {
        HistoryEntryView {
            id: self.id,
            app_name: self.app_name@,
            summary: self.summary@,
            body: self.body@,
            icon: opt_text(self.icon),
            urgency: self.urgency@,
            timestamp: self.timestamp,
            actions: texts(self.actions@),
            dismissed: self.dismissed,
            expired: self.expired,
        }
    }
}

impl Clone for HistoryEntry {
    fn clone(&self) -> (r: HistoryEntry)
        ensures
            r@ == self@,
    {
        HistoryEntry {
            id: self.id,
            app_name: self.app_name.clone(),
            summary: self.summary.clone(),
            body: self.body.clone(),
            icon: clone_opt_string(&self.icon),
            urgency: self.urgency.clone(),
            timestamp: self.timestamp,
            actions: clone_strings(&self.actions),
            dismissed: self.dismissed,
            expired: self.expired,
        }
    }
}

impl HistoryEntryView {
    /// The record that `HistoryEntry::at` builds: neither dismissed nor
    /// expired.
    pub open spec fn fresh(
        id: u32,
        app_name: Seq<char>,
        summary: Seq<char>,
        body: Seq<char>,
        icon: Option<Seq<char>>,
        urgency: Seq<char>,
        actions: Seq<Seq<char>>,
        timestamp: i64,
    ) -> HistoryEntryView {
        HistoryEntryView {
            id,
            app_name,
            summary,
            body,
            icon,
            urgency,
            timestamp,
            actions,
            dismissed: false,
            expired: false,
        }
    }

    /// The record of a notification under the given identifier: its
    /// texts, its icon unless that is empty, its urgency by name and the
    /// keys of its actions.
    pub open spec fn of(n: NotificationView, id: u32, timestamp: i64) -> HistoryEntryView {
        HistoryEntryView::fresh(
            id,
            n.app_name,
            n.summary,
            n.body,
            if n.app_icon.len() == 0 {
                None
            } else {
                Some(n.app_icon)
            },
            n.hints.urgency.name(),
            n.actions.map_values(|a: (Seq<char>, Seq<char>)| a.0),
            timestamp,
        )
    }
}

impl HistoryEntry {
    /// A record made now, read from the clock. Everything but the
    /// timestamp is as `HistoryEntry::at` states.
    pub fn new(
        id: u32,
        app_name: String,
        summary: String,
        body: String,
        icon: Option<String>,
        urgency: String,
        actions: Vec<String>,
    ) -> (r: HistoryEntry)
        ensures
            0 <= r.timestamp <= MAX_TIMESTAMP_MS,
            r@ == HistoryEntryView::fresh(
                id,
                app_name@,
                summary@,
                body@,
                opt_text(icon),
                urgency@,
                texts(actions@),
                r.timestamp,
            ),
    {
        let now = current_time_millis();
        HistoryEntry::at(id, app_name, summary, body, icon, urgency, actions, now)
    }

    /// A record made at the given instant.
    pub fn at(
        id: u32,
        app_name: String,
        summary: String,
        body: String,
        icon: Option<String>,
        urgency: String,
        actions: Vec<String>,
        timestamp: i64,
    ) -> (r: HistoryEntry)
        ensures
            r@ == HistoryEntryView::fresh(
                id,
                app_name@,
                summary@,
                body@,
                opt_text(icon),
                urgency@,
                texts(actions@),
                timestamp,
            ),
    {
        HistoryEntry {
            id,
            app_name,
            summary,
            body,
            icon,
            urgency,
            timestamp,
            actions,
            dismissed: false,
            expired: false,
        }
    }

    /// The record of a notification under the given identifier.
    pub fn of_notification(notification: &Notification, id: u32, timestamp: i64) -> (r: HistoryEntry)
        ensures
            r@ == HistoryEntryView::of(notification@, id, timestamp),
    {
        let mut keys: Vec<String> = Vec::new();
        let mut i: usize = 0;
        while i < notification.actions.len()
            invariant
                0 <= i <= notification.actions.len(),
                keys.len() == i,
                forall|j: int| 0 <= j < i ==> keys@[j]@ == notification.actions@[j].0@,
            decreases notification.actions.len() - i,
        {
            keys.push(notification.actions[i].0.clone());
            i += 1;
        }
        assert(texts(keys@) =~= notification@.actions.map_values(
            |a: (Seq<char>, Seq<char>)| a.0,
        ));
        let icon = if notification.app_icon.as_str().is_empty() {
            None
        } else {
            Some(notification.app_icon.clone())
        };
        HistoryEntry::at(
            id,
            notification.app_name.clone(),
            notification.summary.clone(),
            notification.body.clone(),
            icon,
            notification.hints.urgency.to_string(),
            keys,
            timestamp,
        )
    }
}

/// What each record of a list holds.
pub open spec fn entry_views(rows: Seq<HistoryEntry>) -> Seq<HistoryEntryView> {
    rows.map_values(|e: HistoryEntry| e@)
}

/// Whether the records are in order, newest first.
pub open spec fn newest_first(rows: Seq<HistoryEntryView>) -> bool {
    forall|i: int, j: int| 0 <= i <= j < rows.len() ==> rows[i].timestamp >= rows[j].timestamp
}

/// The position, at or after `start`, of the first record that is not
/// newer than the instant `t`; the length where every record is newer.
pub open spec fn first_not_newer(rows: Seq<HistoryEntryView>, t: i64, start: int) -> int
    decreases rows.len() - start,
{
    if start < 0 || start >= rows.len() {
        rows.len() as int
    } else if rows[start].timestamp > t {
        first_not_newer(rows, t, start + 1)
    } else {
        start
    }
}

/// The records after one more was added: it stands before the records
/// that are not newer than it, and of the result only the `max` newest
/// stay.
pub open spec fn added(rows: Seq<HistoryEntryView>, e: HistoryEntryView, max: int) -> Seq<HistoryEntryView> {
    let all = rows.insert(first_not_newer(rows, e.timestamp, 0), e);
    if all.len() <= max {
        all
    } else {
        all.take(max)
    }
}

/// The position, at or after `start`, of the newest record of the
/// notification with the given identifier.
pub open spec fn first_with_id(rows: Seq<HistoryEntryView>, id: u32, start: int) -> Option<int>
    decreases rows.len() - start,
{
    if start < 0 || start >= rows.len() {
        None
    } else if rows[start].id == id {
        Some(start)
    } else {
        first_with_id(rows, id, start + 1)
    }
}

/// The records after the newest one of the given notification was marked
/// as dismissed.
pub open spec fn marked_dismissed(rows: Seq<HistoryEntryView>, id: u32) -> Seq<HistoryEntryView> {
    match first_with_id(rows, id, 0) {
        Some(i) => rows.update(i, HistoryEntryView { dismissed: true, ..rows[i] }),
        None => rows,
    }
}

/// The records after the newest one of the given notification was marked
/// as expired.
pub open spec fn marked_expired(rows: Seq<HistoryEntryView>, id: u32) -> Seq<HistoryEntryView> {
    match first_with_id(rows, id, 0) {
        Some(i) => rows.update(i, HistoryEntryView { expired: true, ..rows[i] }),
        None => rows,
    }
}

/// The records that are not of the given notification, in their order.
pub open spec fn without_id(rows: Seq<HistoryEntryView>, id: u32) -> Seq<HistoryEntryView>
    decreases rows.len(),
{
    if rows.len() == 0 {
        Seq::empty()
    } else if rows.last().id == id {
        without_id(rows.drop_last(), id)
    } else {
        without_id(rows.drop_last(), id).push(rows.last())
    }
}

/// The records of the given application, in their order.
pub open spec fn of_app(rows: Seq<HistoryEntryView>, app_name: Seq<char>) -> Seq<HistoryEntryView>
    decreases rows.len(),
{
    if rows.len() == 0 {
        Seq::empty()
    } else if rows.last().app_name == app_name {
        of_app(rows.drop_last(), app_name).push(rows.last())
    } else {
        of_app(rows.drop_last(), app_name)
    }
}

/// A group of records of one application: its name and the records.
pub type GroupView = (Seq<char>, Seq<HistoryEntryView>);

/// The position of the group of the given application, at or after `start`.
pub open spec fn group_index(groups: Seq<GroupView>, app_name: Seq<char>, start: int) -> Option<int>
    decreases groups.len() - start,
{
    if start < 0 || start >= groups.len() {
        None
    } else if groups[start].0 == app_name {
        Some(start)
    } else {
        group_index(groups, app_name, start + 1)
    }
}

/// The groups after one more record was sorted in: it joins the group of
/// its application at the end, or starts a new last group.
pub open spec fn with_grouped(groups: Seq<GroupView>, e: HistoryEntryView) -> Seq<GroupView> {
    match group_index(groups, e.app_name, 0) {
        Some(i) => groups.update(i, (groups[i].0, groups[i].1.push(e))),
        None => groups.push((e.app_name, seq![e])),
    }
}

/// The records by application. The groups stand in the order of their
/// first record, and each holds its records in their order.
pub open spec fn grouped(rows: Seq<HistoryEntryView>) -> Seq<GroupView>
    decreases rows.len(),
{
    if rows.len() == 0 {
        Seq::empty()
    } else {
        with_grouped(grouped(rows.drop_last()), rows.last())
    }
}

/// The first `limit` records, or all where there are fewer.
pub open spec fn first_rows(rows: Seq<HistoryEntryView>, limit: int) -> Seq<HistoryEntryView> {
    if limit <= 0 {
        Seq::empty()
    } else if limit >= rows.len() {
        rows
    } else {
        rows.take(limit)
    }
}

/// What each group of a list holds.
pub open spec fn group_views(groups: Seq<(String, Vec<HistoryEntry>)>) -> Seq<GroupView> {
    groups.map_values(|g: (String, Vec<HistoryEntry>)| (g.0@, entry_views(g.1@)))
}

/// Adding a record keeps the order and the bound.
pub proof fn lemma_added_bounded(rows: Seq<HistoryEntryView>, e: HistoryEntryView, max: int)
    requires
        newest_first(rows),
        0 <= max,
    ensures
        newest_first(added(rows, e, max)),
        added(rows, e, max).len() <= max,
        added(rows, e, max).len() <= rows.len() + 1,
{
    lemma_first_not_newer(rows, e.timestamp, 0);
    let p = first_not_newer(rows, e.timestamp, 0);
    let all = rows.insert(p, e);
    assert(newest_first(all)) by {
        assert forall|i: int, j: int| 0 <= i <= j < all.len() implies all[i].timestamp
            >= all[j].timestamp by {
            if i < p && j > p {
            } else if i == p && j > p {
            }
        }
    }
}

/// Where the first record that is not newer stands: every record before
/// it is newer, and it is not.
pub proof fn lemma_first_not_newer(rows: Seq<HistoryEntryView>, t: i64, start: int)
    requires
        0 <= start <= rows.len(),
    ensures
        start <= first_not_newer(rows, t, start) <= rows.len(),
        forall|j: int| start <= j < first_not_newer(rows, t, start) ==> rows[j].timestamp > t,
        first_not_newer(rows, t, start) < rows.len() ==> rows[first_not_newer(
            rows,
            t,
            start,
        )].timestamp <= t,
    decreases rows.len() - start,
{
    if start < rows.len() && rows[start].timestamp > t {
        lemma_first_not_newer(rows, t, start + 1);
    }
}

/// Where the newest record of a notification stands: it is of that
/// notification, and no record before it is.
pub proof fn lemma_first_with_id(rows: Seq<HistoryEntryView>, id: u32, start: int)
    requires
        0 <= start,
    ensures
        match first_with_id(rows, id, start) {
            Some(i) => start <= i < rows.len() && rows[i].id == id && forall|j: int|
                start <= j < i ==> rows[j].id != id,
            None => forall|j: int| start <= j < rows.len() ==> rows[j].id != id,
        },
    decreases rows.len() - start,
{
    if start < rows.len() && rows[start].id != id {
        lemma_first_with_id(rows, id, start + 1);
    }
}

/// Leaving records out keeps the order, and makes the list no longer.
pub proof fn lemma_without_id_ordered(rows: Seq<HistoryEntryView>, id: u32)
    requires
        newest_first(rows),
    ensures
        newest_first(without_id(rows, id)),
        without_id(rows, id).len() <= rows.len(),
        forall|k: int|
            0 <= k < without_id(rows, id).len() ==> (#[trigger] without_id(rows, id)[k]).id != id,
        rows.len() > 0 ==> forall|k: int|
            0 <= k < without_id(rows, id).len() ==> (#[trigger] without_id(rows, id)[k]).timestamp
                >= rows.last().timestamp,
    decreases rows.len(),
{
    if rows.len() > 0 {
        let init = rows.drop_last();
        lemma_without_id_ordered(init, id);
        if init.len() > 0 {
        }
    }
}

/// The position of the group of the given application.
fn find_group(groups: &Vec<(String, Vec<HistoryEntry>)>, app_name: &str) -> (r: Option<usize>)
    ensures
        match r {
            Some(k) => k < groups.len() && group_index(group_views(groups@), app_name@, 0) == Some(
                k as int,
            ),
            None => group_index(group_views(groups@), app_name@, 0) is None,
        },
{
    let mut j: usize = 0;
    while j < groups.len()
        invariant
            0 <= j <= groups.len(),
            group_index(group_views(groups@), app_name@, 0) == group_index(
                group_views(groups@),
                app_name@,
                j as int,
            ),
        decreases groups.len() - j,
    {
        if crate::text::str_equal(groups[j].0.as_str(), app_name) {
            return Some(j);
        }
        j += 1;
    }
    None
}

/// What the records of an application are: each is of that application,
/// and none is older than the oldest record of all. There are none
/// exactly where no record is of that application.
pub proof fn lemma_of_app(rows: Seq<HistoryEntryView>, app_name: Seq<char>)
    ensures
        of_app(rows, app_name).len() <= rows.len(),
        forall|k: int|
            0 <= k < of_app(rows, app_name).len() ==> (#[trigger] of_app(rows, app_name)[k]).app_name
                == app_name,
        newest_first(rows) && rows.len() > 0 ==> forall|k: int|
            0 <= k < of_app(rows, app_name).len() ==> (#[trigger] of_app(
                rows,
                app_name,
            )[k]).timestamp >= rows.last().timestamp,
        of_app(rows, app_name).len() == 0 <==> forall|j: int|
            0 <= j < rows.len() ==> (#[trigger] rows[j]).app_name != app_name,
    decreases rows.len(),
{
    if rows.len() > 0 {
        let init = rows.drop_last();
        lemma_of_app(init, app_name);
        if newest_first(rows) {
            if init.len() > 0 {
            }
        }
        if of_app(rows, app_name).len() == 0 {
            assert forall|j: int| 0 <= j < rows.len() implies (#[trigger] rows[j]).app_name
                != app_name by {
                if j < init.len() {
                    assert(init[j] == rows[j]);
                }
            }
        } else if rows.last().app_name != app_name {
            let j = choose|j: int| 0 <= j < init.len() && (#[trigger] init[j]).app_name == app_name;
        }
    }
}

/// Where the group of an application stands: it goes by that name, and
/// no group before it does.
pub proof fn lemma_group_index(groups: Seq<GroupView>, app_name: Seq<char>, start: int)
    requires
        0 <= start,
    ensures
        match group_index(groups, app_name, start) {
            Some(i) => start <= i < groups.len() && groups[i].0 == app_name && forall|j: int|
                start <= j < i ==> (#[trigger] groups[j]).0 != app_name,
            None => forall|j: int| start <= j < groups.len() ==> (#[trigger] groups[j]).0 != app_name,
        },
    decreases groups.len() - start,
{
    if start < groups.len() && groups[start].0 != app_name {
        lemma_group_index(groups, app_name, start + 1);
    }
}

/// What the groups of a list of records are. No two groups are of the
/// same application; each group holds all the records of its application
/// and no others, in their order, and at least one; every record is in
/// the group of its application; and where the records stand newest
/// first, so do the groups by their newest record.
pub proof fn lemma_grouped(rows: Seq<HistoryEntryView>)
    ensures
        forall|i: int, j: int|
            0 <= i < j < grouped(rows).len() ==> (#[trigger] grouped(rows)[i]).0 != (
            #[trigger] grouped(rows)[j]).0,
        forall|i: int|
            0 <= i < grouped(rows).len() ==> (#[trigger] grouped(rows)[i]).1 == of_app(
                rows,
                grouped(rows)[i].0,
            ) && grouped(rows)[i].1.len() > 0,
        forall|j: int|
            0 <= j < rows.len() ==> group_index(grouped(rows), (#[trigger] rows[j]).app_name, 0)
                is Some,
        newest_first(rows) ==> forall|i: int, j: int|
            0 <= i <= j < grouped(rows).len() ==> (#[trigger] grouped(rows)[i]).1[0].timestamp >= (
            #[trigger] grouped(rows)[j]).1[0].timestamp,
    decreases rows.len(),
{
    if rows.len() > 0 {
        let init = rows.drop_last();
        let e = rows.last();
        let before = grouped(init);
        let after = grouped(rows);
        let found = group_index(before, e.app_name, 0);
        lemma_grouped(init);
        lemma_group_index(before, e.app_name, 0);
        lemma_of_app(init, e.app_name);
        assert forall|i: int| 0 <= i < before.len() implies (#[trigger] after[i]).0 == before[i].0 by {}
        if found is None {
            // No group is of this application, so no earlier record is.
            assert forall|j: int| 0 <= j < init.len() implies (#[trigger] init[j]).app_name
                != e.app_name by {
                let name = init[j].app_name;
                lemma_group_index(before, name, 0);
                let i = group_index(before, name, 0)->0;
            }
        }
        assert forall|i: int| 0 <= i < after.len() implies (#[trigger] after[i]).1 == of_app(
            rows,
            after[i].0,
        ) && after[i].1.len() > 0 by {
            if i < before.len() {
                match found {
                    Some(k) => {
                        if i != k {
                            if i < k {
                            } else {
                            }
                        }
                    },
                    None => {},
                }
            }
        }
        assert forall|i: int, j: int| 0 <= i < j < after.len() implies (#[trigger] after[i]).0 != (
        #[trigger] after[j]).0 by {
            if j < before.len() {
            }
        }
        assert forall|j: int| 0 <= j < rows.len() implies group_index(
            after,
            (#[trigger] rows[j]).app_name,
            0,
        ) is Some by {
            let name = rows[j].app_name;
            lemma_group_index(after, name, 0);
            if j < init.len() {
                assert(init[j] == rows[j]);
                lemma_group_index(before, name, 0);
                let i = group_index(before, name, 0)->0;
                assert(after[i].0 == name);
            } else {
                match found {
                    Some(k) => {
                        assert(after[k].0 == name);
                    },
                    None => {
                        assert(after[before.len() as int].0 == name);
                    },
                }
            }
        }
        if newest_first(rows) {
            assert forall|i: int, j: int| 0 <= i <= j < after.len() implies (
            #[trigger] after[i]).1[0].timestamp >= (#[trigger] after[j]).1[0].timestamp by {
                if i < before.len() {
                    lemma_of_app(init, before[i].0);
                }
                if j < before.len() {
                } else {
                }
            }
        }
    }
}

/// The history of notifications.
pub struct HistoryStore {
    rows: Vec<HistoryEntry>,
    max_entries: u32,
}

impl HistoryStore {
    /// The records, newest first.
    pub closed spec fn rows(&self) -> Seq<HistoryEntryView> {
        entry_views(self.rows@)
    }

    /// How many records the history keeps.
    pub closed spec fn limit(&self) -> u32 {
        self.max_entries
    }

    /// What holds of every history: the records are in order, newest
    /// first, and there are no more of them than the history keeps.
    pub open spec fn wf(&self) -> bool {
        &&& newest_first(self.rows())
        &&& self.rows().len() <= self.limit()
    }

    /// An empty history that keeps up to `max_entries` records.
    pub fn new(max_entries: u32) -> (r: HistoryStore)
        ensures
            r.wf(),
            r.rows() == Seq::<HistoryEntryView>::empty(),
            r.limit() == max_entries,
    {
        let r = HistoryStore { rows: Vec::new(), max_entries };
        r
    }

    /// How many records the history holds.
    pub fn count(&self) -> (r: u32)
        requires
            self.wf(),
        ensures
            r == self.rows().len(),
            r <= self.limit(),
    {
        self.rows.len() as u32
    }

    /// How many records the history keeps.
    pub fn max_entries(&self) -> (r: u32)
        ensures
            r == self.limit(),
    {
        self.max_entries
    }

    /// Adds a record and lets go of the oldest records beyond the bound.
    pub fn add(&mut self, entry: &HistoryEntry)
        requires
            old(self).wf(),
        ensures
            final(self).wf(),
            final(self).limit() == old(self).limit(),
            final(self).rows() == added(old(self).rows(), entry@, old(self).limit() as int),
    {
        let ghost before = self.rows();
        let mut pos: usize = 0;
        while pos < self.rows.len() && self.rows[pos].timestamp > entry.timestamp
            invariant
                0 <= pos <= self.rows.len(),
                self.rows() == before,
                first_not_newer(before, entry.timestamp, 0) == first_not_newer(
                    before,
                    entry.timestamp,
                    pos as int,
                ),
            decreases self.rows.len() - pos,
        {
            pos += 1;
        }
        proof {
            lemma_added_bounded(before, entry@, self.max_entries as int);
        }
        self.rows.insert(pos, entry.clone());
        assert(self.rows() =~= before.insert(pos as int, entry@));
        let max: usize = self.max_entries as usize;
        if self.rows.len() > max {
            self.rows.truncate(max);
            assert(self.rows() =~= before.insert(pos as int, entry@).take(max as int));
        }
    }

    /// The position of the newest record of the given notification.
    fn find(&self, notification_id: u32) -> (r: Option<usize>)
        ensures
            match r {
                Some(i) => i < self.rows@.len() && first_with_id(self.rows(), notification_id, 0)
                    == Some(i as int),
                None => first_with_id(self.rows(), notification_id, 0) is None,
            },
    {
        let mut i: usize = 0;
        while i < self.rows.len()
            invariant
                0 <= i <= self.rows.len(),
                first_with_id(self.rows(), notification_id, 0) == first_with_id(
                    self.rows(),
                    notification_id,
                    i as int,
                ),
            decreases self.rows.len() - i,
        {
            if self.rows[i].id == notification_id {
                return Some(i);
            }
            i += 1;
        }
        None
    }

    /// Marks the newest record of the given notification as dismissed.
    /// Where there is none, nothing changes.
    pub fn mark_dismissed(&mut self, notification_id: u32)
        requires
            old(self).wf(),
        ensures
            final(self).wf(),
            final(self).limit() == old(self).limit(),
            final(self).rows() == marked_dismissed(old(self).rows(), notification_id),
    {
        let ghost before = self.rows();
        match self.find(notification_id) {
            Some(i) => {
                let mut e = self.rows.remove(i);
                e.dismissed = true;
                self.rows.insert(i, e);
                assert(self.rows() =~= marked_dismissed(before, notification_id));
            },
            None => {},
        }
    }

    /// Marks the newest record of the given notification as expired.
    /// Where there is none, nothing changes.
    pub fn mark_expired(&mut self, notification_id: u32)
        requires
            old(self).wf(),
        ensures
            final(self).wf(),
            final(self).limit() == old(self).limit(),
            final(self).rows() == marked_expired(old(self).rows(), notification_id),
    {
        let ghost before = self.rows();
        match self.find(notification_id) {
            Some(i) => {
                let mut e = self.rows.remove(i);
                e.expired = true;
                self.rows.insert(i, e);
                assert(self.rows() =~= marked_expired(before, notification_id));
            },
            None => {},
        }
    }

    /// Deletes the records of the given notification.
    pub fn delete(&mut self, notification_id: u32)
        requires
            old(self).wf(),
        ensures
            final(self).wf(),
            final(self).limit() == old(self).limit(),
            final(self).rows() == without_id(old(self).rows(), notification_id),
    {
        let ghost before = self.rows();
        let mut kept: Vec<HistoryEntry> = Vec::new();
        let mut i: usize = 0;
        while i < self.rows.len()
            invariant
                0 <= i <= self.rows.len(),
                self.rows() == before,
                entry_views(kept@) == without_id(before.take(i as int), notification_id),
            decreases self.rows.len() - i,
        {
            assert(before.take(i + 1).drop_last() =~= before.take(i as int));
            if self.rows[i].id != notification_id {
                kept.push(self.rows[i].clone());
            }
            i += 1;
        }
        proof {
            assert(before.take(self.rows.len() as int) =~= before);
            lemma_without_id_ordered(before, notification_id);
        }
        self.rows = kept;
    }

    /// Deletes every record.
    pub fn clear(&mut self)
        ensures
            final(self).wf(),
            final(self).limit() == old(self).limit(),
            final(self).rows() == Seq::<HistoryEntryView>::empty(),
    {
        self.rows.clear();
    }

    /// Every record, newest first.
    pub fn get_all(&self) -> (r: Vec<HistoryEntry>)
        ensures
            entry_views(r@) == self.rows(),
    {
        let mut out: Vec<HistoryEntry> = Vec::new();
        let mut i: usize = 0;
        while i < self.rows.len()
            invariant
                0 <= i <= self.rows.len(),
                out.len() == i,
                forall|j: int| 0 <= j < i ==> out@[j]@ == self.rows@[j]@,
            decreases self.rows.len() - i,
        {
            out.push(self.rows[i].clone());
            i += 1;
        }
        out
    }

    /// The records of the given application, newest first.
    pub fn get_by_app(&self, app_name: &str) -> (r: Vec<HistoryEntry>)
        ensures
            entry_views(r@) == of_app(self.rows(), app_name@),
    {
        let ghost rows = self.rows();
        let mut out: Vec<HistoryEntry> = Vec::new();
        let mut i: usize = 0;
        while i < self.rows.len()
            invariant
                0 <= i <= self.rows.len(),
                self.rows() == rows,
                entry_views(out@) == of_app(rows.take(i as int), app_name@),
            decreases self.rows.len() - i,
        {
            assert(rows.take(i + 1).drop_last() =~= rows.take(i as int));
            if crate::text::str_equal(self.rows[i].app_name.as_str(), app_name) {
                out.push(self.rows[i].clone());
            }
            i += 1;
        }
        assert(rows.take(self.rows.len() as int) =~= rows);
        out
    }

    /// The newest `limit` records by application. The groups stand in the
    /// order of their newest record.
    pub fn get_grouped(&self, limit: usize) -> (r: Vec<(String, Vec<HistoryEntry>)>)
        ensures
            group_views(r@) == grouped(first_rows(self.rows(), limit as int)),
    {
        let ghost rows = self.rows();
        let n: usize = if limit < self.rows.len() {
            limit
        } else {
            self.rows.len()
        };
        let ghost wanted = first_rows(rows, limit as int);
        assert(wanted =~= rows.take(n as int));
        let mut groups: Vec<(String, Vec<HistoryEntry>)> = Vec::new();
        let mut i: usize = 0;
        while i < n
            invariant
                0 <= i <= n <= self.rows.len(),
                self.rows() == rows,
                group_views(groups@) == grouped(rows.take(i as int)),
            decreases n - i,
        {
            assert(rows.take(i + 1).drop_last() =~= rows.take(i as int));
            let e = self.rows[i].clone();
            let found = find_group(&groups, e.app_name.as_str());
            match found {
                Some(k) => {
                    let mut g = groups.remove(k);
                    let ghost before_push = entry_views(g.1@);
                    g.1.push(e);
                    assert(entry_views(g.1@) =~= before_push.push(e@));
                    groups.insert(k, g);
                },
                None => {
                    let name = e.app_name.clone();
                    let mut members: Vec<HistoryEntry> = Vec::new();
                    members.push(e);
                    assert(entry_views(members@) =~= seq![e@]);
                    groups.push((name, members));
                },
            }
            i += 1;
        }
        groups
    }
}

} // verus!
