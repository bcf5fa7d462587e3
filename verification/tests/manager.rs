use swaynoti::bus::{CloseReason, HintValue, NotificationServer};
use swaynoti::config::{AppRule, Config, DndConfig, RuleActions, RuleCriteria, SortOrder, Weekday};
use swaynoti::dnd::DndScheduler;
use swaynoti::events::{ActionEvent, Outbound, UiEvent};
use swaynoti::history::HistoryStore;
use swaynoti::manager::NotificationManager;
use swaynoti::notification::{Notification, NotificationHints};
use swaynoti::urgency::Urgency;

const T0: i64 = 1_700_000_000_000;

fn note(summary: &str, replaces: u32, urgency: Urgency, timeout: i32, at: i64) -> Notification {
    let mut hints = NotificationHints::default();
    hints.urgency = urgency;
    Notification::at(
        0,
        "app".to_string(),
        replaces,
        String::new(),
        summary.to_string(),
        String::new(),
        Vec::new(),
        hints,
        timeout,
        at,
    )
}

fn with_actions(actions: &[&str], resident: bool) -> Notification {
    let mut hints = NotificationHints::default();
    hints.resident = resident;
    Notification::at(
        0,
        "app".to_string(),
        0,
        String::new(),
        "Act".to_string(),
        String::new(),
        actions.iter().map(|s| s.to_string()).collect(),
        hints,
        0,
        T0,
    )
}

fn manager() -> NotificationManager {
    NotificationManager::new(Config::default())
}

fn manager_with_history(max: u32) -> NotificationManager {
    NotificationManager::new(Config::default()).with_history(HistoryStore::new(max))
}

fn closed(out: &[Outbound]) -> Vec<(u32, u32)> {
    out.iter()
        .filter_map(|o| match o {
            Outbound::Closed { id, reason } => Some((*id, reason.code())),
            _ => None,
        })
        .collect()
}

fn shown(out: &[Outbound]) -> Vec<u32> {
    out.iter()
        .filter_map(|o| match o {
            Outbound::Ui(UiEvent::Show(n)) => Some(n.id),
            _ => None,
        })
        .collect()
}

fn updated(out: &[Outbound]) -> Vec<u32> {
    out.iter()
        .filter_map(|o| match o {
            Outbound::Ui(UiEvent::Update(id, _)) => Some(*id),
            _ => None,
        })
        .collect()
}

fn ui_closed(out: &[Outbound]) -> Vec<u32> {
    out.iter()
        .filter_map(|o| match o {
            Outbound::Ui(UiEvent::Close(id)) => Some(*id),
            _ => None,
        })
        .collect()
}

fn timers(out: &[Outbound]) -> Vec<(u32, u64, i32)> {
    out.iter()
        .filter_map(|o| match o {
            Outbound::ArmTimer { id, epoch, delay_ms } => Some((*id, *epoch, *delay_ms)),
            _ => None,
        })
        .collect()
}

fn invoked(out: &[Outbound]) -> Vec<(u32, String)> {
    out.iter()
        .filter_map(|o| match o {
            Outbound::ActionInvoked { id, action_key } => Some((*id, action_key.clone())),
            _ => None,
        })
        .collect()
}

fn visible_ids(m: &NotificationManager) -> Vec<u32> {
    m.get_visible_notifications().iter().map(|n| n.id).collect()
}

#[test]
fn basic_expiry() {
    let mut m = manager();
    let id = NotificationServer::notify_at(
        &mut m,
        "app",
        0,
        "",
        "Hello",
        "",
        Vec::new(),
        &Vec::new(),
        500,
        T0,
    );
    assert_eq!(id, 1);
    let out = m.take_outbox();
    assert_eq!(shown(&out), vec![1]);
    let armed = timers(&out);
    assert_eq!(armed.len(), 1);
    assert_eq!((armed[0].0, armed[0].2), (1, 500));
    assert_eq!(m.get_notification(1).unwrap().expires_at, Some(T0 + 500));
    assert_eq!(m.count(), 1);
    // 600 ms later the timer reports.
    m.expire(armed[0].0, armed[0].1);
    let out = m.take_outbox();
    assert_eq!(closed(&out), vec![(1, 1)]);
    assert_eq!(ui_closed(&out), vec![1]);
    assert_eq!(m.count(), 0);
}

#[test]
fn replacement() {
    let mut m = manager();
    let first = m.submit(note("A", 0, Urgency::Normal, 0, T0), T0);
    assert_eq!(first, 1);
    let second = m.submit(note("A'", 1, Urgency::Normal, 0, T0 + 10), T0 + 10);
    assert_eq!(second, 1);
    assert_eq!(m.count(), 1);
    let out = m.take_outbox();
    assert_eq!(shown(&out), vec![1]);
    assert_eq!(updated(&out), vec![1]);
    assert!(closed(&out).is_empty());
    assert!(matches!(out[0], Outbound::Ui(UiEvent::Show(_))));
    assert!(matches!(out[1], Outbound::Ui(UiEvent::Update(1, _))));
    assert_eq!(m.get_notification(1).unwrap().summary, "A'");
}

#[test]
fn replacing_an_unknown_identifier_allocates_a_fresh_one() {
    let mut m = manager();
    assert_eq!(m.submit(note("A", 42, Urgency::Normal, 0, T0), T0), 1);
    assert_eq!(m.submit(note("B", 42, Urgency::Normal, 0, T0), T0), 2);
    assert_eq!(m.count(), 2);
    m.close_notification(1, CloseReason::Dismissed);
    assert_eq!(m.submit(note("C", 1, Urgency::Normal, 0, T0), T0), 3);
}

#[test]
fn action_invocation_on_non_resident() {
    let mut m = manager();
    let id = m.submit(with_actions(&["open", "Open"], false), T0);
    m.take_outbox();
    m.handle_action_event_at(ActionEvent::ActionInvoked { id, action_key: "open".to_string() }, T0);
    let out = m.take_outbox();
    assert_eq!(invoked(&out), vec![(id, "open".to_string())]);
    assert_eq!(closed(&out), vec![(id, 2)]);
    assert!(matches!(out[0], Outbound::ActionInvoked { .. }));
    assert!(matches!(out[out.len() - 1], Outbound::Closed { .. }));
    assert_eq!(m.count(), 0);
}

#[test]
fn resident_action() {
    let mut m = manager();
    let id = m.submit(with_actions(&["open", "Open"], true), T0);
    m.take_outbox();
    m.invoke_action(id, "open");
    let out = m.take_outbox();
    assert_eq!(invoked(&out), vec![(id, "open".to_string())]);
    assert!(closed(&out).is_empty());
    assert!(m.is_live(id));
}

#[test]
fn unknown_action_or_identifier_is_ignored() {
    let mut m = manager();
    let id = m.submit(with_actions(&["open", "Open"], false), T0);
    m.take_outbox();
    m.invoke_action(id, "Open");
    m.invoke_action(id + 1, "open");
    m.handle_action_event_at(ActionEvent::DefaultAction { id }, T0);
    assert!(m.take_outbox().is_empty());
    assert!(m.is_live(id));
}

#[test]
fn default_action_is_invoked_by_a_click() {
    let mut m = manager();
    let id = m.submit(with_actions(&["default", "Open"], false), T0);
    m.take_outbox();
    m.handle_action_event_at(ActionEvent::DefaultAction { id }, T0);
    let out = m.take_outbox();
    assert_eq!(invoked(&out), vec![(id, "default".to_string())]);
    assert_eq!(closed(&out), vec![(id, 2)]);
}

#[test]
fn dnd_blocks_normal_allows_critical() {
    let mut m = manager_with_history(10);
    m.enable_dnd();
    let a = m.submit(note("quiet", 0, Urgency::Normal, -1, T0), T0);
    assert_eq!(a, 1);
    assert!(m.take_outbox().is_empty());
    assert_eq!(m.count(), 0);
    assert_eq!(m.history_count(), 1);
    assert_eq!(m.history_entries()[0].id, 1);
    let b = m.submit(note("loud", 0, Urgency::Critical, -1, T0 + 1), T0 + 1);
    assert_eq!(b, 2);
    let out = m.take_outbox();
    assert_eq!(shown(&out), vec![2]);
    assert!(m.is_live(2));
    assert_eq!(m.history_count(), 2);
}

#[test]
fn dnd_does_not_record_transient_notifications() {
    let mut m = manager_with_history(10);
    m.enable_dnd();
    let mut n = note("quiet", 0, Urgency::Low, -1, T0);
    n.hints.transient = true;
    assert_eq!(m.submit(n, T0), 1);
    assert!(m.take_outbox().is_empty());
    assert_eq!(m.history_count(), 0);
}

#[test]
fn critical_under_dnd_expires_normally() {
    let mut m = manager();
    m.enable_dnd();
    let id = m.submit(note("loud", 0, Urgency::Critical, 2000, T0), T0);
    let out = m.take_outbox();
    let armed = timers(&out);
    assert_eq!(armed, vec![(id, armed[0].1, 2000)]);
    m.expire(id, armed[0].1);
    assert_eq!(closed(&m.take_outbox()), vec![(id, 1)]);
}

#[test]
fn urgency_descending_ordering() {
    let mut config = Config::default();
    config.general.sort_order = SortOrder::UrgencyDescending;
    let mut m = NotificationManager::new(config);
    assert_eq!(m.submit(note("n", 0, Urgency::Normal, 0, T0), T0), 1);
    assert_eq!(m.submit(note("l", 0, Urgency::Low, 0, T0), T0), 2);
    assert_eq!(m.submit(note("c", 0, Urgency::Critical, 0, T0), T0), 3);
    assert_eq!(visible_ids(&m), vec![3, 1, 2]);
    assert_eq!(m.submit(note("n2", 0, Urgency::Normal, 0, T0), T0), 4);
    assert_eq!(visible_ids(&m), vec![3, 1, 4, 2]);
}

#[test]
fn newest_first_and_oldest_first_ordering() {
    let mut m = manager();
    for i in 0..3 {
        m.submit(note("x", 0, Urgency::Normal, 0, T0 + i), T0 + i);
    }
    assert_eq!(visible_ids(&m), vec![3, 2, 1]);
    let created: Vec<i64> = m.get_visible_notifications().iter().map(|n| n.created_at).collect();
    assert!(created.windows(2).all(|w| w[0] >= w[1]));
    let mut config = Config::default();
    config.general.sort_order = SortOrder::OldestFirst;
    let mut m = NotificationManager::new(config);
    for i in 0..3 {
        m.submit(note("x", 0, Urgency::Normal, 0, T0 + i), T0 + i);
    }
    assert_eq!(visible_ids(&m), vec![1, 2, 3]);
}

#[test]
fn visible_is_bounded_by_max_visible() {
    let mut config = Config::default();
    config.general.max_visible = 2;
    let mut m = NotificationManager::new(config);
    for i in 0..5 {
        m.submit(note("x", 0, Urgency::Normal, 0, T0 + i), T0 + i);
        assert!(m.get_visible_notifications().len() <= 2);
    }
    assert_eq!(m.count(), 5);
    assert_eq!(visible_ids(&m), vec![5, 4]);
    let mut config = Config::default();
    config.general.max_visible = 0;
    let mut m = NotificationManager::new(config);
    m.submit(note("x", 0, Urgency::Normal, 0, T0), T0);
    assert!(m.get_visible_notifications().is_empty());
}

#[test]
fn socket_dismiss_all() {
    let mut m = manager_with_history(10);
    for i in 0..3 {
        m.submit(note("x", 0, Urgency::Normal, 0, T0 + i), T0 + i);
    }
    m.take_outbox();
    m.dismiss_all();
    let out = m.take_outbox();
    let mut signals = closed(&out);
    signals.sort();
    assert_eq!(signals, vec![(1, 2), (2, 2), (3, 2)]);
    assert_eq!(m.count(), 0);
    let rows = m.history_entries();
    assert_eq!(rows.len(), 3);
    assert!(rows.iter().all(|r| r.dismissed && !r.expired));
}

#[test]
fn history_retention() {
    let mut m = manager_with_history(2);
    for i in 0..5 {
        m.submit(note("x", 0, Urgency::Normal, 0, T0 + i), T0 + i);
    }
    assert_eq!(m.history_count(), 2);
    let rows: Vec<u32> = m.history_entries().iter().map(|r| r.id).collect();
    assert_eq!(rows, vec![5, 4]);
}

#[test]
fn identifiers_are_unique_and_never_reused() {
    let mut m = manager();
    let mut seen = Vec::new();
    for round in 0..20u32 {
        let id = m.submit(note("x", 0, Urgency::Normal, 0, T0), T0);
        assert!(id != 0);
        assert!(!seen.contains(&id));
        seen.push(id);
        if round % 3 == 0 {
            m.close_notification(id, CloseReason::Dismissed);
        }
        let live = visible_ids(&m);
        let mut sorted = live.clone();
        sorted.sort();
        sorted.dedup();
        assert_eq!(sorted.len(), live.len());
    }
    assert_eq!(seen, (1..=20).collect::<Vec<u32>>());
}

#[test]
fn close_is_signalled_exactly_once() {
    let mut m = manager();
    let id = m.submit(note("x", 0, Urgency::Normal, 1000, T0), T0);
    let armed = timers(&m.take_outbox());
    m.close_notification(id, CloseReason::CloseCall);
    assert_eq!(closed(&m.take_outbox()), vec![(id, 3)]);
    m.close_notification(id, CloseReason::CloseCall);
    m.close_notification(id, CloseReason::Dismissed);
    m.expire(id, armed[0].1);
    m.handle_action_event_at(ActionEvent::Dismissed { id }, T0);
    assert!(m.take_outbox().is_empty());
}

#[test]
fn reasons_match_the_cause() {
    let mut m = manager();
    let a = m.submit(note("a", 0, Urgency::Normal, 100, T0), T0);
    let epoch = timers(&m.take_outbox())[0].1;
    m.expire(a, epoch);
    assert_eq!(closed(&m.take_outbox()), vec![(a, 1)]);
    let b = m.submit(note("b", 0, Urgency::Normal, 0, T0), T0);
    m.take_outbox();
    m.handle_action_event_at(ActionEvent::Dismissed { id: b }, T0);
    assert_eq!(closed(&m.take_outbox()), vec![(b, 2)]);
    let c = m.submit(note("c", 0, Urgency::Normal, 0, T0), T0);
    m.take_outbox();
    NotificationServer::close_notification(&mut m, c);
    assert_eq!(closed(&m.take_outbox()), vec![(c, 3)]);
    let d = m.submit(note("d", 0, Urgency::Normal, 0, T0), T0);
    m.take_outbox();
    m.close_notification(d, CloseReason::Undefined);
    assert_eq!(closed(&m.take_outbox()), vec![(d, 4)]);
}

#[test]
fn stale_timer_is_ignored_after_replacement() {
    let mut m = manager();
    let id = m.submit(note("a", 0, Urgency::Normal, 100, T0), T0);
    let old_epoch = timers(&m.take_outbox())[0].1;
    m.submit(note("a2", id, Urgency::Normal, 100, T0 + 50), T0 + 50);
    let new_epoch = timers(&m.take_outbox())[0].1;
    assert_ne!(old_epoch, new_epoch);
    m.expire(id, old_epoch);
    assert!(m.take_outbox().is_empty());
    assert!(m.is_live(id));
    m.expire(id, new_epoch);
    assert_eq!(closed(&m.take_outbox()), vec![(id, 1)]);
}

#[test]
fn hover_freezes_expiry() {
    let mut m = manager();
    let id = m.submit(note("a", 0, Urgency::Normal, 300, T0), T0);
    let epoch = timers(&m.take_outbox())[0].1;
    m.set_hovered_at(id, true, T0 + 100);
    assert!(m.get_notification(id).unwrap().is_hovered);
    assert!(m.take_outbox().is_empty());
    m.expire(id, epoch);
    let out = m.take_outbox();
    assert!(closed(&out).is_empty());
    assert_eq!(timers(&out), vec![(id, epoch, 500)]);
    assert!(m.is_live(id));
    m.set_hovered_at(id, false, T0 + 900);
    let out = m.take_outbox();
    let rearmed = timers(&out);
    assert_eq!(rearmed.len(), 1);
    assert_eq!((rearmed[0].0, rearmed[0].2), (id, 300));
    assert_ne!(rearmed[0].1, epoch);
    let n = m.get_notification(id).unwrap();
    assert!(!n.is_hovered);
    assert_eq!(n.expires_at, Some(T0 + 900 + 300));
    m.expire(id, epoch);
    assert!(m.take_outbox().is_empty());
    m.expire(id, rearmed[0].1);
    assert_eq!(closed(&m.take_outbox()), vec![(id, 1)]);
}

#[test]
fn hover_on_a_notification_without_timeout_only_sets_the_flag() {
    let mut m = manager();
    let id = m.submit(note("a", 0, Urgency::Normal, 0, T0), T0);
    m.take_outbox();
    m.handle_action_event_at(ActionEvent::Hovered { id }, T0);
    assert!(m.get_notification(id).unwrap().is_hovered);
    m.handle_action_event_at(ActionEvent::Unhovered { id }, T0 + 5);
    let n = m.get_notification(id).unwrap();
    assert!(!n.is_hovered);
    assert_eq!(n.expires_at, None);
    assert!(m.take_outbox().is_empty());
    m.set_hovered_at(99, true, T0);
    assert!(m.take_outbox().is_empty());
}

#[test]
fn timeouts_resolve_by_urgency() {
    let m = manager();
    assert_eq!(m.calculate_timeout(&note("a", 0, Urgency::Low, -1, T0)), 3000);
    assert_eq!(m.calculate_timeout(&note("a", 0, Urgency::Normal, -1, T0)), 5000);
    assert_eq!(m.calculate_timeout(&note("a", 0, Urgency::Critical, -1, T0)), 0);
    assert_eq!(m.calculate_timeout(&note("a", 0, Urgency::Critical, 750, T0)), 750);
    assert_eq!(m.calculate_timeout(&note("a", 0, Urgency::Low, 0, T0)), 0);
    assert_eq!(m.calculate_timeout(&note("a", 0, Urgency::Low, -7, T0)), 3000);
}

#[test]
fn expiry_is_set_exactly_when_there_is_a_timeout() {
    let mut m = manager();
    let a = m.submit(note("a", 0, Urgency::Normal, -1, T0), T0);
    assert_eq!(m.get_notification(a).unwrap().expires_at, Some(T0 + 5000));
    let b = m.submit(note("b", 0, Urgency::Critical, -1, T0), T0);
    assert_eq!(m.get_notification(b).unwrap().expires_at, None);
    let c = m.submit(note("c", 0, Urgency::Normal, 0, T0), T0);
    assert_eq!(m.get_notification(c).unwrap().expires_at, None);
    let out = m.take_outbox();
    assert_eq!(timers(&out).len(), 1);
    assert_eq!(timers(&out)[0].0, a);
}

#[test]
fn rules_apply_before_the_timeout_is_resolved() {
    let mut config = Config::default();
    let mut criteria = RuleCriteria::default();
    criteria.app_name = Some("^app$".to_string());
    let mut actions = RuleActions::default();
    actions.urgency = Some("critical".to_string());
    config.rules.push(AppRule { criteria, actions });
    let mut m = NotificationManager::new(config);
    m.enable_dnd();
    let id = m.submit(note("a", 0, Urgency::Low, -1, T0), T0);
    let n = m.get_notification(id).unwrap();
    assert_eq!(n.hints.urgency, Urgency::Critical);
    assert_eq!(n.expires_at, None);
    assert_eq!(shown(&m.take_outbox()), vec![id]);
}

#[test]
fn inline_reply_signals_and_dismisses() {
    let mut m = manager();
    let id = m.submit(with_actions(&["inline-reply", "Reply"], true), T0);
    m.take_outbox();
    m.handle_action_event_at(ActionEvent::InlineReply { id, text: "on my way".to_string() }, T0);
    let out = m.take_outbox();
    assert_eq!(invoked(&out), vec![(id, "inline-reply".to_string())]);
    assert!(matches!(&out[1], Outbound::Replied { id: i, text } if *i == id && text == "on my way"));
    assert_eq!(closed(&out), vec![(id, 2)]);
    let plain = m.submit(with_actions(&["open", "Open"], false), T0);
    m.take_outbox();
    m.inline_reply(plain, "hello");
    assert!(m.take_outbox().is_empty());
    assert!(m.is_live(plain));
}

#[test]
fn focus_request_goes_to_the_focus_sink() {
    let mut m = manager();
    m.handle_action_event_at(ActionEvent::FocusApp { id: 1, app_name: "firefox".to_string() }, T0);
    let out = m.take_outbox();
    assert_eq!(out.len(), 1);
    assert!(matches!(&out[0], Outbound::Focus { app_name } if app_name == "firefox"));
}

#[test]
fn reload_applies_to_later_submissions_only() {
    let mut m = manager();
    let a = m.submit(note("a", 0, Urgency::Normal, -1, T0), T0);
    let mut config = Config::default();
    config.timeouts.normal = 100;
    config.general.sort_order = SortOrder::OldestFirst;
    m.reload_config(config);
    assert_eq!(m.get_notification(a).unwrap().expires_at, Some(T0 + 5000));
    let b = m.submit(note("b", 0, Urgency::Normal, -1, T0), T0);
    assert_eq!(m.get_notification(b).unwrap().expires_at, Some(T0 + 100));
    assert_eq!(visible_ids(&m), vec![a, b]);
}

#[test]
fn expired_notification_is_marked_in_history() {
    let mut m = manager_with_history(10);
    let id = m.submit(note("a", 0, Urgency::Normal, 100, T0), T0);
    let epoch = timers(&m.take_outbox())[0].1;
    m.expire(id, epoch);
    let rows = m.history_entries();
    assert_eq!(rows.len(), 1);
    assert!(rows[0].expired);
    assert!(!rows[0].dismissed);
}

#[test]
fn notify_parses_hints_and_pairs_actions() {
    let mut m = manager();
    let hints = vec![
        ("urgency".to_string(), HintValue::U8(2)),
        ("resident".to_string(), HintValue::Bool(true)),
    ];
    let id = NotificationServer::notify_at(
        &mut m,
        "mail",
        0,
        "icon",
        "Subject",
        "Body",
        vec!["default".to_string(), "Open".to_string(), "odd".to_string()],
        &hints,
        -1,
        T0,
    );
    let n = m.get_notification(id).unwrap();
    assert_eq!(n.id, id);
    assert_eq!(n.app_name, "mail");
    assert_eq!(n.app_icon, "icon");
    assert_eq!(n.summary, "Subject");
    assert_eq!(n.body, "Body");
    assert_eq!(n.hints.urgency, Urgency::Critical);
    assert!(n.hints.resident);
    assert_eq!(n.actions, vec![("default".to_string(), "Open".to_string())]);
    assert_eq!(n.created_at, T0);
    assert_eq!(n.expires_at, None);
}

#[test]
fn clock_driven_calls_behave_like_timed_ones() {
    let mut m = manager();
    let id = NotificationServer::notify(&mut m, "app", 0, "", "Hello", "", Vec::new(), &Vec::new(), 500);
    assert_eq!(id, 1);
    let n = m.get_notification(1).unwrap();
    assert_eq!(n.expires_at, Some(n.created_at + 500));
    assert!(n.created_at > 1_600_000_000_000);
    let second = m.add_notification(note("b", 0, Urgency::Normal, 0, T0));
    assert_eq!(second, 2);
    m.set_hovered(1, true);
    assert!(m.get_notification(1).unwrap().is_hovered);
    m.set_hovered(1, false);
    let n = m.get_notification(1).unwrap();
    assert!(!n.is_hovered);
    assert!(n.expires_at.unwrap() > 1_600_000_000_000);
    m.handle_action_event(ActionEvent::Dismissed { id: 2 });
    assert!(!m.is_live(2));
}

#[test]
fn reload_with_the_same_configuration_changes_nothing() {
    let mut m = manager_with_history(10);
    let a = m.submit(note("a", 0, Urgency::Normal, -1, T0), T0);
    let b = m.submit(note("b", 0, Urgency::Low, 0, T0 + 1), T0 + 1);
    m.take_outbox();
    let before: Vec<(u32, Option<i64>)> =
        m.get_visible_notifications().iter().map(|n| (n.id, n.expires_at)).collect();
    m.reload_config(Config::default());
    assert!(m.take_outbox().is_empty());
    let after: Vec<(u32, Option<i64>)> =
        m.get_visible_notifications().iter().map(|n| (n.id, n.expires_at)).collect();
    assert_eq!(before, after);
    assert_eq!(after, vec![(b, None), (a, Some(T0 + 5000))]);
    assert_eq!(m.count(), 2);
    assert_eq!(m.history_count(), 2);
    assert!(!m.dnd_enabled());
    // Later submissions behave as before the reload.
    let c = m.submit(note("c", 0, Urgency::Low, -1, T0 + 2), T0 + 2);
    assert_eq!(m.get_notification(c).unwrap().expires_at, Some(T0 + 2 + 3000));
    assert_eq!(visible_ids(&m), vec![c, b, a]);
}

#[test]
fn schedule_sets_dnd_through_the_engine() {
    let scheduler = DndScheduler::new(DndConfig {
        schedule_start: Some("22:00".to_string()),
        schedule_end: Some("07:00".to_string()),
        schedule_days: vec![],
    });
    let mut m = manager();
    m.apply_schedule(&scheduler, Weekday::Friday, 23, 30);
    assert!(m.dnd_enabled());
    assert!(!m.dnd_state().is_manual());
    assert_eq!(m.submit(note("quiet", 0, Urgency::Normal, 0, T0), T0), 1);
    assert!(m.take_outbox().is_empty());
    m.apply_schedule(&scheduler, Weekday::Friday, 7, 0);
    assert!(!m.dnd_enabled());
    m.disable_dnd();
    m.apply_schedule(&scheduler, Weekday::Friday, 23, 30);
    assert!(!m.dnd_enabled());
    assert!(m.dnd_state().is_manual());
    let whole_day = DndScheduler::new(DndConfig {
        schedule_start: Some("00:00".to_string()),
        schedule_end: Some("00:00".to_string()),
        schedule_days: vec![],
    });
    let mut by_clock = manager();
    by_clock.tick_schedule(&whole_day);
    assert!(by_clock.dnd_enabled());
}

#[test]
fn center_requests_reach_the_presenter() {
    let mut m = manager();
    m.show_center();
    m.toggle_center();
    m.hide_center();
    let out = m.take_outbox();
    assert!(matches!(out[0], Outbound::Ui(UiEvent::ShowCenter)));
    assert!(matches!(out[1], Outbound::Ui(UiEvent::ToggleCenter)));
    assert!(matches!(out[2], Outbound::Ui(UiEvent::HideCenter)));
    assert_eq!(out.len(), 3);
    assert!(m.take_outbox().is_empty());
}

#[test]
fn closing_a_replaced_notification_marks_its_newest_record() {
    let mut m = manager_with_history(10);
    let id = m.submit(note("a", 0, Urgency::Normal, 0, T0), T0);
    m.submit(note("a2", id, Urgency::Normal, 0, T0 + 5), T0 + 5);
    m.close_notification(id, CloseReason::Dismissed);
    let rows = m.history_entries();
    assert_eq!(rows.len(), 2);
    assert_eq!(rows[0].summary, "a2");
    assert!(rows[0].dismissed);
    assert!(!rows[1].dismissed);
}
