use swaynoti::events::UiEvent;
use swaynoti::notification::{Notification, NotificationHints};
use swaynoti::queue::PresenterQueue;

fn note(id: u32, summary: &str) -> Notification {
    Notification::at(
        id,
        "app".to_string(),
        0,
        String::new(),
        summary.to_string(),
        String::new(),
        Vec::new(),
        NotificationHints::default(),
        0,
        0,
    )
}

fn label(e: &UiEvent) -> String {
    match e {
        UiEvent::Show(n) => format!("show {} {}", n.id, n.summary),
        UiEvent::Update(id, n) => format!("update {} {}", id, n.summary),
        UiEvent::Close(id) => format!("close {}", id),
        UiEvent::Reposition => "reposition".to_string(),
        UiEvent::ShowCenter => "show center".to_string(),
        UiEvent::HideCenter => "hide center".to_string(),
        UiEvent::ToggleCenter => "toggle center".to_string(),
    }
}

fn drain(q: &mut PresenterQueue) -> Vec<String> {
    let mut out = Vec::new();
    while let Some(e) = q.take() {
        out.push(label(&e));
    }
    out
}

#[test]
fn queue_hands_requests_out_in_order() {
    let mut q = PresenterQueue::new(4);
    assert!(q.is_empty());
    assert!(q.offer(UiEvent::Show(note(1, "a"))).is_none());
    assert!(q.offer(UiEvent::Close(1)).is_none());
    assert!(q.offer(UiEvent::ShowCenter).is_none());
    assert_eq!(q.len(), 3);
    assert_eq!(drain(&mut q), vec!["show 1 a", "close 1", "show center"]);
    assert!(q.take().is_none());
}

#[test]
fn full_queue_keeps_the_latest_state_of_a_notification() {
    let mut q = PresenterQueue::new(3);
    assert!(q.offer(UiEvent::Show(note(1, "a"))).is_none());
    assert!(q.offer(UiEvent::Show(note(2, "b"))).is_none());
    assert!(q.offer(UiEvent::Update(1, note(1, "a2"))).is_none());
    assert_eq!(q.len(), 3);
    // Full: the oldest waiting state of notification 1 makes room.
    assert!(q.offer(UiEvent::Update(1, note(1, "a3"))).is_none());
    assert_eq!(q.len(), 3);
    assert_eq!(drain(&mut q), vec!["show 2 b", "update 1 a2", "update 1 a3"]);
}

#[test]
fn full_queue_hands_back_what_it_cannot_take() {
    let mut q = PresenterQueue::new(2);
    assert!(q.offer(UiEvent::Show(note(1, "a"))).is_none());
    assert!(q.offer(UiEvent::Close(1)).is_none());
    let back = q.offer(UiEvent::Show(note(2, "b")));
    assert_eq!(back.as_ref().map(label), Some("show 2 b".to_string()));
    let back = q.offer(UiEvent::Close(2));
    assert_eq!(back.as_ref().map(label), Some("close 2".to_string()));
    let back = q.offer(UiEvent::ToggleCenter);
    assert_eq!(back.as_ref().map(label), Some("toggle center".to_string()));
    assert_eq!(q.len(), 2);
    assert_eq!(drain(&mut q), vec!["show 1 a", "close 1"]);
}

#[test]
fn queue_without_room_takes_nothing() {
    let mut q = PresenterQueue::new(0);
    assert!(q.offer(UiEvent::Show(note(1, "a"))).is_some());
    assert!(q.offer(UiEvent::Reposition).is_some());
    assert_eq!(q.len(), 0);
}

#[test]
fn queue_never_holds_more_than_its_capacity() {
    let mut q = PresenterQueue::new(5);
    for i in 0..40u32 {
        let _ = q.offer(UiEvent::Update(i % 7, note(i % 7, "x")));
        assert!(q.len() <= 5);
        if i % 11 == 0 {
            let _ = q.take();
        }
    }
}
