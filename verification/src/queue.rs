//! The bounded queue between the engine and the presenter. Where it is
//! full, a newer state of a notification takes the place of the oldest
//! one that waits, so that the presenter sees the latest.

use vstd::prelude::*;
use crate::events::{Effect, UiEvent};

verus! {

/// The notification whose state a request to the presenter carries.
pub open spec fn carried_id(e: Effect) -> Option<u32> {
    match e {
        Effect::Show(n) => Some(n.id),
        Effect::Update(id, _) => Some(id),
        _ => None,
    }
}

/// The position, at or after `start`, of the oldest waiting request that
/// carries the state of the given notification.
pub open spec fn first_carrying(waiting: Seq<Effect>, id: u32, start: int) -> Option<int>
    decreases waiting.len() - start,
{
    if start < 0 || start >= waiting.len() {
        None
    } else if carried_id(waiting[start]) == Some(id) {
        Some(start)
    } else {
        first_carrying(waiting, id, start + 1)
    }
}

/// What offering a request makes of the waiting requests, and whether it
/// was taken. Where there is room it goes to the end. Where there is
/// none and it carries the state of a notification of which an older
/// state waits, the oldest such leaves and it goes to the end. Otherwise
/// it is not taken and nothing changes.
pub open spec fn offered(waiting: Seq<Effect>, capacity: int, e: Effect) -> (Seq<Effect>, bool) {
    if waiting.len() < capacity {
        (waiting.push(e), true)
    } else {
        match carried_id(e) {
            Some(id) => match first_carrying(waiting, id, 0) {
                Some(i) => (waiting.remove(i).push(e), true),
                None => (waiting, false),
            },
            None => (waiting, false),
        }
    }
}

/// Where the oldest waiting state of a notification stands: it carries
/// that notification, and no request before it does.
pub proof fn lemma_first_carrying(waiting: Seq<Effect>, id: u32, start: int)
    requires
        0 <= start,
    ensures
        match first_carrying(waiting, id, start) {
            Some(i) => start <= i < waiting.len() && carried_id(waiting[i]) == Some(id) && forall|
                j: int,
            |
                start <= j < i ==> carried_id(waiting[j]) != Some(id),
            None => forall|j: int| start <= j < waiting.len() ==> carried_id(waiting[j]) != Some(id),
        },
    decreases waiting.len() - start,
{
    if start < waiting.len() && carried_id(waiting[start]) != Some(id) {
        lemma_first_carrying(waiting, id, start + 1);
    }
}

/// Offering a request never lets more requests wait than the queue has
/// room for, and a request that is taken waits last.
pub proof fn lemma_offered_bounded(waiting: Seq<Effect>, capacity: int, e: Effect)
    requires
        waiting.len() <= capacity,
    ensures
        offered(waiting, capacity, e).0.len() <= capacity,
        offered(waiting, capacity, e).1 ==> offered(waiting, capacity, e).0.last() == e,
        !offered(waiting, capacity, e).1 ==> offered(waiting, capacity, e).0 == waiting,
{
    if waiting.len() >= capacity {
        if let Some(id) = carried_id(e) {
            lemma_first_carrying(waiting, id, 0);
        }
    }
}

/// The requests that wait for the presenter.
pub struct PresenterQueue {
    items: Vec<UiEvent>,
    capacity: usize,
}

impl PresenterQueue {
    /// The requests that wait, oldest first.
    pub closed spec fn waiting(&self) -> Seq<Effect> {
        self.items@.map_values(|e: UiEvent| e@)
    }

    /// How many requests can wait.
    pub closed spec fn room(&self) -> usize {
        self.capacity
    }

    /// What holds of every queue: no more requests wait than it has room
    /// for.
    pub open spec fn wf(&self) -> bool {
        self.waiting().len() <= self.room()
    }

    /// An empty queue with room for `capacity` requests.
    pub fn new(capacity: usize) -> (r: PresenterQueue)
        ensures
            r.wf(),
            r.waiting() == Seq::<Effect>::empty(),
            r.room() == capacity,
    {
        let r = PresenterQueue { items: Vec::new(), capacity };
        r
    }

    /// How many requests wait.
    pub fn len(&self) -> (r: usize)
        ensures
            r == self.waiting().len(),
    {
        self.items.len()
    }

    /// Whether no request waits.
    pub fn is_empty(&self) -> (r: bool)
        ensures
            r == (self.waiting().len() == 0),
    {
        self.items.len() == 0
    }

    /// The notification whose state a request carries.
    fn id_of(event: &UiEvent) -> (r: Option<u32>)
        ensures
            r == carried_id(event@),
    {
        match event {
            UiEvent::Show(n) => Some(n.id),
            UiEvent::Update(id, _) => Some(*id),
            _ => None,
        }
    }

    /// Offers a request to the queue. A request that is not taken is
    /// handed back.
    pub fn offer(&mut self, event: UiEvent) -> (r: Option<UiEvent>)
        requires
            old(self).wf(),
        ensures
            final(self).wf(),
            final(self).room() == old(self).room(),
            final(self).waiting() == offered(
                old(self).waiting(),
                old(self).room() as int,
                event@,
            ).0,
            r is None == offered(old(self).waiting(), old(self).room() as int, event@).1,
            r matches Some(back) ==> back@ == event@,
    {
        let ghost before = self.waiting();
        if self.items.len() < self.capacity {
            self.items.push(event);
            return None;
        }
        let id = match PresenterQueue::id_of(&event) {
            Some(id) => id,
            None => {
                return Some(event);
            },
        };
        let mut i: usize = 0;
        while i < self.items.len()
            invariant
                0 <= i <= self.items.len(),
                self.waiting() == before,
                before == old(self).waiting(),
                carried_id(event@) == Some(id),
                self.items.len() >= self.capacity,
                self.capacity == old(self).capacity,
                before.len() <= self.capacity,
                first_carrying(before, id, 0) == first_carrying(before, id, i as int),
            decreases self.items.len() - i,
        {
            let same = match PresenterQueue::id_of(&self.items[i]) {
                Some(other) => other == id,
                None => false,
            };
            if same {
                self.items.remove(i);
                self.items.push(event);
                return None;
            }
            i += 1;
        }
        Some(event)
    }

    /// Takes the oldest waiting request out of the queue.
    pub fn take(&mut self) -> (r: Option<UiEvent>)
        requires
            old(self).wf(),
        ensures
            final(self).wf(),
            final(self).room() == old(self).room(),
            match r {
                Some(e) => old(self).waiting().len() > 0 && e@ == old(self).waiting()[0]
                    && final(self).waiting() == old(self).waiting().drop_first(),
                None => old(self).waiting().len() == 0 && final(self).waiting() == old(
                    self,
                ).waiting(),
            },
    {
        if self.items.len() == 0 {
            return None;
        }
        let e = self.items.remove(0);
        Some(e)
    }
}

} // verus!
