//! The Do-Not-Disturb switch and the schedule that drives it.

use vstd::prelude::*;
use chrono::{Datelike, Timelike};
use crate::config::{DndConfig, Weekday};
use crate::text::opt_text;

verus! {

/// The switch: whether notifications are held back, and whether a person
/// rather than the schedule said so.
#[derive(Debug, Clone, Copy, PartialEq, Eq, Structural)]
pub struct DndState {
    enabled: bool,
    manual: bool,
}

impl DndState {
    /// Whether the switch holds notifications back.
    pub closed spec fn enabled(self) -> bool {
        self.enabled
    }

    /// Whether the switch was last set by hand.
    pub closed spec fn manual(self) -> bool {
        self.manual
    }

    /// The switch with the given two flags.
    pub closed spec fn with(enabled: bool, manual: bool) -> DndState {
        DndState { enabled, manual }
    }

    /// A switch is its two flags.
    pub broadcast proof fn lemma_flags(enabled: bool, manual: bool)
        ensures
            (#[trigger] DndState::with(enabled, manual)).enabled() == enabled,
            DndState::with(enabled, manual).manual() == manual,
    {
    }

    /// Two switches with the same flags are the same switch.
    pub proof fn lemma_same(self, other: DndState)
        requires
            self.enabled() == other.enabled(),
            self.manual() == other.manual(),
        ensures
            self == other,
    {
    }

    /// The switch after the schedule asked for it to be on or off: a
    /// switch that was set by hand stays as it is.
    pub open spec fn scheduled(self, on: bool) -> DndState {
        if self.manual() {
            self
        } else {
            DndState::with(on, false)
        }
    }

    /// A switch that is off and that the schedule may drive.
    pub fn new() -> (r: DndState)
        ensures
            r == DndState::with(false, false),
            !r.enabled(),
            !r.manual(),
    {
        DndState { enabled: false, manual: false }
    }

    /// Whether notifications are held back.
    pub fn is_enabled(&self) -> (r: bool)
        ensures
            r == self.enabled(),
    {
        self.enabled
    }

    /// Whether the switch was last set by hand.
    pub fn is_manual(&self) -> (r: bool)
        ensures
            r == self.manual(),
    {
        self.manual
    }

    /// Switches on by hand.
    pub fn enable(&mut self)
        ensures
            *final(self) == DndState::with(true, true),
            final(self).enabled(),
            final(self).manual(),
    {
        self.enabled = true;
        self.manual = true;
    }

    /// Switches off by hand.
    pub fn disable(&mut self)
        ensures
            *final(self) == DndState::with(false, true),
            !final(self).enabled(),
            final(self).manual(),
    {
        self.enabled = false;
        self.manual = true;
    }

    /// Flips the switch by hand.
    pub fn toggle(&mut self)
        ensures
            *final(self) == DndState::with(!old(self).enabled(), true),
            final(self).enabled() == !old(self).enabled(),
            final(self).manual(),
    {
        self.enabled = !self.enabled;
        self.manual = true;
    }

    /// Switches on for the schedule, unless the switch was set by hand.
    pub fn enable_scheduled(&mut self)
        ensures
            *final(self) == old(self).scheduled(true),
            final(self).enabled() == (old(self).manual() ==> old(self).enabled()),
            final(self).manual() == old(self).manual(),
    {
        if !self.manual {
            self.enabled = true;
        }
    }

    /// Switches off for the schedule, unless the switch was set by hand.
    pub fn disable_scheduled(&mut self)
        ensures
            *final(self) == old(self).scheduled(false),
            final(self).enabled() == (old(self).manual() && old(self).enabled()),
            final(self).manual() == old(self).manual(),
    {
        if !self.manual {
            self.enabled = false;
        }
    }
}

impl Default for DndState {
    fn default() -> (r: DndState)
        ensures
            r == DndState::with(false, false),
            !r.enabled(),
            !r.manual(),
    {
        DndState::new()
    }
}

/// What `chrono::NaiveTime::parse_from_str` reads from a text with the
/// format `%H:%M`: the hour and the minute, or nothing where it refuses
/// the text.
pub uninterp spec fn parsed_clock_time(text: Seq<char>) -> Option<(u32, u32)>;

/// Parses a time of day with `chrono::NaiveTime::parse_from_str` and the
/// format `%H:%M`, and hands out its hour (0 to 23) and minute (0 to 59).
#[verifier::external_body]
fn parse_clock_time(text: &str) -> (r: Option<(u32, u32)>)
    ensures
        r == parsed_clock_time(text@),
        r matches Some((hour, minute)) ==> hour < 24 && minute < 60,
{
    match chrono::NaiveTime::parse_from_str(text, "%H:%M") {
        Ok(t) => Some((t.hour(), t.minute())),
        Err(_) => None,
    }
}

/// Reads the local day of the week, hour (0 to 23) and minute (0 to 59)
/// from `chrono::Local::now`. Nothing is claimed of which they are.
#[verifier::external_body]
fn local_time_of_week() -> (r: (Weekday, u32, u32))
    ensures
        r.1 < 24,
        r.2 < 60,
{
    let now = chrono::Local::now();
    let day = match now.weekday() {
        chrono::Weekday::Mon => Weekday::Monday,
        chrono::Weekday::Tue => Weekday::Tuesday,
        chrono::Weekday::Wed => Weekday::Wednesday,
        chrono::Weekday::Thu => Weekday::Thursday,
        chrono::Weekday::Fri => Weekday::Friday,
        chrono::Weekday::Sat => Weekday::Saturday,
        chrono::Weekday::Sun => Weekday::Sunday,
    };
    (day, now.hour(), now.minute())
}

/// Whether the schedule covers a day: it does where no days are given, or
/// where the day is among those given.
pub open spec fn day_scheduled(days: Seq<Weekday>, day: Weekday) -> bool {
    days.len() == 0 || days.contains(day)
}

/// Whether a minute of the day lies in the quiet period. A period whose
/// end is not after its start runs over midnight.
pub open spec fn in_quiet_period(start: int, end: int, minute_of_day: int) -> bool {
    if start < end {
        start <= minute_of_day < end
    } else {
        minute_of_day >= start || minute_of_day < end
    }
}

/// Whether the schedule asks for quiet at a day and minute of the day.
pub open spec fn quiet_at(days: Seq<Weekday>, start: int, end: int, day: Weekday, minute_of_day: int) -> bool {
    day_scheduled(days, day) && in_quiet_period(start, end, minute_of_day)
}

/// The quiet period of a configuration, as minutes of the day: its start
/// and its end. There is none where a time is missing or does not parse.
pub open spec fn quiet_period(start: Option<Seq<char>>, end: Option<Seq<char>>) -> Option<(int, int)> {
    match (start, end) {
        (Some(s), Some(e)) => match (parsed_clock_time(s), parsed_clock_time(e)) {
            (Some((sh, sm)), Some((eh, em))) => Some((sh * 60 + sm, eh * 60 + em)),
            _ => None,
        },
        _ => None,
    }
}

/// The switch after the schedule looked at the clock: unchanged where there
/// is no quiet period or the switch was set by hand, and else on exactly
/// when the schedule asks for quiet.
pub open spec fn after_tick(
    period: Option<(int, int)>,
    days: Seq<Weekday>,
    state: DndState,
    day: Weekday,
    minute_of_day: int,
) -> DndState {
    match period {
        Some((start, end)) => state.scheduled(quiet_at(days, start, end, day, minute_of_day)),
        None => state,
    }
}

/// Drives the switch from the configured schedule.
pub struct DndScheduler {
    config: DndConfig,
}

impl DndScheduler {
    /// The configuration that the scheduler follows.
    pub closed spec fn config(&self) -> DndConfig {
        self.config
    }

    /// The quiet period that the scheduler follows, if it has one.
    pub open spec fn period(&self) -> Option<(int, int)> {
        quiet_period(opt_text(self.config().schedule_start), opt_text(self.config().schedule_end))
    }

    /// A scheduler for the given configuration.
    pub fn new(config: DndConfig) -> (r: DndScheduler)
        ensures
            r.config() == config,
    {
        DndScheduler { config }
    }

    /// Whether a day is among the given days, or no days are given.
    pub fn is_scheduled_day(days: &Vec<Weekday>, day: Weekday) -> (r: bool)
        ensures
            r == day_scheduled(days@, day),
    {
        if days.len() == 0 {
            return true;
        }
        let mut i: usize = 0;
        while i < days.len()
            invariant
                0 <= i <= days.len(),
                forall|j: int| 0 <= j < i ==> days@[j] != day,
            decreases days.len() - i,
        {
            if days[i] == day {
                return true;
            }
            i += 1;
        }
        false
    }

    /// Whether the schedule asks for quiet at a day and time of day.
    pub fn is_quiet_at(days: &Vec<Weekday>, start: u32, end: u32, day: Weekday, hour: u32, minute: u32) -> (r: bool)
        requires
            hour < 24,
            minute < 60,
        ensures
            r == quiet_at(days@, start as int, end as int, day, hour * 60 + minute),
    {
        if !DndScheduler::is_scheduled_day(days, day) {
            return false;
        }
        let now: u32 = hour * 60 + minute;
        if start < end {
            start <= now && now < end
        } else {
            now >= start || now < end
        }
    }

    /// The configured quiet period as minutes of the day.
    pub fn schedule(&self) -> (r: Option<(u32, u32)>)
        ensures
            match r {
                Some((start, end)) => self.period() == Some((start as int, end as int)) && start
                    < 1440 && end < 1440,
                None => self.period() is None,
            },
    {
        match (&self.config.schedule_start, &self.config.schedule_end) {
            (Some(s), Some(e)) => {
                match (parse_clock_time(s.as_str()), parse_clock_time(e.as_str())) {
                    (Some((sh, sm)), Some((eh, em))) => Some((sh * 60 + sm, eh * 60 + em)),
                    _ => None,
                }
            },
            _ => None,
        }
    }

    /// Sets the switch as the schedule asks for at the given day and time.
    pub fn apply(&self, state: &mut DndState, day: Weekday, hour: u32, minute: u32)
        requires
            hour < 24,
            minute < 60,
        ensures
            *final(state) == after_tick(
                self.period(),
                self.config().schedule_days@,
                *old(state),
                day,
                hour * 60 + minute,
            ),
    {
        match self.schedule() {
            Some((start, end)) => {
                let quiet = DndScheduler::is_quiet_at(
                    &self.config.schedule_days,
                    start,
                    end,
                    day,
                    hour,
                    minute,
                );
                if quiet {
                    state.enable_scheduled();
                } else {
                    state.disable_scheduled();
                }
            },
            None => {},
        }
    }

    /// Reads the local clock and sets the switch as the schedule asks for
    /// now.
    pub fn tick(&self, state: &mut DndState)
        ensures
            exists|day: Weekday, hour: u32, minute: u32|
                hour < 24 && minute < 60 && *final(state) == #[trigger] after_tick(
                    self.period(),
                    self.config().schedule_days@,
                    *old(state),
                    day,
                    hour * 60 + minute,
                ),
    {
        let (day, hour, minute) = local_time_of_week();
        self.apply(state, day, hour, minute);
    }
}

} // verus!
