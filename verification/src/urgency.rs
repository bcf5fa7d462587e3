//! Notification urgency levels.

use vstd::prelude::*;
use vstd::std_specs::convert::FromSpecImpl;
use crate::text::str_equal;

verus! {

/// How pressing a notification is. The wire carries it as a byte.
#[derive(Debug, Clone, Copy, PartialEq, Eq, Structural)]
pub enum Urgency {
    Low,
    Normal,
    Critical,
}

impl Urgency {
    /// The wire byte of a level: 0, 1 or 2.
    pub open spec fn level(self) -> int {
        match self {
            Urgency::Low => 0,
            Urgency::Normal => 1,
            Urgency::Critical => 2,
        }
    }

    /// The level a wire byte stands for. Bytes other than 0 and 2 mean normal.
    pub open spec fn from_level(value: int) -> Urgency {
        if value == 0 {
            Urgency::Low
        } else if value == 2 {
            Urgency::Critical
        } else {
            Urgency::Normal
        }
    }

    /// The lower-case name of a level.
    pub open spec fn name(self) -> Seq<char> {
        match self {
            Urgency::Low => "low"@,
            Urgency::Normal => "normal"@,
            Urgency::Critical => "critical"@,
        }
    }

    /// The level that a lower-case name denotes, if it denotes one.
    pub open spec fn from_name(name: Seq<char>) -> Option<Urgency> {
        if name == "low"@ {
            Some(Urgency::Low)
        } else if name == "normal"@ {
            Some(Urgency::Normal)
        } else if name == "critical"@ {
            Some(Urgency::Critical)
        } else {
            None
        }
    }

    /// The wire byte of this level.
    pub fn as_u8(self) -> (r: u8)
        ensures
            r == self.level(),
    {
        match self {
            Urgency::Low => 0,
            Urgency::Normal => 1,
            Urgency::Critical => 2,
        }
    }

    /// The style class a presenter gives a notification of this level.
    pub fn css_class(&self) -> (r: &'static str)
        ensures
            r@ == self.name(),
    {
        match self {
            Urgency::Low => "low",
            Urgency::Normal => "normal",
            Urgency::Critical => "critical",
        }
    }

    /// The name of this level as an owned string.
    pub fn to_string(&self) -> (r: String)
        ensures
            r@ == self.name(),
    {
        self.css_class().to_string()
    }

    /// Reads a level from its exact lower-case name.
    pub fn parse_name(name: &str) -> (r: Option<Urgency>)
        ensures
            r == Urgency::from_name(name@),
    {
        if str_equal(name, "low") {
            Some(Urgency::Low)
        } else if str_equal(name, "normal") {
            Some(Urgency::Normal)
        } else if str_equal(name, "critical") {
            Some(Urgency::Critical)
        } else {
            None
        }
    }
}

impl Default for Urgency {
    fn default() -> (r: Urgency)
        ensures
            r == Urgency::Normal,
    {
        Urgency::Normal
    }
}

impl From<u8> for Urgency {
    fn from(value: u8) -> (r: Urgency) {
        match value {
            0 => Urgency::Low,
            2 => Urgency::Critical,
            _ => Urgency::Normal,
        }
    }
}

impl FromSpecImpl<u8> for Urgency {
    open spec fn obeys_from_spec() -> bool {
        true
    }

    open spec fn from_spec(value: u8) -> Urgency {
        Urgency::from_level(value as int)
    }
}

impl From<Urgency> for u8 {
    fn from(urgency: Urgency) -> (r: u8) {
        urgency.as_u8()
    }
}

impl FromSpecImpl<Urgency> for u8 {
    open spec fn obeys_from_spec() -> bool {
        true
    }

    open spec fn from_spec(urgency: Urgency) -> u8 {
        urgency.level() as u8
    }
}

/// The three levels have distinct names, so a name denotes at most one level.
pub proof fn lemma_name_round_trip(u: Urgency)
    ensures
        Urgency::from_name(u.name()) == Some(u),
        Urgency::from_level(u.level()) == u,
{
    reveal_strlit("low");
    reveal_strlit("normal");
    reveal_strlit("critical");
    assert("normal"@.len() == 6);
    assert("critical"@.len() == 8);
}

} // verus!
