//! Enumerated values of the API and their wire names.
#![allow(non_camel_case_types)]

use vstd::prelude::*;

verus! {

#[derive(Debug, Clone, Copy, PartialEq, Eq, Structural)]
pub enum InstrumentType {
    COMMODITIES,
    SHARES,
}

#[derive(Debug, Clone, Copy, PartialEq, Eq, Structural)]
pub enum AccountType {
    CFD,
}

#[derive(Debug, Clone, Copy, PartialEq, Eq, Structural)]
pub enum Currency {
    EUR,
    EURd,
    USD,
    AUD,
    PLN,
    AED,
    GBP,
    CHF,
}

#[derive(Debug, Clone, Copy, PartialEq, Eq, Structural)]
pub enum Locale {
    EN,
    DE,
}

#[derive(Debug, Clone, Copy, PartialEq, Eq, Structural)]
pub enum AccountStatus {
    ENABLED,
    DISABLED,
}

/// Long or short side of a deal.
#[derive(Debug, Clone, Copy, PartialEq, Eq, Structural)]
pub enum Direction {
    BUY,
    SELL,
}

impl Direction {
    /// The name of the direction on the wire.
    pub open spec fn wire_name(self) -> Seq<char> {
        match self {
            Direction::BUY => "BUY"@,
            Direction::SELL => "SELL"@,
        }
    }

    pub fn to_string(&self) -> (r: String)
        ensures
            r@ == self.wire_name(),
    {
        match self {
            Direction::BUY => "BUY".to_owned(),
            Direction::SELL => "SELL".to_owned(),
        }
    }

    /// The direction with the wire name `s`, if there is one.
    pub fn from_wire(s: &str) -> (r: Option<Direction>)
        ensures
            r matches Some(x) ==> x.wire_name() == s@,
            r is None ==> forall|x: Direction| #[trigger] x.wire_name() != s@,
    {
        let t = s.to_owned();
        if t == "BUY".to_owned() {
            Some(Direction::BUY)
        } else if t == "SELL".to_owned() {
            Some(Direction::SELL)
        } else {
            None
        }
    }
}

/// Different directions have different wire names, so reading a written
/// name gives back the direction.
pub proof fn lemma_direction_wire_names_distinct(x: Direction, y: Direction)
    ensures
        x.wire_name() == y.wire_name() ==> x == y,
{
    reveal_strlit("BUY");
    reveal_strlit("SELL");
    assert("BUY"@.len() != "SELL"@.len());
}

#[derive(Debug, Clone, Copy, PartialEq, Eq, Structural)]
pub enum TimeZone {
    UTC,
}

#[derive(Debug, Clone, Copy, PartialEq, Eq, Structural)]
pub enum Unit {
    PERCENTAGE,
    POINTS,
}

/// Width of one candle of a price history.
#[derive(Debug, Clone, Copy, PartialEq, Eq, Structural)]
pub enum Resolution {
    MINUTE,
    Minute5,
    Minute15,
    Minute30,
    HOUR,
    Hour4,
    DAY,
    WEEK,
}

impl Resolution {
    /// The name of the resolution on the wire.
    pub open spec fn wire_name(self) -> Seq<char> {
        match self {
            Resolution::MINUTE => "MINUTE"@,
            Resolution::Minute5 => "MINUTE_5"@,
            Resolution::Minute15 => "MINUTE_15"@,
            Resolution::Minute30 => "MINUTE_30"@,
            Resolution::HOUR => "HOUR"@,
            Resolution::Hour4 => "HOUR_4"@,
            Resolution::DAY => "DAY"@,
            Resolution::WEEK => "WEEK"@,
        }
    }

    pub fn to_string(&self) -> (r: String)
        ensures
            r@ == self.wire_name(),
    {
        match self {
            Resolution::MINUTE => "MINUTE".to_owned(),
            Resolution::Minute5 => "MINUTE_5".to_owned(),
            Resolution::Minute15 => "MINUTE_15".to_owned(),
            Resolution::Minute30 => "MINUTE_30".to_owned(),
            Resolution::HOUR => "HOUR".to_owned(),
            Resolution::Hour4 => "HOUR_4".to_owned(),
            Resolution::DAY => "DAY".to_owned(),
            Resolution::WEEK => "WEEK".to_owned(),
        }
    }

    /// The resolution with the wire name `s`, if there is one.
    pub fn from_wire(s: &str) -> (r: Option<Resolution>)
        ensures
            r matches Some(x) ==> x.wire_name() == s@,
            r is None ==> forall|x: Resolution| #[trigger] x.wire_name() != s@,
    {
        let t = s.to_owned();
        if t == "MINUTE".to_owned() {
            Some(Resolution::MINUTE)
        } else if t == "MINUTE_5".to_owned() {
            Some(Resolution::Minute5)
        } else if t == "MINUTE_15".to_owned() {
            Some(Resolution::Minute15)
        } else if t == "MINUTE_30".to_owned() {
            Some(Resolution::Minute30)
        } else if t == "HOUR".to_owned() {
            Some(Resolution::HOUR)
        } else if t == "HOUR_4".to_owned() {
            Some(Resolution::Hour4)
        } else if t == "DAY".to_owned() {
            Some(Resolution::DAY)
        } else if t == "WEEK".to_owned() {
            Some(Resolution::WEEK)
        } else {
            None
        }
    }
}

/// Different resolutions have different wire names, so reading a written
/// name gives back the resolution.
pub proof fn lemma_resolution_wire_names_distinct(x: Resolution, y: Resolution)
    ensures
        x.wire_name() == y.wire_name() ==> x == y,
{
    reveal_strlit("MINUTE");
    reveal_strlit("MINUTE_5");
    reveal_strlit("MINUTE_15");
    reveal_strlit("MINUTE_30");
    reveal_strlit("HOUR");
    reveal_strlit("HOUR_4");
    reveal_strlit("DAY");
    reveal_strlit("WEEK");
    if x.wire_name() == y.wire_name() && x != y {
        let a = x.wire_name();
        let b = y.wire_name();
        assert(a.len() == b.len());
        assert(a[0] == b[0]);
        assert(a.len() > 4 ==> a[a.len() - 1] == b[b.len() - 1]);
        assert(a.len() > 7 ==> a[7] == b[7]);
    }
}

} // verus!
