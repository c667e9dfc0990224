//! Request parameters of the CO-OPS endpoint and their wire tokens.

use vstd::prelude::*;
use crate::calendar::NaiveDate;
use crate::digits::is_digit;
use crate::yyyymmdd::{date_token, lemma_token_eight_digits, serialize};

verus! {

/// Vertical reference plane against which heights are expressed.
#[derive(Debug, Clone, Copy, PartialEq, Eq, Structural)]
pub enum Datum {
    /// Mean Higher High Water
    MHHW,
    /// Mean High Water
    MHW,
    /// Mean Tide Level
    MTL,
    /// Mean Sea Level
    MSL,
    /// Mean Low Water
    MLW,
    /// Mean Lower Low Water (nautical chart datum for all U.S. coastal waters)
    MLLW,
    /// Columbia River Datum
    CRD,
    /// International Great Lakes Datum
    IGLD,
    /// Great Lakes Low Water Datum
    LWD,
    /// North American Vertical Datum
    NAVD,
    /// Station Datum
    STND,
}

impl Datum {
    /// The token that stands for this datum in a query.
    pub open spec fn spec_token(self) -> Seq<char> {
        match self {
            Datum::MHHW => "MHHW"@,
            Datum::MHW => "MHW"@,
            Datum::MTL => "MTL"@,
            Datum::MSL => "MSL"@,
            Datum::MLW => "MLW"@,
            Datum::MLLW => "MLLW"@,
            Datum::CRD => "CRD"@,
            Datum::IGLD => "IGLD"@,
            Datum::LWD => "LWD"@,
            Datum::NAVD => "NAVD"@,
            Datum::STND => "STND"@,
        }
    }

    pub fn token(&self) -> (token: &'static str)
        ensures
            token@ == self.spec_token(),
    {
        match self {
            Datum::MHHW => "MHHW",
            Datum::MHW => "MHW",
            Datum::MTL => "MTL",
            Datum::MSL => "MSL",
            Datum::MLW => "MLW",
            Datum::MLLW => "MLLW",
            Datum::CRD => "CRD",
            Datum::IGLD => "IGLD",
            Datum::LWD => "LWD",
            Datum::NAVD => "NAVD",
            Datum::STND => "STND",
        }
    }

    /// No two datums share a token.
    pub proof fn lemma_token_injective(a: Datum, b: Datum)
        requires
            a.spec_token() == b.spec_token(),
        ensures
            a == b,
    {
        reveal_strlit("MHHW");
        reveal_strlit("MHW");
        reveal_strlit("MTL");
        reveal_strlit("MSL");
        reveal_strlit("MLW");
        reveal_strlit("MLLW");
        reveal_strlit("CRD");
        reveal_strlit("IGLD");
        reveal_strlit("LWD");
        reveal_strlit("NAVD");
        reveal_strlit("STND");
        assert("MHHW"@.len() == 4 && "MHHW"@[0] == 'M' && "MHHW"@[1] == 'H');
        assert("MHW"@.len() == 3 && "MHW"@[0] == 'M' && "MHW"@[1] == 'H');
        assert("MTL"@.len() == 3 && "MTL"@[0] == 'M' && "MTL"@[1] == 'T');
        assert("MSL"@.len() == 3 && "MSL"@[0] == 'M' && "MSL"@[1] == 'S');
        assert("MLW"@.len() == 3 && "MLW"@[0] == 'M' && "MLW"@[1] == 'L');
        assert("MLLW"@.len() == 4 && "MLLW"@[0] == 'M' && "MLLW"@[1] == 'L');
        assert("CRD"@.len() == 3 && "CRD"@[0] == 'C' && "CRD"@[1] == 'R');
        assert("IGLD"@.len() == 4 && "IGLD"@[0] == 'I' && "IGLD"@[1] == 'G');
        assert("LWD"@.len() == 3 && "LWD"@[0] == 'L' && "LWD"@[1] == 'W');
        assert("NAVD"@.len() == 4 && "NAVD"@[0] == 'N' && "NAVD"@[1] == 'A');
        assert("STND"@.len() == 4 && "STND"@[0] == 'S' && "STND"@[1] == 'T');
    }
}

/// Clock in which times are reported.
#[derive(Debug, Clone, Copy, PartialEq, Eq, Structural)]
#[allow(non_camel_case_types)]
pub enum Timezone {
    /// Greenwich Mean Time
    GMT,
    /// Local Standard Time of the station, not corrected for daylight saving
    LST,
    /// Local Standard Time of the station, corrected for daylight saving
    LST_LDT,
}

impl Timezone {
    /// The token that stands for this time zone in a query.
    pub open spec fn spec_token(self) -> Seq<char> {
        match self {
            Timezone::GMT => "gmt"@,
            Timezone::LST => "lst"@,
            Timezone::LST_LDT => "lst_ldt"@,
        }
    }

    pub fn token(&self) -> (token: &'static str)
        ensures
            token@ == self.spec_token(),
    {
        match self {
            Timezone::GMT => "gmt",
            Timezone::LST => "lst",
            Timezone::LST_LDT => "lst_ldt",
        }
    }

    /// No two time zones share a token.
    pub proof fn lemma_token_injective(a: Timezone, b: Timezone)
        requires
            a.spec_token() == b.spec_token(),
        ensures
            a == b,
    {
        reveal_strlit("gmt");
        reveal_strlit("lst");
        reveal_strlit("lst_ldt");
        assert("gmt"@.len() == 3 && "gmt"@[0] == 'g');
        assert("lst"@.len() == 3 && "lst"@[0] == 'l');
        assert("lst_ldt"@.len() == 7 && "lst_ldt"@[0] == 'l');
    }
}

/// Sampling granularity of a prediction series.
#[derive(Debug, Clone, Copy, PartialEq, Eq, Structural)]
pub enum Interval {
    /// One sample per hour
    Hourly,
    /// Only the high and low tide events
    HighLow,
    OneMinute,
    FiveMinutes,
    SixMinutes,
    TenMinutes,
    FifteenMinutes,
    ThirtyMinutes,
    SixtyMinutes,
}

impl Interval {
    /// The token that stands for this interval in a query.
    pub open spec fn spec_token(self) -> Seq<char> {
        match self {
            Interval::Hourly => "h"@,
            Interval::HighLow => "hilo"@,
            Interval::OneMinute => "1"@,
            Interval::FiveMinutes => "5"@,
            Interval::SixMinutes => "6"@,
            Interval::TenMinutes => "10"@,
            Interval::FifteenMinutes => "15"@,
            Interval::ThirtyMinutes => "30"@,
            Interval::SixtyMinutes => "60"@,
        }
    }

    pub fn token(&self) -> (token: &'static str)
        ensures
            token@ == self.spec_token(),
    {
        match self {
            Interval::Hourly => "h",
            Interval::HighLow => "hilo",
            Interval::OneMinute => "1",
            Interval::FiveMinutes => "5",
            Interval::SixMinutes => "6",
            Interval::TenMinutes => "10",
            Interval::FifteenMinutes => "15",
            Interval::ThirtyMinutes => "30",
            Interval::SixtyMinutes => "60",
        }
    }

    /// No two intervals share a token.
    pub proof fn lemma_token_injective(a: Interval, b: Interval)
        requires
            a.spec_token() == b.spec_token(),
        ensures
            a == b,
    {
        reveal_strlit("h");
        reveal_strlit("hilo");
        reveal_strlit("1");
        reveal_strlit("5");
        reveal_strlit("6");
        reveal_strlit("10");
        reveal_strlit("15");
        reveal_strlit("30");
        reveal_strlit("60");
        assert("h"@.len() == 1 && "h"@[0] == 'h');
        assert("hilo"@.len() == 4 && "hilo"@[0] == 'h' && "hilo"@[1] == 'i');
        assert("1"@.len() == 1 && "1"@[0] == '1');
        assert("5"@.len() == 1 && "5"@[0] == '5');
        assert("6"@.len() == 1 && "6"@[0] == '6');
        assert("10"@.len() == 2 && "10"@[0] == '1' && "10"@[1] == '0');
        assert("15"@.len() == 2 && "15"@[0] == '1' && "15"@[1] == '5');
        assert("30"@.len() == 2 && "30"@[0] == '3' && "30"@[1] == '0');
        assert("60"@.len() == 2 && "60"@[0] == '6' && "60"@[1] == '0');
    }
}

/// System of units in which values are reported.
#[derive(Debug, Clone, Copy, PartialEq, Eq, Structural)]
pub enum Units {
    /// Metric units (Celsius, meters, cm/s)
    Metric,
    /// English units (Fahrenheit, feet, knots)
    English,
}

impl Units {
    /// The token that stands for this system of units in a query.
    pub open spec fn spec_token(self) -> Seq<char> {
        match self {
            Units::Metric => "metric"@,
            Units::English => "english"@,
        }
    }

    pub fn token(&self) -> (token: &'static str)
        ensures
            token@ == self.spec_token(),
    {
        match self {
            Units::Metric => "metric",
            Units::English => "english",
        }
    }

    /// No two systems of units share a token.
    pub proof fn lemma_token_injective(a: Units, b: Units)
        requires
            a.spec_token() == b.spec_token(),
        ensures
            a == b,
    {
        reveal_strlit("metric");
        reveal_strlit("english");
        assert("metric"@.len() == 6);
        assert("english"@.len() == 7);
    }
}

/// The parameters of a query as the contracts see them: name and value.
pub open spec fn pairs_view(pairs: Seq<(String, String)>) -> Seq<(Seq<char>, Seq<char>)> {
    pairs.map_values(|pair: (String, String)| (pair.0@, pair.1@))
}

/// The days that a request covers, from the first to the last.
///
/// Nothing asks that the first day comes before the last; the endpoint
/// answers a range that it cannot serve with an error of its own.
#[derive(Debug, Clone, Copy, PartialEq, Eq, Structural)]
pub struct DateRange {
    pub begin_date: NaiveDate,
    pub end_date: NaiveDate,
}

impl DateRange {
    /// The two parameters of the range: each bound under its name, written
    /// as a date token.
    pub open spec fn spec_parameters(self) -> Seq<(Seq<char>, Seq<char>)> {
        seq![
            ("begin_date"@, date_token(self.begin_date@)),
            ("end_date"@, date_token(self.end_date@)),
        ]
    }

    pub fn parameters(&self) -> (pairs: Vec<(String, String)>)
        ensures
            pairs_view(pairs@) == self.spec_parameters(),
    {
        let mut pairs: Vec<(String, String)> = Vec::new();
        pairs.push(("begin_date".to_owned(), serialize(&self.begin_date)));
        pairs.push(("end_date".to_owned(), serialize(&self.end_date)));
        pairs
    }
}

/// Each bound of a range within the years 0 to 9999 is sent as eight
/// digits.
pub proof fn lemma_range_eight_digits(range: DateRange)
    requires
        range.begin_date@.valid(),
        range.end_date@.valid(),
        0 <= range.begin_date@.year <= 9999,
        0 <= range.end_date@.year <= 9999,
    ensures
        range.spec_parameters().len() == 2,
        forall|k: int|
            #![trigger range.spec_parameters()[k]]
            0 <= k < 2 ==> {
                let token = range.spec_parameters()[k].1;
                token.len() == 8 && forall|i: int| 0 <= i < 8 ==> is_digit(#[trigger] token[i])
            },
{
    lemma_token_eight_digits(range.begin_date@);
    lemma_token_eight_digits(range.end_date@);
}

} // verus!
