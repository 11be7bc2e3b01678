//! Epochs: the dates that organise the contents of a bookshelf, how one of
//! them is selected, and which of them an expiration policy lets go.
//!
//! An [`Epoch`] is a day of the proleptic Gregorian calendar, numbered as
//! chrono numbers it (January 1 of year 1 is day 1). What the calendar says
//! of a day number (its year, month, day of the year) comes from chrono.
use vstd::prelude::*;
use vstd::string::StringExecFns;

use chrono::{Datelike, Months, NaiveDate};

use crate::text::same;

verus! {

/// Whether chrono has a date with this day number.
pub uninterp spec fn in_calendar(days: int) -> bool;

/// The year of the day with this number.
pub uninterp spec fn calendar_year(days: int) -> int;

/// The month, from 1, of the day with this number.
pub uninterp spec fn calendar_month(days: int) -> int;

/// The day of the year, from 0, of the day with this number.
pub uninterp spec fn calendar_ordinal0(days: int) -> int;

/// The day number of the date that the text `YYYYMMDD` writes, if it writes one.
pub uninterp spec fn parsed_day(s: Seq<char>) -> Option<int>;

/// The text `YYYYMMDD` of the day with this number.
pub uninterp spec fn day_text(days: int) -> Seq<char>;

/// The day number of the date `months` months before the day `days`.
pub uninterp spec fn months_back(days: int, months: int) -> int;

/// The value of a decimal number as `usize` parses it, if it is one.
pub uninterp spec fn usize_value(s: Seq<char>) -> Option<int>;

/// Relies on chrono's `NaiveDate::from_num_days_from_ce_opt` and `Datelike::year`.
#[verifier::external_body]
fn year_of(days: i32) -> (r: Option<i32>)
    ensures
        r is Some <==> in_calendar(days as int),
        r is Some ==> r.unwrap() == calendar_year(days as int),
{
    let date = NaiveDate::from_num_days_from_ce_opt(days)?;
    Some(date.year())
}

/// Relies on chrono's `NaiveDate::from_num_days_from_ce_opt` and
/// `Datelike::month`, which counts months from 1 to 12.
#[verifier::external_body]
fn month_of(days: i32) -> (r: Option<u32>)
    ensures
        r is Some <==> in_calendar(days as int),
        r is Some ==> r.unwrap() == calendar_month(days as int) && 1 <= r.unwrap() <= 12,
{
    let date = NaiveDate::from_num_days_from_ce_opt(days)?;
    Some(date.month())
}

/// Relies on chrono's `NaiveDate::from_num_days_from_ce_opt` and
/// `Datelike::ordinal0`, which counts the days of a year from 0 to 365.
#[verifier::external_body]
fn ordinal0_of(days: i32) -> (r: Option<u32>)
    ensures
        r is Some <==> in_calendar(days as int),
        r is Some ==> r.unwrap() == calendar_ordinal0(days as int) && r.unwrap() <= 365,
{
    let date = NaiveDate::from_num_days_from_ce_opt(days)?;
    Some(date.ordinal0())
}

/// Relies on chrono's `NaiveDate::parse_from_str` with the format `%Y%m%d`,
/// and on `Datelike::num_days_from_ce` for the parsed date's number.
#[verifier::external_body]
fn parse_day(s: &str) -> (r: Option<i32>)
    ensures
        r is Some <==> parsed_day(s@) is Some,
        r is Some ==> r.unwrap() == parsed_day(s@).unwrap() && in_calendar(r.unwrap() as int),
{
    let date = NaiveDate::parse_from_str(s, "%Y%m%d").ok()?;
    Some(date.num_days_from_ce())
}

/// Relies on chrono's `NaiveDate::format` with the format `%Y%m%d`.
#[verifier::external_body]
fn format_day(days: i32) -> (r: String)
    requires
        in_calendar(days as int),
    ensures
        r@ == day_text(days as int),
{
    let date = NaiveDate::from_num_days_from_ce_opt(days).expect("a day of the calendar");
    date.format("%Y%m%d").to_string()
}

/// Relies on chrono's `NaiveDate::checked_sub_months`, which fails where the
/// result falls outside the calendar.
#[verifier::external_body]
fn sub_months(days: i32, months: u32) -> (r: Option<i32>)
    requires
        in_calendar(days as int),
    ensures
        r is Some ==> r.unwrap() == months_back(days as int, months as int) && in_calendar(
            r.unwrap() as int,
        ),
{
    let date = NaiveDate::from_num_days_from_ce_opt(days).expect("a day of the calendar");
    let earlier = date.checked_sub_months(Months::new(months))?;
    Some(earlier.num_days_from_ce())
}

/// Relies on `str::parse::<usize>`.
#[verifier::external_body]
fn parse_usize(s: &str) -> (r: Option<usize>)
    ensures
        r is Some <==> usize_value(s@) is Some,
        r is Some ==> r.unwrap() == usize_value(s@).unwrap(),
{
    s.parse::<usize>().ok()
}

/// A text that is not an epoch.
#[derive(Debug, Clone)]
pub struct InvalidEpoch {
    value: String,
}

impl InvalidEpoch {
    /// The text that was refused.
    pub closed spec fn value_spec(&self) -> Seq<char> {
        self.value@
    }

    /// The text `value` is not an epoch.
    pub fn new(value: String) -> (r: Self)
        ensures
            r.value_spec() == value@,
    {
        InvalidEpoch { value }
    }

    /// The text that was refused.
    pub fn value(&self) -> (r: &str)
        ensures
            r@ == self.value_spec(),
    {
        self.value.as_str()
    }
}

/// A day used to organise the contents of a library.
#[derive(Debug, Clone, Copy, PartialEq, Eq, Structural, Hash)]
pub struct Epoch {
    days: i32,
    year: i32,
    month: u32,
    ordinal0: u32,
}

impl View for Epoch {
    type V = int;

    /// The day number.
    closed spec fn view(&self) -> int {
        self.days as int
    }
}

impl Epoch {
    /// The epoch is a day of the calendar, and its year, month and day of
    /// the year are the calendar's.
    pub closed spec fn wf(self) -> bool {
        &&& in_calendar(self.days as int)
        &&& self.year == calendar_year(self.days as int)
        &&& self.month == calendar_month(self.days as int)
        &&& self.ordinal0 == calendar_ordinal0(self.days as int)
        &&& 1 <= self.month <= 12
        &&& self.ordinal0 <= 365
    }

    /// The week of its year that the epoch falls in, counted from 0 at January 1.
    pub open spec fn week_spec(self) -> int {
        calendar_ordinal0(self@) / 7
    }

    /// The epoch of day `days`, if the calendar has that day.
    pub fn from_days(days: i32) -> (r: Option<Epoch>)
        ensures
            r is Some <==> in_calendar(days as int),
            r is Some ==> r.unwrap().wf() && r.unwrap()@ == days,
    {
        let year = year_of(days)?;
        let month = month_of(days)?;
        let ordinal0 = ordinal0_of(days)?;
        Some(Epoch { days, year, month, ordinal0 })
    }

    /// The epoch that the text `YYYYMMDD` writes.
    pub fn parse(s: &str) -> (r: Result<Epoch, InvalidEpoch>)
        ensures
            r is Ok <==> parsed_day(s@) is Some,
            r is Ok ==> r->Ok_0.wf() && r->Ok_0@ == parsed_day(s@).unwrap(),
            r is Err ==> r->Err_0.value_spec() == s@,
    {
        match parse_day(s) {
            Some(days) => match Epoch::from_days(days) {
                Some(e) => Ok(e),
                None => Err(InvalidEpoch::new(s.to_owned())),
            },
            None => Err(InvalidEpoch::new(s.to_owned())),
        }
    }

    /// The day number.
    pub fn days(&self) -> (r: i32)
        ensures
            r == self@,
    {
        self.days
    }

    /// The year of the epoch.
    pub fn year(&self) -> (r: i32)
        requires
            self.wf(),
        ensures
            r == calendar_year(self@),
    {
        self.year
    }

    /// The month of the epoch, from 1.
    pub fn month(&self) -> (r: u32)
        requires
            self.wf(),
        ensures
            r == calendar_month(self@),
            1 <= r <= 12,
    {
        self.month
    }

    /// The week of its year that the epoch falls in.
    pub fn week(&self) -> (r: u32)
        requires
            self.wf(),
        ensures
            r == self.week_spec(),
    {
        self.ordinal0 / 7
    }

    /// The epoch as a path component: `YYYYMMDD`.
    pub fn to_path(&self) -> (r: String)
        requires
            self.wf(),
        ensures
            r@ == day_text(self@),
    {
        format_day(self.days)
    }

    /// Whether this epoch comes before `other`.
    pub fn before(&self, other: &Epoch) -> (r: bool)
        ensures
            r == (self@ < other@),
    {
        self.days < other.days
    }
}

/// A way of picking one epoch out of several.
#[derive(Debug, Clone, Copy, PartialEq, Eq, Structural)]
pub enum EpochSelector {
    /// The earliest epoch.
    Earliest,
    /// The latest epoch.
    Latest,
    /// This very epoch.
    Exact(Epoch),
    /// The `n`th latest epoch, counting the latest as 0.
    Nth(usize),
}

/// Epochs in strictly increasing order, as the keys of an ordered map come.
pub open spec fn ascending(epochs: Seq<Epoch>) -> bool {
    forall|i: int, j: int| 0 <= i < j < epochs.len() ==> epochs[i]@ < epochs[j]@
}

impl EpochSelector {
    /// The epoch that this selector picks out of `epochs`.
    pub open spec fn pick(self, epochs: Seq<Epoch>) -> Option<Epoch> {
        match self {
            EpochSelector::Earliest => if epochs.len() > 0 {
                Some(epochs[0])
            } else {
                None
            },
            EpochSelector::Latest => if epochs.len() > 0 {
                Some(epochs.last())
            } else {
                None
            },
            EpochSelector::Exact(e) => if epochs.contains(e) {
                Some(e)
            } else {
                None
            },
            EpochSelector::Nth(n) => if n < epochs.len() {
                Some(epochs[epochs.len() - 1 - n])
            } else {
                None
            },
        }
    }

    /// Read a selector: `earliest`, `latest`, a number below 1000 for the
    /// `n`th latest, or else an epoch `YYYYMMDD`.
    pub fn parse(s: &str) -> (r: Result<EpochSelector, InvalidEpoch>)
        ensures
            s@ == "earliest"@ ==> r == Ok::<EpochSelector, InvalidEpoch>(EpochSelector::Earliest),
            s@ == "latest"@ ==> r == Ok::<EpochSelector, InvalidEpoch>(EpochSelector::Latest),
            s@ != "earliest"@ && s@ != "latest"@ && usize_value(s@) is Some && usize_value(
                s@,
            ).unwrap() < 1000 ==> r == Ok::<EpochSelector, InvalidEpoch>(
                EpochSelector::Nth(usize_value(s@).unwrap() as usize),
            ),
            s@ != "earliest"@ && s@ != "latest"@ && !(usize_value(s@) is Some && usize_value(
                s@,
            ).unwrap() < 1000) ==> match r {
                Ok(EpochSelector::Exact(e)) => parsed_day(s@) == Some(e@) && e.wf(),
                Err(err) => parsed_day(s@) is None && err.value_spec() == s@,
                _ => false,
            },
    {
        proof {
            reveal_strlit("earliest");
            reveal_strlit("latest");
            assert("earliest"@.len() != "latest"@.len());
        }
        if same(s, "earliest") {
            return Ok(EpochSelector::Earliest);
        }
        if same(s, "latest") {
            return Ok(EpochSelector::Latest);
        }
        match parse_usize(s) {
            Some(n) => {
                if n < 1000 {
                    return Ok(EpochSelector::Nth(n));
                }
            },
            None => {},
        }
        match Epoch::parse(s) {
            Ok(e) => Ok(EpochSelector::Exact(e)),
            Err(err) => Err(err),
        }
    }

    /// The epoch that this selector picks out of `epochs`, which are in
    /// increasing order.
    pub fn find(&self, epochs: &[Epoch]) -> (r: Option<Epoch>)
        requires
            ascending(epochs@),
        ensures
            r == self.pick(epochs@),
    {
        let n = epochs.len();
        match self {
            EpochSelector::Earliest => if n > 0 {
                Some(epochs[0])
            } else {
                None
            },
            EpochSelector::Latest => if n > 0 {
                Some(epochs[n - 1])
            } else {
                None
            },
            EpochSelector::Exact(e) => {
                let mut i: usize = 0;
                while i < n
                    invariant
                        n == epochs@.len(),
                        i <= n,
                        *self == EpochSelector::Exact(*e),
                        forall|j: int| 0 <= j < i ==> epochs@[j] != *e,
                    decreases n - i,
                {
                    if epochs[i] == *e {
                        proof {
                            assert(epochs@[i as int] == *e);
                            assert(epochs@.contains(*e));
                        }
                        return Some(*e);
                    }
                    i = i + 1;
                }
                None
            },
            EpochSelector::Nth(k) => if *k < n {
                Some(epochs[n - 1 - *k])
            } else {
                None
            },
        }
    }
}

/// The periods by which an expiration policy keeps epochs.
#[derive(Debug, Clone, Copy, PartialEq, Eq, Structural)]
pub enum Period {
    Daily,
    Weekly,
    Monthly,
    Yearly,
}

/// The period an epoch falls in, as a pair ordered like time: the day; the
/// year and week of the year; the year and month; the year.
pub open spec fn period_key(p: Period, e: Epoch) -> (int, int) {
    match p {
        Period::Daily => (e@, 0),
        Period::Weekly => (calendar_year(e@), e.week_spec()),
        Period::Monthly => (calendar_year(e@), calendar_month(e@)),
        Period::Yearly => (calendar_year(e@), 0),
    }
}

/// Pairs compared first by the first member, then by the second.
pub open spec fn key_at_least(a: (int, int), b: (int, int)) -> bool {
    a.0 > b.0 || (a.0 == b.0 && a.1 >= b.1)
}

/// The oldest periods that an expiration policy still keeps, one per kind of period.
#[derive(Debug, Clone, Copy)]
pub struct Horizons {
    /// The oldest day kept.
    pub daily: (i64, i64),
    /// The oldest year and week kept.
    pub weekly: (i64, i64),
    /// The oldest year and month kept.
    pub monthly: (i64, i64),
    /// The oldest year kept.
    pub yearly: (i64, i64),
}

impl Horizons {
    /// The horizon of one kind of period.
    pub open spec fn of(self, p: Period) -> (int, int) {
        let h = match p {
            Period::Daily => self.daily,
            Period::Weekly => self.weekly,
            Period::Monthly => self.monthly,
            Period::Yearly => self.yearly,
        };
        (h.0 as int, h.1 as int)
    }

    /// Period `p` keeps `e` out of `all`: `e` falls in a period no older
    /// than the horizon, and no epoch of `all` in the same period is earlier.
    pub open spec fn keeps(self, p: Period, e: Epoch, all: Seq<Epoch>) -> bool {
        &&& key_at_least(period_key(p, e), self.of(p))
        &&& forall|i: int|
            0 <= i < all.len() && period_key(p, #[trigger] all[i]) == period_key(p, e) ==> e@
                <= all[i]@
    }

    /// No period keeps `e`.
    pub open spec fn expires(self, e: Epoch, all: Seq<Epoch>) -> bool {
        &&& !self.keeps(Period::Daily, e, all)
        &&& !self.keeps(Period::Weekly, e, all)
        &&& !self.keeps(Period::Monthly, e, all)
        &&& !self.keeps(Period::Yearly, e, all)
    }

    /// The key of `e` for period `p`.
    fn key(p: Period, e: &Epoch) -> (r: (i64, i64))
        requires
            e.wf(),
        ensures
            r.0 as int == period_key(p, *e).0,
            r.1 as int == period_key(p, *e).1,
    {
        match p {
            Period::Daily => (e.days as i64, 0),
            Period::Weekly => (e.year as i64, e.week() as i64),
            Period::Monthly => (e.year as i64, e.month as i64),
            Period::Yearly => (e.year as i64, 0),
        }
    }

    /// The horizon of one kind of period.
    fn horizon(&self, p: Period) -> (r: (i64, i64))
        ensures
            r.0 as int == self.of(p).0,
            r.1 as int == self.of(p).1,
    {
        match p {
            Period::Daily => self.daily,
            Period::Weekly => self.weekly,
            Period::Monthly => self.monthly,
            Period::Yearly => self.yearly,
        }
    }

    /// Whether period `p` keeps `epochs[i]`.
    pub fn is_kept(&self, p: Period, epochs: &[Epoch], i: usize) -> (r: bool)
        requires
            i < epochs@.len(),
            forall|j: int| 0 <= j < epochs@.len() ==> (#[trigger] epochs@[j]).wf(),
        ensures
            r == self.keeps(p, epochs@[i as int], epochs@),
    {
        let e = &epochs[i];
        let k = Horizons::key(p, e);
        let h = self.horizon(p);
        if !(k.0 > h.0 || (k.0 == h.0 && k.1 >= h.1)) {
            return false;
        }
        let n = epochs.len();
        let mut j: usize = 0;
        while j < n
            invariant
                n == epochs@.len(),
                j <= n,
                i < n,
                *e == epochs@[i as int],
                forall|m: int| 0 <= m < n ==> (#[trigger] epochs@[m]).wf(),
                k.0 as int == period_key(p, epochs@[i as int]).0,
                k.1 as int == period_key(p, epochs@[i as int]).1,
                key_at_least(period_key(p, epochs@[i as int]), self.of(p)),
                forall|m: int|
                    0 <= m < j && period_key(p, #[trigger] epochs@[m]) == period_key(
                        p,
                        epochs@[i as int],
                    ) ==> epochs@[i as int]@ <= epochs@[m]@,
            decreases n - j,
        {
            let other = Horizons::key(p, &epochs[j]);
            if other.0 == k.0 && other.1 == k.1 && epochs[j].days < e.days {
                proof {
                    assert(period_key(p, epochs@[j as int]) == period_key(p, epochs@[i as int]));
                }
                return false;
            }
            proof {
                let (a, b) = (period_key(p, epochs@[j as int]), period_key(p, epochs@[i as int]));
                if a == b {
                    assert(a.0 == b.0 && a.1 == b.1);
                }
            }
            j = j + 1;
        }
        true
    }

    /// The epochs of `epochs` that period `p` keeps, each day once.
    pub fn kept(&self, p: Period, epochs: &[Epoch]) -> (r: Vec<Epoch>)
        requires
            forall|j: int| 0 <= j < epochs@.len() ==> (#[trigger] epochs@[j]).wf(),
        ensures
            forall|e: Epoch| r@.contains(e) <==> (epochs@.contains(e) && self.keeps(p, e, epochs@)),
            forall|a: int, b: int| 0 <= a < b < r@.len() ==> r@[a]@ != r@[b]@,
    {
        let mut out: Vec<Epoch> = Vec::new();
        let n = epochs.len();
        let mut i: usize = 0;
        while i < n
            invariant
                n == epochs@.len(),
                i <= n,
                forall|j: int| 0 <= j < n ==> (#[trigger] epochs@[j]).wf(),
                forall|e: Epoch|
                    out@.contains(e) <==> (exists|j: int|
                        0 <= j < i && epochs@[j] == e && self.keeps(p, e, epochs@)),
                forall|a: int, b: int| 0 <= a < b < out@.len() ==> out@[a]@ != out@[b]@,
            decreases n - i,
        {
            let ghost before = out@;
            let keep = self.is_kept(p, epochs, i);
            let dup = holds_day(&out, &epochs[i]);
            if keep && !dup {
                out.push(epochs[i]);
            }
            proof {
                let x = epochs@[i as int];
                if keep && dup {
                    lemma_known_day(before, x, |f: Epoch| exists|j: int|
                        0 <= j < i && epochs@[j] == f && self.keeps(p, f, epochs@), epochs@);
                }
                assert forall|f: Epoch|
                    out@.contains(f) <==> (exists|j: int|
                        0 <= j < i + 1 && epochs@[j] == f && self.keeps(p, f, epochs@)) by {
                    if out@.contains(f) && !before.contains(f) {
                        assert(out@ == before.push(x));
                        let k = choose|k: int| 0 <= k < out@.len() && out@[k] == f;
                        assert(k == before.len());
                    }
                    if f == x && keep && !dup {
                        assert(out@[before.len() as int] == x);
                    }
                    if before.contains(f) {
                        let k = choose|k: int| 0 <= k < before.len() && before[k] == f;
                        assert(out@[k] == f);
                    }
                }
            }
            i = i + 1;
        }
        proof {
            assert forall|e: Epoch|
                out@.contains(e) <==> (epochs@.contains(e) && self.keeps(p, e, epochs@)) by {
                if epochs@.contains(e) && self.keeps(p, e, epochs@) {
                    let j = choose|j: int| 0 <= j < epochs@.len() && epochs@[j] == e;
                }
            }
        }
        out
    }

    /// The epochs of `epochs` that no period keeps, each day once.
    pub fn expired(&self, epochs: &[Epoch]) -> (r: Vec<Epoch>)
        requires
            forall|j: int| 0 <= j < epochs@.len() ==> (#[trigger] epochs@[j]).wf(),
        ensures
            forall|e: Epoch| r@.contains(e) <==> (epochs@.contains(e) && self.expires(e, epochs@)),
            forall|a: int, b: int| 0 <= a < b < r@.len() ==> r@[a]@ != r@[b]@,
    {
        let mut out: Vec<Epoch> = Vec::new();
        let n = epochs.len();
        let mut i: usize = 0;
        while i < n
            invariant
                n == epochs@.len(),
                i <= n,
                forall|j: int| 0 <= j < n ==> (#[trigger] epochs@[j]).wf(),
                forall|e: Epoch|
                    out@.contains(e) <==> (exists|j: int|
                        0 <= j < i && epochs@[j] == e && self.expires(e, epochs@)),
                forall|a: int, b: int| 0 <= a < b < out@.len() ==> out@[a]@ != out@[b]@,
            decreases n - i,
        {
            let ghost before = out@;
            let gone = !self.is_kept(Period::Daily, epochs, i) && !self.is_kept(
                Period::Weekly,
                epochs,
                i,
            ) && !self.is_kept(Period::Monthly, epochs, i) && !self.is_kept(
                Period::Yearly,
                epochs,
                i,
            );
            let dup = holds_day(&out, &epochs[i]);
            if gone && !dup {
                out.push(epochs[i]);
            }
            proof {
                let x = epochs@[i as int];
                if gone && dup {
                    lemma_known_day(before, x, |f: Epoch| exists|j: int|
                        0 <= j < i && epochs@[j] == f && self.expires(f, epochs@), epochs@);
                }
                assert forall|f: Epoch|
                    out@.contains(f) <==> (exists|j: int|
                        0 <= j < i + 1 && epochs@[j] == f && self.expires(f, epochs@)) by {
                    if out@.contains(f) && !before.contains(f) {
                        assert(out@ == before.push(x));
                        let k = choose|k: int| 0 <= k < out@.len() && out@[k] == f;
                        assert(k == before.len());
                    }
                    if f == x && gone && !dup {
                        assert(out@[before.len() as int] == x);
                    }
                    if before.contains(f) {
                        let k = choose|k: int| 0 <= k < before.len() && before[k] == f;
                        assert(out@[k] == f);
                    }
                }
            }
            i = i + 1;
        }
        proof {
            assert forall|e: Epoch|
                out@.contains(e) <==> (epochs@.contains(e) && self.expires(e, epochs@)) by {
                if epochs@.contains(e) && self.expires(e, epochs@) {
                    let j = choose|j: int| 0 <= j < epochs@.len() && epochs@[j] == e;
                }
            }
        }
        out
    }
}

/// Where every epoch of `seen` is a well-formed epoch of `all` and one of
/// them falls on the day of the well-formed `x`, that one is `x`.
proof fn lemma_known_day(seen: Seq<Epoch>, x: Epoch, from: spec_fn(Epoch) -> bool, all: Seq<Epoch>)
    requires
        x.wf(),
        exists|k: int| 0 <= k < seen.len() && seen[k]@ == x@,
        forall|f: Epoch| seen.contains(f) <==> from(f),
        forall|f: Epoch| from(f) ==> all.contains(f),
        forall|j: int| 0 <= j < all.len() ==> (#[trigger] all[j]).wf(),
    ensures
        seen.contains(x),
{
    let k = choose|k: int| 0 <= k < seen.len() && seen[k]@ == x@;
    let f = seen[k];
    assert(seen.contains(f));
    assert(from(f));
    assert(all.contains(f));
    let j = choose|j: int| 0 <= j < all.len() && all[j] == f;
    assert(all[j].wf());
    assert(f == x);
}

/// Whether `out` holds an epoch of the same day as `e`.
fn holds_day(out: &Vec<Epoch>, e: &Epoch) -> (r: bool)
    ensures
        r == exists|k: int| 0 <= k < out@.len() && out@[k]@ == e@,
{
    let mut k: usize = 0;
    while k < out.len()
        invariant
            k <= out@.len(),
            forall|m: int| 0 <= m < k ==> out@[m]@ != e@,
        decreases out@.len() - k,
    {
        if out[k].days == e.days {
            return true;
        }
        k = k + 1;
    }
    false
}

/// How many days, weeks, months and years back an expiration policy keeps
/// one epoch per period.
#[derive(Debug, Clone, Copy)]
pub struct ExpirationPolicy {
    pub days: u32,
    pub weeks: u32,
    pub months: u32,
    pub years: u32,
}

impl Default for ExpirationPolicy {
    fn default() -> (r: Self)
        ensures
            r.days == 7 && r.weeks == 8 && r.months == 12 && r.years == 10,
    {
        ExpirationPolicy { days: 7, weeks: 8, months: 12, years: 10 }
    }
}

impl ExpirationPolicy {
    /// The horizons of this policy, seen from `origin`: the day `days` days
    /// back; the year and week of the day `weeks` weeks back; the year and
    /// month `months` months back; the year `years` years back.
    pub open spec fn horizons_from(self, origin: Epoch, h: Horizons) -> bool {
        let daily = origin@ - self.days;
        let weekly = origin@ - 7 * self.weeks;
        let monthly = months_back(origin@, self.months as int);
        &&& h.of(Period::Daily) == (daily, 0int)
        &&& h.of(Period::Weekly) == (calendar_year(weekly), calendar_ordinal0(weekly) / 7)
        &&& h.of(Period::Monthly) == (calendar_year(monthly), calendar_month(monthly))
        &&& h.of(Period::Yearly) == (calendar_year(origin@) - self.years, 0int)
    }

    /// The horizons of this policy seen from `origin`, or `None` where one of
    /// them falls outside the calendar or the years that `i32` holds.
    pub fn horizons(&self, origin: &Epoch) -> (r: Option<Horizons>)
        requires
            origin.wf(),
        ensures
            r is Some ==> self.horizons_from(*origin, r.unwrap()),
    {
        let daily = Epoch::from_days(checked_days_back(origin.days, self.days as i64)?)?;
        let weekly = Epoch::from_days(checked_days_back(origin.days, 7 * (self.weeks as i64))?)?;
        let monthly = Epoch::from_days(sub_months(origin.days, self.months)?)?;
        if (origin.year as i64) - (self.years as i64) < i32::MIN as i64 {
            return None;
        }
        let yearly = (origin.year as i64) - (self.years as i64);
        Some(
            Horizons {
                daily: (daily.days as i64, 0),
                weekly: (weekly.year as i64, weekly.week() as i64),
                monthly: (monthly.year as i64, monthly.month as i64),
                yearly: (yearly, 0),
            },
        )
    }

    /// The epochs of `epochs` that this policy, seen from `origin`, lets go,
    /// or `None` where a horizon falls outside the calendar.
    pub fn expired(&self, origin: &Epoch, epochs: &[Epoch]) -> (r: Option<Vec<Epoch>>)
        requires
            origin.wf(),
            forall|j: int| 0 <= j < epochs@.len() ==> (#[trigger] epochs@[j]).wf(),
        ensures
            r is Some ==> exists|h: Horizons|
                self.horizons_from(*origin, h) && forall|e: Epoch|
                    r.unwrap()@.contains(e) <==> (epochs@.contains(e) && h.expires(e, epochs@)),
    {
        let h = self.horizons(origin)?;
        Some(h.expired(epochs))
    }
}

/// The day `back` days before `days`, where `i32` holds it.
fn checked_days_back(days: i32, back: i64) -> (r: Option<i32>)
    requires
        0 <= back <= 7 * u32::MAX,
    ensures
        r is Some <==> i32::MIN <= days - back,
        r is Some ==> r.unwrap() == days - back,
{
    let d = (days as i64) - back;
    if d < i32::MIN as i64 {
        None
    } else {
        Some(d as i32)
    }
}

} // verus!
