//! The gestation record: its unit, instants, the rules that change it and
//! the values derived from it.

use vstd::prelude::*;

verus! {

/// The unit in which a gestation duration is counted.
#[derive(Clone, Copy, Debug, PartialEq, Eq, Structural)]
pub enum GestationType {
    Hours,
    Days,
    Weeks,
    Months,
    Mins,
}

/// Seconds in one unit; a month is taken as thirty days.
pub open spec fn unit_seconds(t: GestationType) -> int {
    match t {
        GestationType::Hours => 3600,
        GestationType::Days => 86400,
        GestationType::Weeks => 604800,
        GestationType::Months => 2592000,
        GestationType::Mins => 60,
    }
}

/// The wire code of a unit.
pub open spec fn unit_code(t: GestationType) -> int {
    match t {
        GestationType::Hours => 0,
        GestationType::Days => 1,
        GestationType::Weeks => 2,
        GestationType::Months => 3,
        GestationType::Mins => 4,
    }
}

/// The unit a wire code stands for, if any.
pub open spec fn unit_of_code(v: int) -> Option<GestationType> {
    if v == 0 {
        Some(GestationType::Hours)
    } else if v == 1 {
        Some(GestationType::Days)
    } else if v == 2 {
        Some(GestationType::Weeks)
    } else if v == 3 {
        Some(GestationType::Months)
    } else if v == 4 {
        Some(GestationType::Mins)
    } else {
        None
    }
}

impl GestationType {
    /// Number of seconds that one unit represents (months are 30 days,
    /// an approximation rather than a calendar month).
    pub fn seconds_per_unit(self) -> (r: i64)
        ensures
            r == unit_seconds(self),
            r > 0,
    {
        match self {
            GestationType::Hours => 3600,
            GestationType::Days => 86400,
            GestationType::Weeks => 604800,
            GestationType::Months => 2592000,
            GestationType::Mins => 60,
        }
    }
}

impl GestationType {
    /// Every unit, in wire-code order.
    pub fn variants() -> (r: Vec<GestationType>)
        ensures
            r@.len() == 5,
            forall|i: int| 0 <= i < 5 ==> unit_code(#[trigger] r@[i]) == i,
    {
        vec![
            GestationType::Hours,
            GestationType::Days,
            GestationType::Weeks,
            GestationType::Months,
            GestationType::Mins,
        ]
    }

    /// The unit's name as shown to people.
    pub fn to_string(&self) -> (r: String)
        ensures
            r@ == unit_name(*self),
    {
        match self {
            GestationType::Hours => String::from_str("Hours"),
            GestationType::Days => String::from_str("Days"),
            GestationType::Weeks => String::from_str("Weeks"),
            GestationType::Months => String::from_str("Months"),
            GestationType::Mins => String::from_str("Mins"),
        }
    }

    /// The unit a wire code stands for; an unknown code gives `Hours`.
    pub fn from_code_or_hours(value: u8) -> (r: GestationType)
        ensures
            r == match unit_of_code(value as int) {
                Some(t) => t,
                None => GestationType::Hours,
            },
    {
        match GestationType::try_from(value) {
            Ok(t) => t,
            Err(_) => GestationType::Hours,
        }
    }
}

pub open spec fn unit_name(t: GestationType) -> Seq<char> {
    match t {
        GestationType::Hours => "Hours"@,
        GestationType::Days => "Days"@,
        GestationType::Weeks => "Weeks"@,
        GestationType::Months => "Months"@,
        GestationType::Mins => "Mins"@,
    }
}

impl TryFrom<u8> for GestationType {
    type Error = &'static str;

    fn try_from(value: u8) -> (r: Result<GestationType, &'static str>)
        ensures
            r matches Ok(t) ==> unit_of_code(value as int) == Some(t),
            r is Err ==> unit_of_code(value as int) is None,
    {
        if value == 0 {
            Ok(GestationType::Hours)
        } else if value == 1 {
            Ok(GestationType::Days)
        } else if value == 2 {
            Ok(GestationType::Weeks)
        } else if value == 3 {
            Ok(GestationType::Months)
        } else if value == 4 {
            Ok(GestationType::Mins)
        } else {
            Err("Invalid value for TimeUnit")
        }
    }
}

impl vstd::std_specs::convert::TryFromSpecImpl<u8> for GestationType {
    open spec fn obeys_try_from_spec() -> bool {
        true
    }

    open spec fn try_from_spec(v: u8) -> Result<GestationType, &'static str> {
        match unit_of_code(v as int) {
            Some(t) => Ok(t),
            None => Err("Invalid value for TimeUnit"),
        }
    }
}

impl From<GestationType> for u8 {
    fn from(value: GestationType) -> (r: u8)
        ensures
            r == unit_code(value),
    {
        match value {
            GestationType::Hours => 0,
            GestationType::Days => 1,
            GestationType::Weeks => 2,
            GestationType::Months => 3,
            GestationType::Mins => 4,
        }
    }
}

impl vstd::std_specs::convert::FromSpecImpl<GestationType> for u8 {
    open spec fn obeys_from_spec() -> bool {
        true
    }

    open spec fn from_spec(v: GestationType) -> u8 {
        unit_code(v) as u8
    }
}

impl From<GestationType> for i32 {
    fn from(value: GestationType) -> (r: i32)
        ensures
            r == unit_code(value),
    {
        match value {
            GestationType::Hours => 0,
            GestationType::Days => 1,
            GestationType::Weeks => 2,
            GestationType::Months => 3,
            GestationType::Mins => 4,
        }
    }
}

impl vstd::std_specs::convert::FromSpecImpl<GestationType> for i32 {
    open spec fn obeys_from_spec() -> bool {
        true
    }

    open spec fn from_spec(v: GestationType) -> i32 {
        unit_code(v) as i32
    }
}

/// 0000-01-01T00:00:00Z, the earliest instant a record holds.
pub const MIN_TIMESTAMP_SECS: i64 = -62167219200;

/// 9999-12-31T23:59:59Z, the latest instant a record holds.
pub const MAX_TIMESTAMP_SECS: i64 = 253402300799;

pub const NANOS_PER_SEC: u32 = 1_000_000_000;

/// Nanoseconds within a leap second run on past `NANOS_PER_SEC`, up to this.
pub const NANOS_LEAP_LIMIT: u32 = 2_000_000_000;

/// An instant: whole seconds since 1970-01-01T00:00:00Z and the nanoseconds
/// past that second. It names the moment, whatever zone it is shown in. A
/// leap second is counted as the last second of its minute, its nanoseconds
/// running on past a whole second.
#[derive(Clone, Copy, Debug, PartialEq, Eq, Structural)]
pub struct Timestamp {
    pub secs: i64,
    pub nanos: u32,
}

impl Timestamp {
    /// In the range a record holds (years 0 to 9999), with nanoseconds
    /// below a second, or below two in the last second of a minute.
    pub open spec fn wf(self) -> bool {
        &&& MIN_TIMESTAMP_SECS <= self.secs <= MAX_TIMESTAMP_SECS
        &&& (self.nanos < NANOS_PER_SEC || (self.nanos < NANOS_LEAP_LIMIT && (self.secs as int)
            % 60 == 59))
    }

    /// Builds an instant if it lies in the range a record holds.
    pub fn new(secs: i64, nanos: u32) -> (r: Option<Timestamp>)
        ensures
            r matches Some(t) ==> t.wf() && t.secs == secs && t.nanos == nanos,
            r is None ==> !(Timestamp { secs, nanos }).wf(),
    {
        let m = secs % 60;
        let leap_ok = nanos < NANOS_LEAP_LIMIT && (m == 59 || m == -1);
        if MIN_TIMESTAMP_SECS <= secs && secs <= MAX_TIMESTAMP_SECS && (nanos < NANOS_PER_SEC
            || leap_ok) {
            Some(Timestamp { secs, nanos })
        } else {
            None
        }
    }

    /// Whole seconds from `self` to `later`, rounded down.
    pub fn seconds_until(&self, later: &Timestamp) -> (r: i64)
        requires
            self.wf(),
            later.wf(),
        ensures
            r == elapsed_seconds(*self, *later),
    {
        let d = later.secs - self.secs;
        if later.nanos < self.nanos {
            d - 1
        } else {
            d
        }
    }
}

/// Whole seconds from `from` to `to`, rounded down.
pub open spec fn elapsed_seconds(from: Timestamp, to: Timestamp) -> int {
    (to.secs - from.secs) - (if to.nanos < from.nanos {
        1int
    } else {
        0int
    })
}

/// Most children a record counts.
pub const MAX_CHILDREN: u8 = 12;

/// Longest gestation, in millionths of a unit (a million million units).
pub const MAX_GESTATION_MICROS: u64 = 1_000_000_000_000_000_000;

/// Gestation a new record starts with: eight units (of hours).
pub const DEFAULT_GESTATION_MICROS: u64 = 8_000_000;

pub const MICROS_PER_UNIT: u64 = 1_000_000;

/// Progress is counted in millionths; this is all of it.
pub const PROGRESS_FULL: u32 = 1_000_000;

/// The gestation record kept for one avatar.
#[derive(Clone, Copy, Debug, PartialEq, Eq, Structural)]
pub struct ChildInfo {
    pub conception_time: Option<Timestamp>,
    /// Length of a gestation, in millionths of `gestation`.
    pub gestation_time: u64,
    pub gestation: GestationType,
    pub number_of_childern: u8,
}

impl ChildInfo {
    /// A record counts at most `MAX_CHILDREN` children, has a positive
    /// gestation of bounded length, and a conception time in range.
    pub open spec fn wf(self) -> bool {
        &&& self.number_of_childern <= MAX_CHILDREN
        &&& 1 <= self.gestation_time <= MAX_GESTATION_MICROS
        &&& self.conception_time matches Some(c) ==> c.wf()
    }

    /// The record has a conception time exactly while it counts children.
    /// Every change below keeps this; a record read from elsewhere may lack it.
    pub open spec fn consistent(self) -> bool {
        self.conception_time is None <==> self.number_of_childern == 0
    }

    pub open spec fn default_spec() -> ChildInfo {
        ChildInfo {
            conception_time: None,
            gestation_time: DEFAULT_GESTATION_MICROS,
            gestation: GestationType::Hours,
            number_of_childern: 0,
        }
    }

    /// A new record: no children, eight hours of gestation.
    pub fn default() -> (r: ChildInfo)
        ensures
            r == ChildInfo::default_spec(),
            r.wf(),
            r.consistent(),
    {
        ChildInfo {
            conception_time: None,
            gestation_time: DEFAULT_GESTATION_MICROS,
            gestation: GestationType::Hours,
            number_of_childern: 0,
        }
    }
}

/// Length of a gestation in microseconds.
pub open spec fn total_micro_seconds(r: ChildInfo) -> int {
    r.gestation_time * unit_seconds(r.gestation)
}

/// How far a gestation has gone at `now`, in millionths: none while there is
/// no child or no conception time, none before conception, then in step with
/// the time elapsed, and all of it from the due time on.
pub open spec fn progress_of(r: ChildInfo, now: Timestamp) -> int {
    match r.conception_time {
        None => 0,
        Some(c) => if r.number_of_childern == 0 || elapsed_seconds(c, now) <= 0 {
            0
        } else {
            let p = elapsed_seconds(c, now) * 1_000_000_000_000 / total_micro_seconds(r);
            if p > PROGRESS_FULL {
                PROGRESS_FULL as int
            } else {
                p
            }
        },
    }
}

/// When the gestation ends: conception plus its length in whole seconds; the
/// present when there is no conception time.
pub open spec fn due_time(r: ChildInfo, now: Timestamp) -> Timestamp {
    match r.conception_time {
        None => now,
        Some(c) => Timestamp {
            secs: (c.secs + total_micro_seconds(r) / 1_000_000) as i64,
            nanos: c.nanos,
        },
    }
}

proof fn lemma_unit_seconds_bound(t: GestationType)
    ensures
        1 <= unit_seconds(t) <= 2592000,
{
}

impl ChildInfo {
    /// Length of the gestation in microseconds.
    pub fn total_micro_seconds(&self) -> (r: u128)
        requires
            self.wf(),
        ensures
            r == total_micro_seconds(*self),
            r <= MAX_GESTATION_MICROS as int * 2592000,
    {
        let u = self.gestation.seconds_per_unit() as u128;
        let g = self.gestation_time as u128;
        proof {
            lemma_unit_seconds_bound(self.gestation);
            assert(g * u <= 1_000_000_000_000_000_000 * 2592000) by (nonlinear_arith)
                requires
                    g <= 1_000_000_000_000_000_000,
                    u <= 2592000,
            ;
        }
        g * u
    }

    /// Progress of the gestation at `now`, in millionths (see `progress_of`).
    pub fn progress(&self, now: Timestamp) -> (r: u32)
        requires
            self.wf(),
            now.wf(),
        ensures
            r == progress_of(*self, now),
            r <= PROGRESS_FULL,
    {
        if self.number_of_childern == 0 {
            return 0;
        }
        match self.conception_time {
            None => 0,
            Some(c) => {
                let e = c.seconds_until(&now);
                if e <= 0 {
                    return 0;
                }
                let total = self.total_micro_seconds();
                proof {
                    lemma_unit_seconds_bound(self.gestation);
                    assert(total >= 1) by (nonlinear_arith)
                        requires
                            total == self.gestation_time * unit_seconds(self.gestation),
                            self.gestation_time >= 1,
                            unit_seconds(self.gestation) >= 1,
                    ;
                    assert((e as u128) * 1_000_000_000_000u128 <= 400_000_000_000u128
                        * 1_000_000_000_000u128) by (nonlinear_arith)
                        requires
                            0 < e <= 400_000_000_000,
                    ;
                }
                let p = (e as u128) * 1_000_000_000_000u128 / total;
                if p > PROGRESS_FULL as u128 {
                    PROGRESS_FULL
                } else {
                    p as u32
                }
            },
        }
    }

    /// Whole seconds from `now` until the gestation ends (negative once it
    /// is past), rounded down; `None` without a conception time.
    pub fn seconds_left(&self, now: Timestamp) -> (r: Option<i64>)
        requires
            self.wf(),
            now.wf(),
        ensures
            self.conception_time is None ==> r is None,
            self.conception_time is Some ==> r == Some(
                elapsed_seconds(now, due_time(*self, now)) as i64,
            ),
    {
        match self.conception_time {
            None => None,
            Some(_) => {
                let due = self.due_time(now);
                let d = due.secs - now.secs;
                Some(
                    if due.nanos < now.nanos {
                        d - 1
                    } else {
                        d
                    },
                )
            },
        }
    }

    /// When the gestation ends (see `due_time`).
    pub fn due_time(&self, now: Timestamp) -> (r: Timestamp)
        requires
            self.wf(),
        ensures
            r == due_time(*self, now),
    {
        match self.conception_time {
            None => now,
            Some(c) => {
                let total = self.total_micro_seconds();
                proof {
                    lemma_unit_seconds_bound(self.gestation);
                    assert(total / 1_000_000 <= 2_592_000_000_000_000_000) by (nonlinear_arith)
                        requires
                            total <= 1_000_000_000_000_000_000 * 2592000,
                    ;
                }
                Timestamp { secs: c.secs + (total / 1_000_000) as i64, nanos: c.nanos }
            },
        }
    }
}

/// The record after the peer reports `value` children: a larger count in
/// range is taken, and stamps conception at `now` when none is set; any other
/// report changes nothing.
pub open spec fn counted(r: ChildInfo, value: u8, now: Timestamp) -> ChildInfo {
    if value > r.number_of_childern && value <= MAX_CHILDREN {
        ChildInfo {
            number_of_childern: value,
            conception_time: match r.conception_time {
                None => Some(now),
                Some(c) => Some(c),
            },
            ..r
        }
    } else {
        r
    }
}

/// The record after one child is added: stamped at `now` if there was no
/// conception time, one more child unless the count is at its maximum.
pub open spec fn added(r: ChildInfo, now: Timestamp) -> ChildInfo {
    if r.number_of_childern < MAX_CHILDREN {
        ChildInfo {
            number_of_childern: (r.number_of_childern + 1) as u8,
            conception_time: match r.conception_time {
                None => Some(now),
                Some(c) => Some(c),
            },
            ..r
        }
    } else {
        r
    }
}

/// The record after one child is removed: one fewer child, and no conception
/// time once none is left.
pub open spec fn removed(r: ChildInfo) -> ChildInfo {
    if r.number_of_childern == 0 {
        r
    } else {
        ChildInfo {
            number_of_childern: (r.number_of_childern - 1) as u8,
            conception_time: if r.number_of_childern == 1 {
                None
            } else {
                r.conception_time
            },
            ..r
        }
    }
}

/// The record with conception moved to `now`, while it counts children.
pub open spec fn restarted(r: ChildInfo, now: Timestamp) -> ChildInfo {
    if r.number_of_childern > 0 {
        ChildInfo { conception_time: Some(now), ..r }
    } else {
        r
    }
}

/// The record with a new gestation length, if it is in range.
pub open spec fn with_gestation_time(r: ChildInfo, value: u64) -> ChildInfo {
    if 1 <= value <= MAX_GESTATION_MICROS {
        ChildInfo { gestation_time: value, ..r }
    } else {
        r
    }
}

/// The record with the unit a wire code names (`Hours` for an unknown code);
/// the length keeps its number.
pub open spec fn with_unit_code(r: ChildInfo, code: int) -> ChildInfo {
    ChildInfo {
        gestation: match unit_of_code(code) {
            Some(t) => t,
            None => GestationType::Hours,
        },
        ..r
    }
}

/// The record counted in another unit, its length converted (rounded down)
/// so that it lasts as long as before. Where the converted length would be
/// zero or beyond `MAX_GESTATION_MICROS`, the record is left as it is.
pub open spec fn in_unit(r: ChildInfo, t: GestationType) -> ChildInfo {
    let v = total_micro_seconds(r) / unit_seconds(t);
    if 1 <= v <= MAX_GESTATION_MICROS {
        ChildInfo { gestation: t, gestation_time: v as u64, ..r }
    } else {
        r
    }
}

impl ChildInfo {
    /// The peer reported `value` children (see `counted`).
    pub fn child_counter(&mut self, value: u8, now: Timestamp)
        requires
            old(self).wf(),
            now.wf(),
        ensures
            *final(self) == counted(*old(self), value, now),
            final(self).wf(),
            old(self).consistent() ==> final(self).consistent(),
    {
        if value > self.number_of_childern && value <= MAX_CHILDREN {
            self.number_of_childern = value;
            if self.conception_time.is_none() {
                self.conception_time = Some(now);
            }
        }
    }

    /// One child more (see `added`).
    pub fn add_child(&mut self, now: Timestamp)
        requires
            old(self).wf(),
            now.wf(),
        ensures
            *final(self) == added(*old(self), now),
            final(self).wf(),
            old(self).consistent() ==> final(self).consistent(),
    {
        if self.number_of_childern < MAX_CHILDREN {
            if self.conception_time.is_none() {
                self.conception_time = Some(now);
            }
            self.number_of_childern = self.number_of_childern + 1;
        }
    }

    /// One child fewer (see `removed`).
    pub fn remove_child(&mut self)
        requires
            old(self).wf(),
        ensures
            *final(self) == removed(*old(self)),
            final(self).wf(),
            old(self).consistent() ==> final(self).consistent(),
    {
        if self.number_of_childern != 0 {
            if self.number_of_childern == 1 {
                self.conception_time = None;
            }
            self.number_of_childern = self.number_of_childern - 1;
        }
    }

    /// Conception starts over at `now` (see `restarted`).
    pub fn restart_conception(&mut self, now: Timestamp)
        requires
            old(self).wf(),
            now.wf(),
        ensures
            *final(self) == restarted(*old(self), now),
            final(self).wf(),
            old(self).consistent() ==> final(self).consistent(),
    {
        if self.number_of_childern > 0 {
            self.conception_time = Some(now);
        }
    }

    /// A new gestation length in millionths of the unit (see
    /// `with_gestation_time`).
    pub fn set_gestation_time(&mut self, value: u64)
        requires
            old(self).wf(),
        ensures
            *final(self) == with_gestation_time(*old(self), value),
            final(self).wf(),
            old(self).consistent() ==> final(self).consistent(),
    {
        if 1 <= value && value <= MAX_GESTATION_MICROS {
            self.gestation_time = value;
        }
    }

    /// A new unit from its wire code (see `with_unit_code`).
    pub fn set_gestation_type(&mut self, code: u8)
        requires
            old(self).wf(),
        ensures
            *final(self) == with_unit_code(*old(self), code as int),
            final(self).wf(),
            old(self).consistent() ==> final(self).consistent(),
    {
        self.gestation = GestationType::from_code_or_hours(code);
    }

    /// Counts the same length in another unit (see `in_unit`).
    pub fn change_unit(&mut self, t: GestationType)
        requires
            old(self).wf(),
        ensures
            *final(self) == in_unit(*old(self), t),
            final(self).wf(),
            old(self).consistent() ==> final(self).consistent(),
    {
        let total = self.total_micro_seconds();
        let v = total / (t.seconds_per_unit() as u128);
        if 1 <= v && v <= MAX_GESTATION_MICROS as u128 {
            self.gestation_time = v as u64;
            self.gestation = t;
        }
    }
}

/// Each unit stands for a fixed, positive number of seconds: a minute 60, an
/// hour 3600, a day 86400, a week 604800 and a month 2592000 (thirty days).
pub proof fn lemma_unit_seconds_fixed(t: GestationType)
    ensures
        unit_seconds(t) > 0,
        t == GestationType::Mins ==> unit_seconds(t) == 60,
        t == GestationType::Hours ==> unit_seconds(t) == 3600,
        t == GestationType::Days ==> unit_seconds(t) == 86400,
        t == GestationType::Weeks ==> unit_seconds(t) == 604800,
        t == GestationType::Months ==> unit_seconds(t) == 2592000,
{
}

/// `a` is no later than `b`.
pub open spec fn not_after(a: Timestamp, b: Timestamp) -> bool {
    a.secs < b.secs || (a.secs == b.secs && a.nanos <= b.nanos)
}

/// Progress lies between none and all of it; it is none while the record
/// counts no child or has no conception time; and for a fixed record it
/// never falls as time goes on.
pub proof fn lemma_progress_bounded_monotone(r: ChildInfo, t1: Timestamp, t2: Timestamp)
    requires
        r.wf(),
        t1.wf(),
        t2.wf(),
        not_after(t1, t2),
    ensures
        0 <= progress_of(r, t1) <= PROGRESS_FULL,
        (r.number_of_childern == 0 || r.conception_time is None) ==> progress_of(r, t1) == 0,
        progress_of(r, t1) <= progress_of(r, t2),
{
    if let Some(c) = r.conception_time {
        let e1 = elapsed_seconds(c, t1);
        let e2 = elapsed_seconds(c, t2);
        assert(e1 <= e2);
        let d = total_micro_seconds(r);
        lemma_unit_seconds_bound(r.gestation);
        assert(d >= 1) by (nonlinear_arith)
            requires
                d == r.gestation_time * unit_seconds(r.gestation),
                r.gestation_time >= 1,
                unit_seconds(r.gestation) >= 1,
        ;
        if e1 > 0 {
            vstd::arithmetic::div_mod::lemma_div_is_ordered(
                e1 * 1_000_000_000_000,
                e2 * 1_000_000_000_000,
                d,
            );
            vstd::arithmetic::div_mod::lemma_div_pos_is_pos(e1 * 1_000_000_000_000, d);
        }
    }
}

/// Conception follows the count: taking a larger count, or adding a child,
/// with no conception time set stamps it at `now`; removing a child keeps the
/// conception time, and clears it exactly when the last child goes; a report
/// of fewer children changes nothing.
pub proof fn lemma_conception_follows_count(r: ChildInfo, value: u8, now: Timestamp)
    requires
        r.wf(),
        now.wf(),
    ensures
        (value > r.number_of_childern && value <= MAX_CHILDREN && r.conception_time is None)
            ==> counted(r, value, now).conception_time == Some(now),
        (r.number_of_childern < MAX_CHILDREN && r.conception_time is None) ==> added(
            r,
            now,
        ).conception_time == Some(now),
        (r.number_of_childern > 0 && removed(r).number_of_childern == 0) ==> removed(
            r,
        ).conception_time is None,
        removed(r).number_of_childern > 0 ==> removed(r).conception_time == r.conception_time,
        removed(r).number_of_childern <= r.number_of_childern,
        value <= r.number_of_childern ==> counted(r, value, now) == r,
{
}

} // verus!
