//! Records as they are saved, and the store of every avatar's record.

use vstd::prelude::*;
use crate::gestation::{ChildInfo, GestationType, Timestamp};

verus! {

/// The instant an RFC 3339 text names, as whole seconds since the Unix epoch
/// and nanoseconds past them.
pub uninterp spec fn rfc3339_instant(text: Seq<char>) -> Option<(i64, u32)>;

/// The RFC 3339 text of an instant, written in UTC.
pub uninterp spec fn rfc3339_text(secs: i64, nanos: u32) -> Seq<char>;

/// Relies on chrono's `DateTime::parse_from_rfc3339`, with `timestamp` and
/// `timestamp_subsec_nanos` of its result: the instant the text names,
/// whatever its offset.
#[verifier::external_body]
fn parse_rfc3339(text: &str) -> (r: Option<(i64, u32)>)
    ensures
        r == rfc3339_instant(text@),
{
    match chrono::DateTime::parse_from_rfc3339(text) {
        Ok(d) => Some((d.timestamp(), d.timestamp_subsec_nanos())),
        Err(_) => None,
    }
}

/// Relies on chrono's `DateTime::<Utc>::from_timestamp` and `to_rfc3339`: for
/// a year from 0 to 9999 it writes `YYYY-MM-DDTHH:MM:SS[.fraction]+00:00`
/// (a leap second, nanoseconds past a whole second in the last second of a
/// minute, as second 60), which `parse_from_rfc3339` reads back to the same
/// instant.
#[verifier::external_body]
fn format_rfc3339(secs: i64, nanos: u32) -> (r: String)
    requires
        (Timestamp { secs, nanos }).wf(),
    ensures
        r@ == rfc3339_text(secs, nanos),
        rfc3339_instant(r@) == Some((secs, nanos)),
{
    match chrono::DateTime::<chrono::Utc>::from_timestamp(secs, nanos) {
        Some(d) => d.to_rfc3339(),
        None => String::new(),
    }
}

/// A record as it is written to the save file: the conception time as RFC
/// 3339 text.
#[derive(Clone, Debug)]
pub struct StoredChildInfo {
    pub conception_time: Option<String>,
    /// Length of a gestation, in millionths of `gestation`.
    pub gestation_time: u64,
    pub gestation: GestationType,
    pub number_of_childern: u8,
}

/// Why a stored record cannot be taken back.
#[derive(Clone, Copy, Debug, PartialEq, Eq, Structural)]
pub enum RecordError {
    /// The conception time is not RFC 3339 text of an instant a record holds.
    BadConceptionTime,
    /// A field is out of range.
    OutOfRange,
}

/// The conception time a stored text gives, if it gives one a record holds.
pub open spec fn stored_instant(t: Option<Seq<char>>) -> Option<Option<Timestamp>> {
    match t {
        None => Some(None),
        Some(text) => match rfc3339_instant(text) {
            Some((secs, nanos)) => if (Timestamp { secs, nanos }).wf() {
                Some(Some(Timestamp { secs, nanos }))
            } else {
                None
            },
            None => None,
        },
    }
}

pub open spec fn stored_text(s: StoredChildInfo) -> Option<Seq<char>> {
    match s.conception_time {
        Some(t) => Some(t@),
        None => None,
    }
}

/// What reading a stored record gives.
pub open spec fn decoded(s: StoredChildInfo) -> Result<ChildInfo, RecordError> {
    match stored_instant(stored_text(s)) {
        None => Err(RecordError::BadConceptionTime),
        Some(c) => {
            let r = ChildInfo {
                conception_time: c,
                gestation_time: s.gestation_time,
                gestation: s.gestation,
                number_of_childern: s.number_of_childern,
            };
            if r.wf() {
                Ok(r)
            } else {
                Err(RecordError::OutOfRange)
            }
        },
    }
}

/// `s` is a stored form of `r`: the same fields, and a conception text that
/// names the same instant.
pub open spec fn is_stored_form(r: ChildInfo, s: StoredChildInfo) -> bool {
    &&& s.gestation_time == r.gestation_time
    &&& s.gestation == r.gestation
    &&& s.number_of_childern == r.number_of_childern
    &&& match (r.conception_time, stored_text(s)) {
        (None, None) => true,
        (Some(c), Some(t)) => rfc3339_instant(t) == Some((c.secs, c.nanos)),
        _ => false,
    }
}

impl ChildInfo {
    /// The record's stored form, its conception time written as RFC 3339
    /// text in UTC.
    pub fn serialize(&self) -> (r: StoredChildInfo)
        requires
            self.wf(),
        ensures
            is_stored_form(*self, r),
            r.conception_time matches Some(t) ==> (self.conception_time matches Some(c) && t@
                == rfc3339_text(c.secs, c.nanos)),
    {
        let conception_time = match self.conception_time {
            Some(c) => Some(format_rfc3339(c.secs, c.nanos)),
            None => None,
        };
        StoredChildInfo {
            conception_time,
            gestation_time: self.gestation_time,
            gestation: self.gestation,
            number_of_childern: self.number_of_childern,
        }
    }

    /// Takes a stored record back, checking its conception text and the
    /// ranges of its fields.
    pub fn deserialize(s: &StoredChildInfo) -> (r: Result<ChildInfo, RecordError>)
        ensures
            r == decoded(*s),
    {
        let conception_time = match &s.conception_time {
            None => None,
            Some(text) => match parse_rfc3339(text.as_str()) {
                None => {
                    return Err(RecordError::BadConceptionTime);
                },
                Some((secs, nanos)) => match Timestamp::new(secs, nanos) {
                    Some(t) => Some(t),
                    None => {
                        return Err(RecordError::BadConceptionTime);
                    },
                },
            },
        };
        let r = ChildInfo {
            conception_time,
            gestation_time: s.gestation_time,
            gestation: s.gestation,
            number_of_childern: s.number_of_childern,
        };
        if r.in_range() {
            Ok(r)
        } else {
            Err(RecordError::OutOfRange)
        }
    }

    /// Whether the record's fields are in range (`wf`).
    pub fn in_range(&self) -> (r: bool)
        ensures
            r == self.wf(),
    {
        let time_ok = match self.conception_time {
            None => true,
            Some(c) => Timestamp::new(c.secs, c.nanos).is_some(),
        };
        time_ok && self.number_of_childern <= crate::gestation::MAX_CHILDREN && 1
            <= self.gestation_time && self.gestation_time
            <= crate::gestation::MAX_GESTATION_MICROS
    }
}

/// A record in range, written out and read back, comes back unchanged:
/// the same count, unit and length, and the same conception instant.
pub proof fn lemma_record_round_trip(r: ChildInfo, s: StoredChildInfo)
    requires
        r.wf(),
        is_stored_form(r, s),
    ensures
        decoded(s) == Ok::<ChildInfo, RecordError>(r),
{
}

/// The records a list of entries holds, by identifier.
pub open spec fn entries_map(e: Seq<(String, ChildInfo)>) -> Map<Seq<char>, ChildInfo>
    decreases e.len(),
{
    if e.len() == 0 {
        Map::empty()
    } else {
        entries_map(e.drop_last()).insert(e.last().0@, e.last().1)
    }
}

/// No identifier appears twice.
pub open spec fn keys_unique(e: Seq<(String, ChildInfo)>) -> bool {
    forall|i: int, j: int|
        0 <= i < e.len() && 0 <= j < e.len() && i != j ==> #[trigger] e[i].0@ != #[trigger] e[j].0@
}

proof fn lemma_map_keys(e: Seq<(String, ChildInfo)>, k: Seq<char>)
    ensures
        entries_map(e).contains_key(k) <==> exists|i: int| 0 <= i < e.len() && #[trigger] e[i].0@ == k,
    decreases e.len(),
{
    if e.len() > 0 {
        lemma_map_keys(e.drop_last(), k);
        if exists|i: int| 0 <= i < e.drop_last().len() && #[trigger] e.drop_last()[i].0@ == k {
            let i = choose|i: int| 0 <= i < e.drop_last().len() && #[trigger] e.drop_last()[i].0@ == k;
            assert(e[i].0@ == k);
        }
        if exists|i: int| 0 <= i < e.len() && #[trigger] e[i].0@ == k {
            let i = choose|i: int| 0 <= i < e.len() && #[trigger] e[i].0@ == k;
            if i < e.len() - 1 {
                assert(e.drop_last()[i].0@ == k);
            }
        }
    }
}

proof fn lemma_map_value(e: Seq<(String, ChildInfo)>, i: int)
    requires
        keys_unique(e),
        0 <= i < e.len(),
    ensures
        entries_map(e).contains_key(e[i].0@),
        entries_map(e)[e[i].0@] == e[i].1,
    decreases e.len(),
{
    if i < e.len() - 1 {
        let d = e.drop_last();
        assert(keys_unique(d)) by {
            assert forall|a: int, b: int| 0 <= a < d.len() && 0 <= b < d.len() && a != b implies #[trigger] d[a].0@ != #[trigger] d[b].0@ by {
                assert(d[a] == e[a] && d[b] == e[b]);
            }
        }
        assert(d[i] == e[i]);
        lemma_map_value(d, i);
        assert(e.last().0@ != e[i].0@) by {
            assert(e.last() == e[e.len() - 1]);
        }
    }
}

proof fn lemma_map_update(e: Seq<(String, ChildInfo)>, i: int, x: (String, ChildInfo))
    requires
        keys_unique(e),
        0 <= i < e.len(),
        e[i].0@ == x.0@,
    ensures
        entries_map(e.update(i, x)) == entries_map(e).insert(x.0@, x.1),
    decreases e.len(),
{
    let u = e.update(i, x);
    if i == e.len() - 1 {
        assert(u.drop_last() =~= e.drop_last());
        assert(entries_map(u) =~= entries_map(e).insert(x.0@, x.1));
    } else {
        let d = e.drop_last();
        assert(keys_unique(d)) by {
            assert forall|a: int, b: int| 0 <= a < d.len() && 0 <= b < d.len() && a != b implies #[trigger] d[a].0@ != #[trigger] d[b].0@ by {
                assert(d[a] == e[a] && d[b] == e[b]);
            }
        }
        assert(u.drop_last() =~= d.update(i, x));
        lemma_map_update(d, i, x);
        assert(e.last().0@ != x.0@) by {
            assert(e.last() == e[e.len() - 1]);
        }
        assert(u.last() == e.last());
        assert(entries_map(u) =~= entries_map(e).insert(x.0@, x.1));
    }
}

/// Every avatar's record, keyed by avatar identifier; no key appears twice.
pub struct SaveData {
    pub avatar_ids: Vec<(String, ChildInfo)>,
}

impl SaveData {
    /// Keys are unique and every record is in range.
    pub open spec fn wf(&self) -> bool {
        &&& keys_unique(self.avatar_ids@)
        &&& forall|i: int| 0 <= i < self.avatar_ids@.len() ==> (#[trigger] self.avatar_ids@[i]).1.wf()
    }

    /// The records, by identifier.
    pub open spec fn records(&self) -> Map<Seq<char>, ChildInfo> {
        entries_map(self.avatar_ids@)
    }

    pub fn new() -> (r: SaveData)
        ensures
            r.wf(),
            r.records() == Map::<Seq<char>, ChildInfo>::empty(),
    {
        SaveData { avatar_ids: Vec::new() }
    }

    /// Where `id` stands, if it does.
    fn position(&self, id: &String) -> (r: Option<usize>)
        requires
            self.wf(),
        ensures
            r matches Some(i) ==> i < self.avatar_ids@.len() && self.avatar_ids@[i as int].0@
                == id@,
            r is None ==> !self.records().contains_key(id@),
    {
        let mut i: usize = 0;
        while i < self.avatar_ids.len()
            invariant
                i <= self.avatar_ids@.len(),
                forall|j: int| 0 <= j < i ==> #[trigger] self.avatar_ids@[j].0@ != id@,
            decreases self.avatar_ids@.len() - i,
        {
            if self.avatar_ids[i].0 == *id {
                return Some(i);
            }
            i = i + 1;
        }
        proof {
            lemma_map_keys(self.avatar_ids@, id@);
        }
        None
    }

    /// The record kept for `id`.
    pub fn get(&self, id: &String) -> (r: Option<ChildInfo>)
        requires
            self.wf(),
        ensures
            r == (if self.records().contains_key(id@) {
                Some(self.records()[id@])
            } else {
                None
            }),
            r matches Some(c) ==> c.wf(),
    {
        match self.position(id) {
            Some(i) => {
                proof {
                    lemma_map_value(self.avatar_ids@, i as int);
                }
                Some(self.avatar_ids[i].1)
            },
            None => None,
        }
    }

    /// Keeps `record` for `id`, in place of any record it had.
    pub fn store_record(&mut self, id: &String, record: ChildInfo)
        requires
            old(self).wf(),
            record.wf(),
        ensures
            final(self).wf(),
            final(self).records() == old(self).records().insert(id@, record),
    {
        let entry = (id.clone(), record);
        match self.position(id) {
            Some(i) => {
                proof {
                    lemma_map_update(self.avatar_ids@, i as int, entry);
                }
                let ghost before = self.avatar_ids@;
                self.avatar_ids.set(i, entry);
                assert(self.avatar_ids@ == before.update(i as int, entry));
                assert(keys_unique(self.avatar_ids@)) by {
                    assert forall|a: int, b: int| 0 <= a < self.avatar_ids@.len() && 0 <= b < self.avatar_ids@.len() && a != b implies #[trigger] self.avatar_ids@[a].0@ != #[trigger] self.avatar_ids@[b].0@ by {
                        if a == i {
                            assert(before[i as int].0@ == id@);
                        }
                        if b == i {
                            assert(before[i as int].0@ == id@);
                        }
                    }
                }
            },
            None => {
                let ghost before = self.avatar_ids@;
                proof {
                    lemma_map_keys(before, id@);
                }
                self.avatar_ids.push(entry);
                assert(self.avatar_ids@.drop_last() =~= before);
                assert(keys_unique(self.avatar_ids@)) by {
                    assert forall|a: int, b: int| 0 <= a < self.avatar_ids@.len() && 0 <= b < self.avatar_ids@.len() && a != b implies #[trigger] self.avatar_ids@[a].0@ != #[trigger] self.avatar_ids@[b].0@ by {
                        if a < before.len() && b < before.len() {
                            assert(before[a] == self.avatar_ids@[a] && before[b] == self.avatar_ids@[b]);
                        } else if a < before.len() {
                            assert(before[a] == self.avatar_ids@[a]);
                        } else if b < before.len() {
                            assert(before[b] == self.avatar_ids@[b]);
                        }
                    }
                }
            },
        }
    }
}

} // verus!
