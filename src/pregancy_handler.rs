//! The dispatch state machine: inbound messages, people's edits and avatar
//! checks change the working record and say what to send and store.

use vstd::prelude::*;
use crate::gestation::{
    added, counted, removed, restarted, with_gestation_time, with_unit_code, in_unit, progress_of,
    unit_code, ChildInfo, GestationType, Timestamp,
};
use crate::numeral::{
    chars_of, decimal_micros, int_code, parse_micros, parse_u8, signed_value, text_equals,
    u8_of_text, MICROS_TEXT_LIMIT,
};
use crate::utils::{json_path_exists, json_pointer};
use crate::osc_server::{
    converted, decode_datagram, osc_message_of, starts_with, OscMessage, OscServer, OscValue,
    DATAGRAM_LIMIT,
};
use crate::stored::SaveData;

verus! {

/// The peer reports its child count here.
pub const CHILD_COUNT_IN: &'static str = "/avatar/parameters/Childcount";

/// The gestation length, in and out.
pub const GESTATION_TIME_ADDR: &'static str = "/avatar/parameters/GestationTime";

/// The gestation unit's code, in and out.
pub const GESTATION_ADDR: &'static str = "/avatar/parameters/Gestation";

/// The child count we send.
pub const CHILD_COUNT_OUT: &'static str = "/avatar/parameters/ChildCount";

pub const IS_PREGNANT_ADDR: &'static str = "/avatar/parameters/IsPregnant";

/// Progress, sent on every broadcast tick.
pub const PROGRESS_ADDR: &'static str = "/avatar/parameters/PregnancySave";

/// The peer loaded another avatar.
pub const AVATAR_CHANGE_ADDR: &'static str = "/avatar/change";

/// Where in the parameter tree an avatar that carries the system has its
/// progress parameter.
pub const SYSTEM_PATH: &'static str = "/CONTENTS/PregnancySave";

/// An outbound message, as an address and its arguments.
pub open spec fn message_view(m: OscMessage) -> (Seq<char>, Seq<OscValue>) {
    (m.addr@, m.args@)
}

pub open spec fn messages_view(v: Seq<OscMessage>) -> Seq<(Seq<char>, Seq<OscValue>)> {
    v.map_values(|m: OscMessage| message_view(m))
}

/// A change a person makes to the working record.
#[derive(Clone, Copy, Debug, PartialEq, Eq, Structural)]
pub enum UserEdit {
    AddChild,
    RemoveChild,
    /// Conception starts over now.
    RestartConception,
    /// Count the same length in another unit.
    SetUnit(GestationType),
    /// A new length, in millionths of the unit.
    SetGestationTime(u64),
}

/// The record after a person's edit.
pub open spec fn edited(r: ChildInfo, e: UserEdit, now: Timestamp) -> ChildInfo {
    match e {
        UserEdit::AddChild => added(r, now),
        UserEdit::RemoveChild => removed(r),
        UserEdit::RestartConception => restarted(r, now),
        UserEdit::SetUnit(t) => in_unit(r, t),
        UserEdit::SetGestationTime(v) => with_gestation_time(r, v),
    }
}

/// The message that reports a changed child count, if it changed.
pub open spec fn count_messages(before: ChildInfo, after: ChildInfo) -> Seq<(Seq<char>, Seq<OscValue>)> {
    if after.number_of_childern != before.number_of_childern {
        seq![(CHILD_COUNT_OUT@, seq![OscValue::Int(after.number_of_childern as i32)])]
    } else {
        Seq::empty()
    }
}

/// What one inbound message asks of the rest of the program.
pub struct Reaction {
    /// Messages to send, in order.
    pub outbound: Vec<OscMessage>,
    /// The current record is to be written to the save store.
    pub persist: bool,
    /// The avatar is to be checked again (see `check_avatar_oscquery`).
    pub recheck_avatar: bool,
}

/// What checking the loaded avatar asks of the rest of the program.
pub struct AvatarCheck {
    /// Messages to send, in order.
    pub outbound: Vec<OscMessage>,
    /// The save store took the avatar's record and is to be written back.
    pub store_changed: bool,
}

/// The dispatch state: whether an avatar carrying the system is loaded
/// (`None` until first checked), and the working copy of its record.
pub struct PregancyHandler {
    pub system_active: Option<bool>,
    pub child_data: Option<ChildInfo>,
}

/// The argument of a message in its shortest notation, or the whole printed
/// list where it does not read as one argument.
pub open spec fn arg_text(args: Seq<char>) -> Seq<char> {
    match converted(args) {
        Some((_, v)) => v,
        None => args,
    }
}

/// `[Int(v)]` with `v` an integer of any size, which is more than a printed
/// argument list reads back as (see `converted`).
pub open spec fn printed_int(args: Seq<char>) -> Option<int> {
    let n = args.len();
    if n >= 8 && starts_with(args, seq!['[', 'I', 'n', 't', '(']) && args[n - 2] == ')' && args[n
        - 1] == ']' {
        signed_value(args.subrange(5, n - 2))
    } else {
        None
    }
}

/// The integer that the argument of a unit message gives, if it is one.
pub open spec fn unit_arg(args: Seq<char>) -> Option<int> {
    match converted(args) {
        Some((_, v)) => signed_value(v),
        None => printed_int(args),
    }
}

/// The record after an inbound message at `addr` with printed arguments
/// `args`, or `None` where the message does not change it (another address,
/// or a count or length that does not read as one). A unit message always
/// applies: an argument that is no code of a unit gives `Hours`.
pub open spec fn record_after(r: ChildInfo, addr: Seq<char>, args: Seq<char>, now: Timestamp) -> Option<
    ChildInfo,
> {
    if addr == CHILD_COUNT_IN@ {
        match u8_of_text(arg_text(args)) {
            Some(v) => Some(counted(r, v, now)),
            None => None,
        }
    } else if addr == GESTATION_TIME_ADDR@ {
        match decimal_micros(arg_text(args)) {
            Some(m) => if m <= MICROS_TEXT_LIMIT {
                Some(with_gestation_time(r, m as u64))
            } else {
                None
            },
            None => None,
        }
    } else if addr == GESTATION_ADDR@ {
        Some(
            with_unit_code(
                r,
                match unit_arg(args) {
                    Some(c) => c,
                    None => -1,
                },
            ),
        )
    } else {
        None
    }
}

pub open spec fn is_active(h: PregancyHandler) -> bool {
    h.system_active == Some(true) && h.child_data is Some
}

/// An inbound message changes the working record: the system is active and
/// the message is one that changes a record.
pub open spec fn applies(h: PregancyHandler, addr: Seq<char>, args: Seq<char>, now: Timestamp) -> bool {
    is_active(h) && record_after(h.child_data.unwrap(), addr, args, now) is Some
}

/// The dispatch state after an inbound message.
pub open spec fn handled_state(h: PregancyHandler, addr: Seq<char>, args: Seq<char>, now: Timestamp) -> PregancyHandler {
    if applies(h, addr, args, now) {
        PregancyHandler { child_data: record_after(h.child_data.unwrap(), addr, args, now), ..h }
    } else {
        h
    }
}

/// What an inbound message sends: the new child count when it changed.
pub open spec fn handled_messages(h: PregancyHandler, addr: Seq<char>, args: Seq<char>, now: Timestamp) -> Seq<(Seq<char>, Seq<OscValue>)> {
    if applies(h, addr, args, now) {
        count_messages(h.child_data.unwrap(), record_after(h.child_data.unwrap(), addr, args, now).unwrap())
    } else {
        Seq::empty()
    }
}

/// The messages that resynchronise the peer with a record: its length, its
/// unit, and, while it counts children, the count and the pregnant flag.
pub open spec fn sync_messages(r: ChildInfo) -> Seq<(Seq<char>, Seq<OscValue>)> {
    let base = seq![
        (GESTATION_TIME_ADDR@, seq![OscValue::Micros(r.gestation_time as i64)]),
        (GESTATION_ADDR@, seq![OscValue::Int(unit_code(r.gestation) as i32)]),
    ];
    if r.number_of_childern > 0 {
        base + seq![
            (CHILD_COUNT_OUT@, seq![OscValue::Int(r.number_of_childern as i32)]),
            (IS_PREGNANT_ADDR@, seq![OscValue::Bool(true)]),
        ]
    } else {
        base
    }
}

fn message(addr: &str, arg: OscValue) -> (m: OscMessage)
    ensures
        message_view(m) == (addr@, seq![arg]),
{
    let args = vec![arg];
    OscMessage { addr: String::from_str(addr), args }
}

/// The `/CONTENTS/PregnancySave` parameter is in the tree: the loaded
/// avatar carries the system.
pub fn tree_has_system(tree: &Option<serde_json::Value>) -> (r: bool)
    ensures
        r == (*tree matches Some(doc) && json_pointer(doc, SYSTEM_PATH@) is Some),
{
    match tree {
        Some(doc) => json_path_exists(doc, SYSTEM_PATH),
        None => false,
    }
}

impl PregancyHandler {
    pub open spec fn wf(&self) -> bool {
        self.child_data matches Some(r) ==> r.wf()
    }

    pub fn new() -> (r: PregancyHandler)
        ensures
            r.wf(),
            r.system_active is None,
            r.child_data is None,
    {
        PregancyHandler { system_active: None, child_data: None }
    }

    pub fn get_system_active(&self) -> (r: Option<bool>)
        ensures
            r == self.system_active,
    {
        self.system_active
    }

    pub fn set_system_active(&mut self, value: bool)
        ensures
            final(self).system_active == Some(value),
            final(self).child_data == old(self).child_data,
    {
        self.system_active = Some(value);
    }

    pub fn get_child_data(&self) -> (r: Option<ChildInfo>)
        ensures
            r == self.child_data,
    {
        self.child_data
    }

    pub fn set_child_data(&mut self, value: ChildInfo)
        ensures
            final(self).child_data == Some(value),
            final(self).system_active == old(self).system_active,
    {
        self.child_data = Some(value);
    }

    pub fn clear_child_data(&mut self)
        ensures
            final(self).child_data is None,
            final(self).system_active == old(self).system_active,
    {
        self.child_data = None;
    }

    /// Children in the working record, none without one.
    pub fn get_child_count(&self) -> (r: u8)
        ensures
            r == match self.child_data {
                Some(c) => c.number_of_childern,
                None => 0,
            },
    {
        match self.child_data {
            Some(c) => c.number_of_childern,
            None => 0,
        }
    }

    pub fn get_conception_time(&self) -> (r: Option<Timestamp>)
        ensures
            r == match self.child_data {
                Some(c) => c.conception_time,
                None => None,
            },
    {
        match self.child_data {
            Some(c) => c.conception_time,
            None => None,
        }
    }

    /// Gestation length of the working record in millionths of its unit;
    /// a new record's when there is none.
    pub fn get_gestation_time(&self) -> (r: u64)
        ensures
            r == match self.child_data {
                Some(c) => c.gestation_time,
                None => ChildInfo::default_spec().gestation_time,
            },
    {
        match self.child_data {
            Some(c) => c.gestation_time,
            None => ChildInfo::default().gestation_time,
        }
    }

    /// Unit of the working record; hours when there is none.
    pub fn get_gestation_type(&self) -> (r: GestationType)
        ensures
            r == match self.child_data {
                Some(c) => c.gestation,
                None => GestationType::Hours,
            },
    {
        match self.child_data {
            Some(c) => c.gestation,
            None => GestationType::Hours,
        }
    }

    /// Drops the working record's conception time.
    pub fn clear_conception_time(&mut self)
        ensures
            final(self).system_active == old(self).system_active,
            final(self).child_data == match old(self).child_data {
                Some(c) => Some(ChildInfo { conception_time: None, ..c }),
                None => None,
            },
    {
        if let Some(c) = &mut self.child_data {
            c.conception_time = None;
        }
    }

    /// Sets the working record's unit from its wire code (hours for an
    /// unknown code).
    pub fn set_gestation_type(&mut self, value: u8)
        requires
            old(self).wf(),
        ensures
            final(self).wf(),
            final(self).system_active == old(self).system_active,
            final(self).child_data == match old(self).child_data {
                Some(c) => Some(with_unit_code(c, value as int)),
                None => None,
            },
    {
        if let Some(c) = &mut self.child_data {
            c.set_gestation_type(value);
        }
    }

    /// Keeps the working record in the store under `avatar_id`; without a
    /// working record the store is left alone.
    pub fn save_data(&self, store: &mut SaveData, avatar_id: &String)
        requires
            self.wf(),
            old(store).wf(),
        ensures
            final(store).wf(),
            final(store).records() == match self.child_data {
                Some(c) => old(store).records().insert(avatar_id@, c),
                None => old(store).records(),
            },
    {
        if let Some(c) = self.child_data {
            store.store_record(avatar_id, c);
        }
    }
}

impl PregancyHandler {
    /// Reads the argument of an inbound message as text (see `arg_text`).
    fn value_text(args: &str) -> (r: String)
        ensures
            r@ == arg_text(args@),
    {
        match OscServer::auto_convert(args) {
            Some((_, v)) => v,
            None => String::from_str(args),
        }
    }

    /// The integer of a unit message's argument (see `unit_arg`), telling
    /// whether it is a `u8`.
    fn unit_argument(args: &str) -> (r: Option<Option<u8>>)
        ensures
            match unit_arg(args@) {
                None => r is None,
                Some(v) => r == Some(
                    if 0 <= v <= 255 {
                        Some(v as u8)
                    } else {
                        None::<u8>
                    },
                ),
            },
    {
        match OscServer::auto_convert(args) {
            Some((_, t)) => int_code(t.as_str()),
            None => {
                let v = chars_of(args);
                let n = v.len();
                proof {
                    reveal_strlit("[Int(");
                }
                let head = chars_of("[Int(");
                assert(head@ =~= seq!['[', 'I', 'n', 't', '(']);
                if n >= 8 && v[0] == head[0] && v[1] == head[1] && v[2] == head[2] && v[3] == head[3]
                    && v[4] == head[4] && v[n - 2] == ')' && v[n - 1] == ']' {
                    assert(args@.take(5) =~= seq!['[', 'I', 'n', 't', '(']);
                    let inner = args.substring_char(5, n - 2);
                    int_code(inner)
                } else {
                    assert(printed_int(args@) is None) by {
                        if n >= 8 && starts_with(args@, seq!['[', 'I', 'n', 't', '(']) {
                            assert(args@.take(5)[0] == args@[0]);
                            assert(args@.take(5)[1] == args@[1]);
                            assert(args@.take(5)[2] == args@[2]);
                            assert(args@.take(5)[3] == args@[3]);
                            assert(args@.take(5)[4] == args@[4]);
                        }
                    }
                    None
                }
            },
        }
    }

    /// The record after an inbound message, or `None` (see `record_after`).
    fn apply_message(r: ChildInfo, addr: &str, args: &str, now: Timestamp) -> (out: Option<ChildInfo>)
        requires
            r.wf(),
            now.wf(),
        ensures
            out == record_after(r, addr@, args@, now),
            out matches Some(x) ==> x.wf() && (r.consistent() ==> x.consistent()),
    {
        let mut x = r;
        if text_equals(addr, CHILD_COUNT_IN) {
            match parse_u8(Self::value_text(args).as_str()) {
                Some(v) => {
                    x.child_counter(v, now);
                    Some(x)
                },
                None => None,
            }
        } else if text_equals(addr, GESTATION_TIME_ADDR) {
            match parse_micros(Self::value_text(args).as_str()) {
                Some(m) => {
                    x.set_gestation_time(m);
                    Some(x)
                },
                None => None,
            }
        } else if text_equals(addr, GESTATION_ADDR) {
            match Self::unit_argument(args) {
                Some(Some(c)) => {
                    x.set_gestation_type(c);
                    Some(x)
                },
                Some(None) => {
                    x.set_gestation_type(255);
                    assert(x == with_unit_code(r, unit_arg(args@).unwrap()));
                    Some(x)
                },
                None => {
                    x.set_gestation_type(255);
                    assert(x == with_unit_code(r, -1));
                    Some(x)
                },
            }
        } else {
            None
        }
    }

    /// Dispatches one inbound message. While an avatar with the system is
    /// loaded, a child count, gestation length or unit changes the working
    /// record and asks for it to be stored; a larger count is echoed back.
    /// An avatar change asks for the avatar to be checked again, in any
    /// state. A unit that is no valid code falls back to hours; anything
    /// else, or a count or length that does not read, changes nothing.
    pub fn handle(&mut self, addr: &str, args: &str, now: Timestamp) -> (r: Reaction)
        requires
            old(self).wf(),
            now.wf(),
        ensures
            final(self).wf(),
            r.recheck_avatar == (addr@ == AVATAR_CHANGE_ADDR@),
            *final(self) == handled_state(*old(self), addr@, args@, now),
            messages_view(r.outbound@) == handled_messages(*old(self), addr@, args@, now),
            r.persist == applies(*old(self), addr@, args@, now),
            (old(self).child_data matches Some(c) && c.consistent()) ==> (final(self).child_data matches Some(d) && d.consistent()),
    {
        let recheck_avatar = text_equals(addr, AVATAR_CHANGE_ADDR);
        let mut outbound: Vec<OscMessage> = Vec::new();
        let mut persist = false;
        if self.system_active == Some(true) {
            if let Some(c) = self.child_data {
                if let Some(x) = Self::apply_message(c, addr, args, now) {
                    if x.number_of_childern != c.number_of_childern {
                        outbound.push(message(CHILD_COUNT_OUT, OscValue::Int(x.number_of_childern as i32)));
                    }
                    self.child_data = Some(x);
                    persist = true;
                    assert(messages_view(outbound@) =~= count_messages(c, x));
                }
            }
        }
        Reaction { outbound, persist, recheck_avatar }
    }

    /// Dispatches one datagram from the socket: a message is handled as by
    /// `handle`; a datagram longer than `DATAGRAM_LIMIT`, or one that does
    /// not decode to a message, is dropped.
    pub fn handle_datagram(&mut self, bytes: &[u8], now: Timestamp) -> (r: Reaction)
        requires
            old(self).wf(),
            now.wf(),
        ensures
            final(self).wf(),
            bytes@.len() > DATAGRAM_LIMIT ==> (*final(self) == *old(self) && r.outbound@.len() == 0
                && !r.persist && !r.recheck_avatar),
            bytes@.len() <= DATAGRAM_LIMIT ==> match osc_message_of(bytes@) {
                Some((addr, args)) => {
                    &&& *final(self) == handled_state(*old(self), addr, args, now)
                    &&& messages_view(r.outbound@) == handled_messages(*old(self), addr, args, now)
                    &&& r.persist == applies(*old(self), addr, args, now)
                    &&& r.recheck_avatar == (addr == AVATAR_CHANGE_ADDR@)
                },
                None => *final(self) == *old(self) && r.outbound@.len() == 0 && !r.persist
                    && !r.recheck_avatar,
            },
    {
        if bytes.len() > DATAGRAM_LIMIT {
            return Reaction { outbound: Vec::new(), persist: false, recheck_avatar: false };
        }
        match decode_datagram(bytes) {
            Some((addr, args)) => self.handle(addr.as_str(), args.as_str(), now),
            None => Reaction { outbound: Vec::new(), persist: false, recheck_avatar: false },
        }
    }

    /// Applies a person's edit to the working record, which is then to be
    /// stored; a changed child count is sent to the peer. Without a working
    /// record nothing changes.
    pub fn save_and_mutate(&mut self, edit: UserEdit, now: Timestamp) -> (r: Reaction)
        requires
            old(self).wf(),
            now.wf(),
        ensures
            final(self).wf(),
            final(self).system_active == old(self).system_active,
            !r.recheck_avatar,
            old(self).child_data matches Some(c) ==> (final(self).child_data == Some(
                edited(c, edit, now),
            ) && r.persist && messages_view(r.outbound@) == count_messages(c, edited(c, edit, now))),
            old(self).child_data is None ==> (final(self).child_data is None && !r.persist
                && r.outbound@.len() == 0),
            (old(self).child_data matches Some(c) && c.consistent()) ==> (final(self).child_data matches Some(d) && d.consistent()),
    {
        let mut outbound: Vec<OscMessage> = Vec::new();
        match self.child_data {
            None => Reaction { outbound, persist: false, recheck_avatar: false },
            Some(c) => {
                let mut x = c;
                match edit {
                    UserEdit::AddChild => x.add_child(now),
                    UserEdit::RemoveChild => x.remove_child(),
                    UserEdit::RestartConception => x.restart_conception(now),
                    UserEdit::SetUnit(t) => x.change_unit(t),
                    UserEdit::SetGestationTime(v) => x.set_gestation_time(v),
                }
                if x.number_of_childern != c.number_of_childern {
                    outbound.push(message(CHILD_COUNT_OUT, OscValue::Int(x.number_of_childern as i32)));
                }
                assert(messages_view(outbound@) =~= count_messages(c, x));
                self.child_data = Some(x);
                Reaction { outbound, persist: true, recheck_avatar: false }
            },
        }
    }

    /// The outcome of checking the loaded avatar. With the system in `tree`
    /// and the avatar's identifier known, its stored record (a new one if it
    /// has none) becomes the working record and is stored, the system is
    /// active, and the peer is resynchronised from the record. Otherwise the
    /// system is inactive, without a working record, nothing is sent, and the
    /// store is unchanged.
    pub fn check_avatar_oscquery(
        &mut self,
        tree: &Option<serde_json::Value>,
        avatar_id: &Option<String>,
        store: &mut SaveData,
    ) -> (r: AvatarCheck)
        requires
            old(self).wf(),
            old(store).wf(),
        ensures
            final(self).wf(),
            final(store).wf(),
            ({
                let found = *tree matches Some(doc) && json_pointer(doc, SYSTEM_PATH@) is Some;
                &&& r.store_changed == (found && avatar_id is Some)
                &&& if found && avatar_id is Some {
                    let id = avatar_id.unwrap()@;
                    let rec = if old(store).records().contains_key(id) {
                        old(store).records()[id]
                    } else {
                        ChildInfo::default_spec()
                    };
                    &&& final(store).records() == old(store).records().insert(id, rec)
                    &&& final(self).child_data == Some(rec)
                    &&& final(self).system_active == Some(true)
                    &&& messages_view(r.outbound@) == sync_messages(rec)
                } else {
                    &&& final(store).records() == old(store).records()
                    &&& final(self).child_data is None
                    &&& final(self).system_active == Some(false)
                    &&& r.outbound@.len() == 0
                }
            }),
    {
        let found = tree_has_system(tree);
        if found {
            if let Some(id) = avatar_id {
                let outbound = self.activate(id, store);
                return AvatarCheck { outbound, store_changed: true };
            }
        }
        self.system_active = Some(false);
        self.child_data = None;
        AvatarCheck { outbound: Vec::new(), store_changed: false }
    }

    fn activate(&mut self, id: &String, store: &mut SaveData) -> (r: Vec<OscMessage>)
        requires
            old(store).wf(),
        ensures
            final(self).wf(),
            final(store).wf(),
            ({
                let rec = if old(store).records().contains_key(id@) {
                    old(store).records()[id@]
                } else {
                    ChildInfo::default_spec()
                };
                &&& final(store).records() == old(store).records().insert(id@, rec)
                &&& final(self).child_data == Some(rec)
                &&& final(self).system_active == Some(true)
                &&& messages_view(r@) == sync_messages(rec)
            }),
    {
        let rec = match store.get(id) {
            Some(c) => c,
            None => ChildInfo::default(),
        };
        store.store_record(id, rec);
        self.child_data = Some(rec);
        self.system_active = Some(true);
        let mut out: Vec<OscMessage> = Vec::new();
        out.push(message(GESTATION_TIME_ADDR, OscValue::Micros(rec.gestation_time as i64)));
        out.push(message(GESTATION_ADDR, OscValue::Int(i32::from(rec.gestation))));
        if rec.number_of_childern > 0 {
            out.push(message(CHILD_COUNT_OUT, OscValue::Int(rec.number_of_childern as i32)));
            out.push(message(IS_PREGNANT_ADDR, OscValue::Bool(true)));
        }
        assert(messages_view(out@) =~= sync_messages(rec));
        out
    }

    /// Progress of the working record at `now`, in millionths; none without
    /// one.
    pub fn get_gestation_progress_fraction(&self, now: Timestamp) -> (r: u32)
        requires
            self.wf(),
            now.wf(),
        ensures
            r == match self.child_data {
                Some(c) => progress_of(c, now),
                None => 0,
            },
    {
        match self.child_data {
            Some(c) => c.progress(now),
            None => 0,
        }
    }

    /// When the working record's gestation ends; `now` without a record or
    /// without a conception time.
    pub fn calculate_future_time(&self, now: Timestamp) -> (r: Timestamp)
        requires
            self.wf(),
        ensures
            r == match self.child_data {
                Some(c) => crate::gestation::due_time(c, now),
                None => now,
            },
    {
        match self.child_data {
            Some(c) => c.due_time(now),
            None => now,
        }
    }

    /// Whole seconds until the working record's gestation ends, as
    /// `ChildInfo::seconds_left` gives them; `None` without a record.
    pub fn remaining_seconds(&self, now: Timestamp) -> (r: Option<i64>)
        requires
            self.wf(),
            now.wf(),
        ensures
            r == match self.child_data {
                Some(c) => match c.conception_time {
                    Some(_) => Some(
                        crate::gestation::elapsed_seconds(now, crate::gestation::due_time(c, now))
                            as i64,
                    ),
                    None => None,
                },
                None => None,
            },
    {
        match self.child_data {
            Some(c) => c.seconds_left(now),
            None => None,
        }
    }

    /// One tick of the periodic broadcast: while the system is active and
    /// the record counts children, its progress goes to the peer.
    pub fn broadcast(&self, now: Timestamp) -> (r: Option<OscMessage>)
        requires
            self.wf(),
            now.wf(),
        ensures
            (is_active(*self) && self.child_data.unwrap().number_of_childern > 0) ==> (r matches Some(
                m,
            ) && message_view(m) == (
                PROGRESS_ADDR@,
                seq![OscValue::Micros(progress_of(self.child_data.unwrap(), now) as i64)],
            )),
            !(is_active(*self) && self.child_data.unwrap().number_of_childern > 0) ==> r is None,
    {
        if self.system_active == Some(true) {
            if let Some(c) = self.child_data {
                if c.number_of_childern > 0 {
                    let p = c.progress(now);
                    return Some(message(PROGRESS_ADDR, OscValue::Micros(p as i64)));
                }
            }
        }
        None
    }
}

} // verus!
