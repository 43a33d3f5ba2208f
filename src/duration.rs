//! Spans of time written for people.

use vstd::prelude::*;
use crate::numeral::{decimal_text, push_char, write_decimal};

verus! {

/// `n unit`, with an `s` unless `n` is one.
pub open spec fn unit_part(n: nat, word: Seq<char>) -> Seq<char> {
    decimal_text(n) + seq![' '] + word + (if n != 1 {
        seq!['s']
    } else {
        Seq::<char>::empty()
    })
}

/// The parts joined by `, `.
pub open spec fn joined(parts: Seq<Seq<char>>) -> Seq<char>
    decreases parts.len(),
{
    if parts.len() == 0 {
        Seq::empty()
    } else if parts.len() == 1 {
        parts[0]
    } else {
        joined(parts.drop_last()) + seq![',', ' '] + parts.last()
    }
}

pub open spec fn part_if(n: nat, word: Seq<char>) -> Seq<Seq<char>> {
    if n > 0 {
        seq![unit_part(n, word)]
    } else {
        Seq::empty()
    }
}

/// The parts of a span of `total` seconds: months (of thirty days), days,
/// hours and minutes that are not zero, then the seconds, which are always
/// there when nothing else is.
pub open spec fn duration_parts(total: nat) -> Seq<Seq<char>> {
    let months = total / 2592000;
    let r1 = total % 2592000;
    let days = r1 / 86400;
    let r2 = r1 % 86400;
    let hours = r2 / 3600;
    let r3 = r2 % 3600;
    let minutes = r3 / 60;
    let seconds = r3 % 60;
    let p = part_if(months, "month"@) + part_if(days, "day"@) + part_if(hours, "hour"@) + part_if(
        minutes,
        "minute"@,
    );
    if seconds > 0 || p.len() == 0 {
        p.push(unit_part(seconds, "second"@))
    } else {
        p
    }
}

/// A span of time for people to read, e.g. `2 months, 3 days, 1 hour`; a
/// negative span reads as `0 seconds`.
pub open spec fn duration_text(secs: int) -> Seq<char> {
    joined(duration_parts(if secs < 0 {
        0
    } else {
        secs as nat
    }))
}

fn add_part(
    out: &mut String,
    Ghost(parts): Ghost<Seq<Seq<char>>>,
    first: bool,
    n: u64,
    word: &str,
) -> (r: Ghost<Seq<Seq<char>>>)
    requires
        old(out)@ == joined(parts),
        first == (parts.len() == 0),
    ensures
        r@ == parts.push(unit_part(n as nat, word@)),
        final(out)@ == joined(r@),
{
    if !first {
        push_char(out, ',');
        push_char(out, ' ');
    }
    write_decimal(out, n);
    push_char(out, ' ');
    out.append(word);
    if n != 1 {
        push_char(out, 's');
    }
    let ghost next = parts.push(unit_part(n as nat, word@));
    assert(next.drop_last() =~= parts);
    assert(final(out)@ =~= joined(next));
    Ghost(next)
}

/// Formats a span of whole seconds for people (see `duration_text`).
pub fn format_duration_human(secs: i64) -> (r: String)
    ensures
        r@ == duration_text(secs as int),
{
    let total: u64 = if secs < 0 {
        0
    } else {
        secs as u64
    };
    let months = total / 2_592_000;
    let r1 = total % 2_592_000;
    let days = r1 / 86_400;
    let r2 = r1 % 86_400;
    let hours = r2 / 3600;
    let r3 = r2 % 3600;
    let minutes = r3 / 60;
    let seconds = r3 % 60;
    let mut out = String::new();
    let ghost mut parts: Seq<Seq<char>> = Seq::empty();
    let mut first = true;
    if months > 0 {
        let Ghost(p) = add_part(&mut out, Ghost(parts), first, months, "month");
        proof {
            parts = p;
        }
        first = false;
    }
    assert(parts =~= part_if(months as nat, "month"@));
    if days > 0 {
        let Ghost(p) = add_part(&mut out, Ghost(parts), first, days, "day");
        proof {
            parts = p;
        }
        first = false;
    }
    assert(parts =~= part_if(months as nat, "month"@) + part_if(days as nat, "day"@));
    if hours > 0 {
        let Ghost(p) = add_part(&mut out, Ghost(parts), first, hours, "hour");
        proof {
            parts = p;
        }
        first = false;
    }
    assert(parts =~= part_if(months as nat, "month"@) + part_if(days as nat, "day"@) + part_if(
        hours as nat,
        "hour"@,
    ));
    if minutes > 0 {
        let Ghost(p) = add_part(&mut out, Ghost(parts), first, minutes, "minute");
        proof {
            parts = p;
        }
        first = false;
    }
    assert(parts =~= part_if(months as nat, "month"@) + part_if(days as nat, "day"@) + part_if(
        hours as nat,
        "hour"@,
    ) + part_if(minutes as nat, "minute"@));
    if seconds > 0 || first {
        let Ghost(p) = add_part(&mut out, Ghost(parts), first, seconds, "second");
        proof {
            parts = p;
        }
        first = false;
    }
    assert(parts =~= duration_parts(total as nat));
    out
}

} // verus!
