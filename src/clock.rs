use vstd::prelude::*;
use vstd::string::StringExecFns;

verus! {

/// A time of day as the fields that a timestamp prints.
#[derive(Clone, Copy, Debug, PartialEq, Eq, Structural)]
pub struct TimeOfDay {
    pub hour: u8,
    pub minute: u8,
    pub second: u8,
    pub microsecond: u32,
}

impl TimeOfDay {
    pub open spec fn wf(&self) -> bool {
        &&& self.hour < 24
        &&& self.minute < 60
        &&& self.second < 60
        &&& self.microsecond < 1_000_000
    }
}

/// The decimal digit `d`, for `d < 10`.
pub open spec fn digit(d: nat) -> char {
    seq!['0', '1', '2', '3', '4', '5', '6', '7', '8', '9'][d as int]
}

/// The last `width` decimal digits of `n`, with leading zeros.
pub open spec fn padded(n: nat, width: nat) -> Seq<char>
    decreases width,
{
    if width == 0 {
        Seq::empty()
    } else {
        padded(n / 10, (width - 1) as nat).push(digit(n % 10))
    }
}

/// `hh:mm:ss:uuuuuu`, with microseconds.
pub open spec fn time_text(t: TimeOfDay) -> Seq<char> {
    padded(t.hour as nat, 2) + ":"@ + padded(t.minute as nat, 2) + ":"@ + padded(t.second as nat, 2)
        + ":"@ + padded(t.microsecond as nat, 6)
}

fn digit_str(d: u32) -> (r: &'static str)
    requires
        d < 10,
    ensures
        r@ == seq![digit(d as nat)],
{
    proof {
        reveal_strlit("0");
        reveal_strlit("1");
        reveal_strlit("2");
        reveal_strlit("3");
        reveal_strlit("4");
        reveal_strlit("5");
        reveal_strlit("6");
        reveal_strlit("7");
        reveal_strlit("8");
        reveal_strlit("9");
    }
    let r = if d == 0 {
        "0"
    } else if d == 1 {
        "1"
    } else if d == 2 {
        "2"
    } else if d == 3 {
        "3"
    } else if d == 4 {
        "4"
    } else if d == 5 {
        "5"
    } else if d == 6 {
        "6"
    } else if d == 7 {
        "7"
    } else if d == 8 {
        "8"
    } else {
        "9"
    };
    assert(r@ =~= seq![digit(d as nat)]);
    r
}

fn append_padded(out: &mut String, n: u32, width: u32)
    ensures
        final(out)@ == old(out)@ + padded(n as nat, width as nat),
    decreases width,
{
    if width > 0 {
        append_padded(out, n / 10, width - 1);
        out.append(digit_str(n % 10));
        assert(final(out)@ =~= old(out)@ + padded(n as nat, width as nat));
    } else {
        assert(final(out)@ =~= old(out)@ + padded(n as nat, width as nat));
    }
}

/// Prints a time of day as `hh:mm:ss:uuuuuu`, zero-padded.
pub fn format_time_of_day(t: TimeOfDay) -> (r: String)
    ensures
        r@ == time_text(t),
{
    let mut out = String::new();
    append_padded(&mut out, t.hour as u32, 2);
    out.append(":");
    append_padded(&mut out, t.minute as u32, 2);
    out.append(":");
    append_padded(&mut out, t.second as u32, 2);
    out.append(":");
    append_padded(&mut out, t.microsecond, 6);
    assert(out@ =~= time_text(t));
    out
}

/// Relies on time::UtcDateTime::now for the current time, and on its hour,
/// minute, second and microsecond accessors, documented to stay in 0..24,
/// 0..60, 0..60 and 0..1_000_000.
#[verifier::external_body]
pub(crate) fn utc_time_of_day() -> (r: TimeOfDay)
    ensures
        r.wf(),
{
    let now = time::UtcDateTime::now();
    TimeOfDay {
        hour: now.hour(),
        minute: now.minute(),
        second: now.second(),
        microsecond: now.microsecond(),
    }
}

/// Relies on time::OffsetDateTime::now_local for the current time in the
/// local offset, an error where the offset cannot be determined, and on its
/// hour, minute, second and microsecond accessors, documented to stay in
/// 0..24, 0..60, 0..60 and 0..1_000_000.
#[verifier::external_body]
pub(crate) fn local_time_of_day() -> (r: Option<TimeOfDay>)
    ensures
        r matches Some(t) ==> t.wf(),
{
    match time::OffsetDateTime::now_local() {
        Ok(now) => Some(
            TimeOfDay {
                hour: now.hour(),
                minute: now.minute(),
                second: now.second(),
                microsecond: now.microsecond(),
            },
        ),
        Err(_) => None,
    }
}

} // verus!
