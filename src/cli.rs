use crate::provider::{valid_date, CalendarDate};
use crate::text::chars_of;
use vstd::prelude::*;

verus! {

/// Why a date argument was refused.
#[derive(Debug, Clone, Copy, PartialEq, Eq, Structural)]
pub enum DateArgError {
    /// Not three parts separated by `-`.
    Format,
    Year,
    Month,
    Day,
    /// The calendar has no such day.
    InvalidDate,
}

/// `s` split at each `c`, keeping empty parts.
pub open spec fn split_on(s: Seq<char>, c: char) -> Seq<Seq<char>>
    decreases s.len(),
{
    if s.len() == 0 {
        seq![Seq::<char>::empty()]
    } else {
        let init = split_on(s.drop_last(), c);
        if s.last() == c {
            init.push(Seq::<char>::empty())
        } else {
            init.update(init.len() - 1, init.last().push(s.last()))
        }
    }
}

/// `s` split at each `c`, without a last part that is empty.
pub open spec fn split_terminated(s: Seq<char>, c: char) -> Seq<Seq<char>> {
    let p = split_on(s, c);
    if p.last().len() == 0 {
        p.drop_last()
    } else {
        p
    }
}

proof fn lemma_split_on_nonempty(s: Seq<char>, c: char)
    ensures
        split_on(s, c).len() >= 1,
    decreases s.len(),
{
    if s.len() > 0 {
        lemma_split_on_nonempty(s.drop_last(), c);
    }
}

/// One or more ASCII digits.
pub open spec fn all_digits(s: Seq<char>) -> bool {
    s.len() > 0 && forall|i: int| 0 <= i < s.len() ==> '0' <= #[trigger] s[i] <= '9'
}

/// The number that the digits of `s` write in decimal.
pub open spec fn digits_value(s: Seq<char>) -> nat
    decreases s.len(),
{
    if s.len() == 0 {
        0
    } else {
        digits_value(s.drop_last()) * 10 + ((s.last() as u32) - 48) as nat
    }
}

/// The integer `s` writes as std's integer parsing reads it: an optional sign
/// (`-` only where `signed`) followed by one or more digits.
pub open spec fn integer_value(s: Seq<char>, signed: bool) -> Option<int> {
    if s.len() > 0 && s[0] == '+' {
        if all_digits(s.drop_first()) {
            Some(digits_value(s.drop_first()) as int)
        } else {
            None
        }
    } else if signed && s.len() > 0 && s[0] == '-' {
        if all_digits(s.drop_first()) {
            Some(-(digits_value(s.drop_first()) as int))
        } else {
            None
        }
    } else if all_digits(s) {
        Some(digits_value(s) as int)
    } else {
        None
    }
}

/// The bound past which the value of a digit string is no longer tracked.
pub const DIGITS_CAP: u64 = 4294967296;

/// The value of the digits of `s` from `start` on, where they are one or more
/// digits writing at most `DIGITS_CAP`.
fn digits_from(s: &Vec<char>, start: usize) -> (r: Option<u64>)
    requires
        start <= s@.len(),
    ensures
        ({
            let t = s@.subrange(start as int, s@.len() as int);
            &&& all_digits(t) && digits_value(t) <= DIGITS_CAP ==> r == Some(digits_value(t) as u64)
            &&& !(all_digits(t) && digits_value(t) <= DIGITS_CAP) ==> r is None
        }),
{
    if start == s.len() {
        return None;
    }
    let mut acc: u64 = 0;
    let mut over = false;
    let mut i: usize = start;
    while i < s.len()
        invariant
            start <= i <= s@.len(),
            forall|k: int| start <= k < i ==> '0' <= #[trigger] s@[k] <= '9',
            !over ==> acc == digits_value(s@.subrange(start as int, i as int)),
            !over ==> acc <= DIGITS_CAP,
            over ==> digits_value(s@.subrange(start as int, i as int)) > DIGITS_CAP,
        decreases s@.len() - i,
    {
        let c = s[i];
        if !('0' <= c && c <= '9') {
            proof {
                let t = s@.subrange(start as int, s@.len() as int);
                assert(t[i - start] == c);
            }
            return None;
        }
        let ghost prev = s@.subrange(start as int, i as int);
        assert(s@.subrange(start as int, i + 1) == prev.push(c));
        assert(s@.subrange(start as int, i + 1).drop_last() == prev);
        let d = (c as u32 - 48) as u64;
        if !over {
            acc = acc * 10 + d;
            if acc > DIGITS_CAP {
                over = true;
            }
        } else {
            proof {
                assert(digits_value(prev) * 10 + d >= digits_value(prev)) by (nonlinear_arith)
                    requires digits_value(prev) >= 0, d >= 0;
            }
        }
        i = i + 1;
    }
    proof {
        assert(s@.subrange(start as int, s@.len() as int).len() > 0);
    }
    if over {
        None
    } else {
        Some(acc)
    }
}

/// Reads a year as `i32` parsing does.
pub fn parse_i32(s: &Vec<char>) -> (r: Option<i32>)
    ensures
        r matches Some(v) ==> integer_value(s@, true) == Some(v as int),
        (integer_value(s@, true) matches Some(x) && i32::MIN <= x <= i32::MAX) ==> r is Some,
        r is None ==> !(integer_value(s@, true) matches Some(x) && i32::MIN <= x <= i32::MAX),
{
    let (neg, start) = if s.len() > 0 && s[0] == '+' {
        (false, 1usize)
    } else if s.len() > 0 && s[0] == '-' {
        (true, 1usize)
    } else {
        (false, 0usize)
    };
    assert(s@.subrange(0, s@.len() as int) == s@);
    assert(start == 1 ==> s@.subrange(1, s@.len() as int) == s@.drop_first());
    match digits_from(s, start) {
        Some(v) => {
            if neg {
                if v <= 2147483648 {
                    Some((0 - (v as i64)) as i32)
                } else {
                    None
                }
            } else if v <= 2147483647 {
                Some(v as i32)
            } else {
                None
            }
        },
        None => None,
    }
}

/// Reads a month or day number as `u8` parsing does.
pub fn parse_u8(s: &Vec<char>) -> (r: Option<u8>)
    ensures
        r matches Some(v) ==> integer_value(s@, false) == Some(v as int),
        (integer_value(s@, false) matches Some(x) && x <= 255) ==> r is Some,
        r is None ==> !(integer_value(s@, false) matches Some(x) && x <= 255),
{
    let start: usize = if s.len() > 0 && s[0] == '+' {
        1
    } else {
        0
    };
    assert(s@.subrange(0, s@.len() as int) == s@);
    assert(start == 1 ==> s@.subrange(1, s@.len() as int) == s@.drop_first());
    proof {
        if start == 0 && s@.len() > 0 && s@[0] == '-' {
            assert(!all_digits(s@));
        }
    }
    match digits_from(s, start) {
        Some(v) => if v <= 255 {
            Some(v as u8)
        } else {
            None
        },
        None => None,
    }
}

/// Splits `s` at each `c`, dropping a last part that is empty.
pub fn split_terminator(s: &Vec<char>, c: char) -> (r: Vec<Vec<char>>)
    ensures
        r@.len() == split_terminated(s@, c).len(),
        forall|i: int| 0 <= i < r@.len() ==> #[trigger] r@[i]@ == split_terminated(s@, c)[i],
{
    let mut parts: Vec<Vec<char>> = Vec::new();
    let mut cur: Vec<char> = Vec::new();
    let mut i: usize = 0;
    while i < s.len()
        invariant
            i <= s@.len(),
            parts@.len() + 1 == split_on(s@.subrange(0, i as int), c).len(),
            forall|k: int| 0 <= k < parts@.len() ==> #[trigger] parts@[k]@ == split_on(s@.subrange(0, i as int), c)[k],
            cur@ == split_on(s@.subrange(0, i as int), c).last(),
        decreases s@.len() - i,
    {
        let ghost pre = s@.subrange(0, i as int);
        proof {
            lemma_split_on_nonempty(pre, c);
            assert(s@.subrange(0, i + 1).drop_last() == pre);
        }
        if s[i] == c {
            parts.push(cur);
            cur = Vec::new();
        } else {
            cur.push(s[i]);
        }
        i = i + 1;
    }
    assert(s@.subrange(0, s@.len() as int) == s@);
    proof {
        lemma_split_on_nonempty(s@, c);
    }
    if cur.len() > 0 {
        parts.push(cur);
    }
    parts
}

/// The day that a date argument names, `[YY]YY-MM-DD`: a year below 100 counts
/// from 2000.
pub open spec fn date_arg_result(s: Seq<char>) -> Result<(int, int, int), DateArgError> {
    let p = split_terminated(s, '-');
    if p.len() != 3 {
        Err(DateArgError::Format)
    } else if !(integer_value(p[0], true) matches Some(y) && i32::MIN <= y <= i32::MAX) {
        Err(DateArgError::Year)
    } else if !(integer_value(p[1], false) matches Some(m) && 1 <= m <= 12) {
        Err(DateArgError::Month)
    } else if !(integer_value(p[2], false) matches Some(d) && d <= 255) {
        Err(DateArgError::Day)
    } else {
        let y0 = integer_value(p[0], true)->0;
        let y = if y0 < 100 {
            y0 + 2000
        } else {
            y0
        };
        let m = integer_value(p[1], false)->0;
        let d = integer_value(p[2], false)->0;
        if valid_date(y, m, d) {
            Ok((y, m, d))
        } else {
            Err(DateArgError::InvalidDate)
        }
    }
}

/// Reads a date argument in the form `[YY]YY-MM-DD`.
pub fn parse_date_arg(arg: &str) -> (r: Result<CalendarDate, DateArgError>)
    ensures
        match date_arg_result(arg@) {
            Ok((y, m, d)) => r matches Ok(v) && v.year_of() == y && v.month_of() == m && v.day_of()
                == d && v.wf(),
            Err(e) => r == Err::<CalendarDate, DateArgError>(e),
        },
{
    let s = chars_of(arg);
    let parts = split_terminator(&s, '-');
    if parts.len() != 3 {
        return Err(DateArgError::Format);
    }
    let year = match parse_i32(&parts[0]) {
        Some(y) => y,
        None => return Err(DateArgError::Year),
    };
    let year = if year < 100 {
        year + 2000
    } else {
        year
    };
    let month = match parse_u8(&parts[1]) {
        Some(m) => m,
        None => return Err(DateArgError::Month),
    };
    if month < 1 || month > 12 {
        return Err(DateArgError::Month);
    }
    let day = match parse_u8(&parts[2]) {
        Some(d) => d,
        None => return Err(DateArgError::Day),
    };
    match CalendarDate::new(year, month, day) {
        Some(d) => Ok(d),
        None => Err(DateArgError::InvalidDate),
    }
}

} // verus!
