use crate::model::{LetterState, ResultGrid};
use crate::text::{decimal, push_decimal, push_str, string_of};
use vstd::prelude::*;

verus! {

/// The narrowest terminal the game is drawn in.
pub const TERM_REQ_WIDTH: u16 = 55;

/// The shortest terminal the game is drawn in.
pub const TERM_REQ_HEIGHT: u16 = 34;

/// The square that shows a marking in the shared result.
pub open spec fn square(s: LetterState) -> char {
    match s {
        LetterState::Contains => '\u{1F7E8}',
        LetterState::Correct => '\u{1F7E9}',
        _ => '\u{2B1B}',
    }
}

/// The decimal digits of `n` with a comma before the last three, where there are
/// more than three.
pub open spec fn grouped(n: nat) -> Seq<char> {
    let d = decimal(n);
    if d.len() > 3 {
        d.subrange(0, d.len() - 3) + seq![','] + d.subrange(d.len() - 3, d.len() as int)
    } else {
        d
    }
}

/// A rule of `n` box-drawing dashes.
pub open spec fn rule(n: nat) -> Seq<char>
    decreases n,
{
    if n == 0 {
        Seq::empty()
    } else {
        rule((n - 1) as nat).push('\u{2500}')
    }
}

/// The squares of one row.
pub open spec fn squares(row: Seq<LetterState>) -> Seq<char> {
    row.map_values(|s: LetterState| square(s))
}

/// The squares of the rows, one line each, skipping empty rows.
pub open spec fn grid_text(rows: Seq<Seq<LetterState>>) -> Seq<char>
    decreases rows.len(),
{
    if rows.len() == 0 {
        Seq::empty()
    } else {
        let last = rows.last();
        grid_text(rows.drop_last()) + if last.len() == 0 {
            Seq::<char>::empty()
        } else {
            squares(last) + seq!['\n']
        }
    }
}

/// The heading line of a result.
pub open spec fn heading(number: Option<u64>, used: nat) -> Seq<char> {
    match number {
        Some(n) => "Wordle "@ + grouped(n as nat) + seq![' '] + decimal(used) + "/6"@,
        None => "Turdle "@ + decimal(used) + "/6"@,
    }
}

/// The whole result: a rule as wide as the heading (ten dashes without a puzzle
/// number), the heading, a blank line and the grid.
pub open spec fn result_text_of(number: Option<u64>, used: nat, rows: Seq<Seq<LetterState>>) -> Seq<char> {
    let h = heading(number, used);
    let width: nat = if number is Some {
        h.len()
    } else {
        10
    };
    rule(width) + seq!['\n'] + h + seq!['\n', '\n'] + grid_text(rows)
}

fn push_rule(out: &mut Vec<char>, n: usize)
    ensures
        final(out)@ == old(out)@ + rule(n as nat),
{
    let mut i: usize = 0;
    while i < n
        invariant
            i <= n,
            out@ == old(out)@ + rule(i as nat),
        decreases n - i,
    {
        out.push('\u{2500}');
        i = i + 1;
    }
}

fn square_of(s: LetterState) -> (r: char)
    ensures
        r == square(s),
{
    match s {
        LetterState::Contains => '\u{1F7E8}',
        LetterState::Correct => '\u{1F7E9}',
        _ => '\u{2B1B}',
    }
}

fn push_grouped(out: &mut Vec<char>, n: u64)
    ensures
        final(out)@ == old(out)@ + grouped(n as nat),
{
    let mut d: Vec<char> = Vec::new();
    push_decimal(&mut d, n);
    assert(d@ == decimal(n as nat));
    let len = d.len();
    let mut i: usize = 0;
    while i < len
        invariant
            d@ == decimal(n as nat),
            len == d@.len(),
            i <= len,
            len > 3 ==> (i <= len - 3 ==> out@ == old(out)@ + d@.subrange(0, i as int)),
            len > 3 ==> (i > len - 3 ==> out@ == old(out)@ + d@.subrange(0, len - 3) + seq![',']
                + d@.subrange(len - 3, i as int)),
            len <= 3 ==> out@ == old(out)@ + d@.subrange(0, i as int),
        decreases len - i,
    {
        if len > 3 && i == len - 3 {
            out.push(',');
            assert(d@.subrange(len - 3, i as int) == Seq::<char>::empty());
        }
        out.push(d[i]);
        i = i + 1;
        assert(d@.subrange(0, i as int) == d@.subrange(0, i - 1).push(d@[i - 1]));
        assert(len > 3 && i > len - 3 ==> d@.subrange(len - 3, i as int) == d@.subrange(
            len - 3,
            i - 1,
        ).push(d@[i - 1]));
    }
    assert(d@.subrange(0, len as int) == d@);
}

/// The text shown after a won game: heading and grid of squares.
pub fn result_text(rg: &ResultGrid) -> (r: String)
    ensures
        r@ == result_text_of(
            rg.solution.wordle_number,
            rg.lines_used as nat,
            rg.grid@.map_values(|row: Vec<LetterState>| row@),
        ),
{
    let mut h: Vec<char> = Vec::new();
    match rg.solution.wordle_number {
        Some(n) => {
            push_str(&mut h, "Wordle ");
            push_grouped(&mut h, n);
            h.push(' ');
            push_decimal(&mut h, rg.lines_used as u64);
            push_str(&mut h, "/6");
        },
        None => {
            push_str(&mut h, "Turdle ");
            push_decimal(&mut h, rg.lines_used as u64);
            push_str(&mut h, "/6");
        },
    }
    let ghost hs = heading(rg.solution.wordle_number, rg.lines_used as nat);
    assert(h@ == hs);
    let width: usize = if rg.solution.wordle_number.is_some() {
        h.len()
    } else {
        10
    };
    let mut out: Vec<char> = Vec::new();
    push_rule(&mut out, width);
    out.push('\n');
    let mut k: usize = 0;
    while k < h.len()
        invariant
            k <= h@.len(),
            out@ == rule(width as nat) + seq!['\n'] + h@.subrange(0, k as int),
        decreases h@.len() - k,
    {
        out.push(h[k]);
        k = k + 1;
        assert(h@.subrange(0, k as int) == h@.subrange(0, k - 1).push(h@[k - 1]));
    }
    assert(h@.subrange(0, h@.len() as int) == h@);
    out.push('\n');
    out.push('\n');
    let ghost rows = rg.grid@.map_values(|row: Vec<LetterState>| row@);
    let ghost head = out@;
    assert(head == rule(width as nat) + seq!['\n'] + h@ + seq!['\n', '\n']);
    let mut i: usize = 0;
    while i < rg.grid.len()
        invariant
            i <= rg.grid@.len(),
            rows == rg.grid@.map_values(|row: Vec<LetterState>| row@),
            out@ == head + grid_text(rows.subrange(0, i as int)),
        decreases rg.grid@.len() - i,
    {
        let row = &rg.grid[i];
        let ghost before = out@;
        let mut j: usize = 0;
        if row.len() > 0 {
            while j < row.len()
                invariant
                    j <= row@.len(),
                    row@ == rows[i as int],
                    out@ == before + squares(row@.subrange(0, j as int)),
                decreases row@.len() - j,
            {
                out.push(square_of(row[j]));
                j = j + 1;
                assert(squares(row@.subrange(0, j as int)) == squares(row@.subrange(0, j - 1)).push(
                    square(row@[j - 1]),
                ));
            }
            assert(row@.subrange(0, row@.len() as int) == row@);
            out.push('\n');
        }
        assert(rows.subrange(0, i + 1).drop_last() == rows.subrange(0, i as int));
        i = i + 1;
    }
    assert(rows.subrange(0, rg.grid@.len() as int) == rows);
    string_of(&out)
}

/// The message lines shown when the terminal is too small; none when it is large enough.
pub open spec fn size_warning_of(width: nat, height: nat) -> Seq<Seq<char>> {
    if width >= TERM_REQ_WIDTH && height >= TERM_REQ_HEIGHT {
        Seq::empty()
    } else {
        let dw: nat = if width < TERM_REQ_WIDTH {
            (TERM_REQ_WIDTH - width) as nat
        } else {
            0
        };
        let dh: nat = if height < TERM_REQ_HEIGHT {
            (TERM_REQ_HEIGHT - height) as nat
        } else {
            0
        };
        let first = seq!["Terminal too small (min. 55W x 34H)"@];
        let second = if dw > 0 && dh > 0 {
            decimal(dw) + " more cols & "@ + decimal(dh) + " more rows needed"@
        } else if dw > 0 {
            decimal(dw) + " more columns needed"@
        } else {
            decimal(dh) + " more rows needed"@
        };
        if height < 2 {
            first
        } else if height < 3 {
            first.push(second)
        } else {
            first.push(second).push("Resize or <Esc> to exit"@)
        }
    }
}

/// What to show instead of the game in a terminal of the given size; empty when
/// the game fits.
pub fn size_warning(width: u16, height: u16) -> (r: Vec<String>)
    ensures
        r@.len() == size_warning_of(width as nat, height as nat).len(),
        forall|i: int| 0 <= i < r@.len() ==> #[trigger] r@[i]@ == size_warning_of(width as nat, height as nat)[i],
{
    let mut r: Vec<String> = Vec::new();
    if width >= TERM_REQ_WIDTH && height >= TERM_REQ_HEIGHT {
        return r;
    }
    r.push(String::from_str("Terminal too small (min. 55W x 34H)"));
    if height >= 2 {
        let dw: u16 = if width < TERM_REQ_WIDTH {
            TERM_REQ_WIDTH - width
        } else {
            0
        };
        let dh: u16 = if height < TERM_REQ_HEIGHT {
            TERM_REQ_HEIGHT - height
        } else {
            0
        };
        let mut line: Vec<char> = Vec::new();
        if dw > 0 && dh > 0 {
            push_decimal(&mut line, dw as u64);
            push_str(&mut line, " more cols & ");
            push_decimal(&mut line, dh as u64);
            push_str(&mut line, " more rows needed");
        } else if dw > 0 {
            push_decimal(&mut line, dw as u64);
            push_str(&mut line, " more columns needed");
        } else {
            push_decimal(&mut line, dh as u64);
            push_str(&mut line, " more rows needed");
        }
        r.push(string_of(&line));
        if height >= 3 {
            r.push(String::from_str("Resize or <Esc> to exit"));
        }
    }
    r
}

} // verus!
