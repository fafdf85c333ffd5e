//! A safety screen for board-notation (FEN) strings before they are handed
//! to the outside position parser.
//!
//! The parser in the `pleco` crate rejects most malformed strings with an
//! error, but a handful of inputs drive it into a panic or an out-of-bounds
//! index instead: a rank whose entries run past the board's edge, a castling
//! field with an unknown character, a side missing a king or owning several
//! (the parser asserts exactly one king bitboard bit per side), and a
//! full-move counter of zero or above 32768 (the counter arithmetic under-
//! or overflows). The screen accepts only strings that steer clear of every
//! such path; everything it rejects, the renderer treats as an invalid
//! position. The screen is deliberately a little stricter than the parser:
//! rejecting a string the parser would also reject, or would accept only in
//! a degenerate position, is harmless, while accepting a panicking one is
//! not.
//!
//! Fields are split on ASCII whitespace; strings with characters outside
//! ASCII are rejected outright so that the split here agrees with the
//! parser's.

use vstd::prelude::*;

use vstd::utf8::is_ascii_chars;

verus! {

/// ASCII whitespace, exactly the ASCII characters the standard library's
/// whitespace split separates fields on.
pub open spec fn is_fen_space(c: char) -> bool {
    c == ' ' || c == '\t' || c == '\n' || c == '\r' || c == '\u{b}' || c == '\u{c}'
}

/// Decides whether `c` is ASCII whitespace.
pub fn is_fen_space_exec(c: char) -> (b: bool)
    ensures
        b == is_fen_space(c),
{
    c == ' ' || c == '\t' || c == '\n' || c == '\r' || c == '\u{b}' || c == '\u{c}'
}

/// An ASCII decimal digit.
pub open spec fn is_fen_digit(c: char) -> bool {
    48 <= (c as u32) <= 57
}

/// The board-step a piece-placement character takes: a digit skips that many
/// squares, any other character places one piece.
pub open spec fn placement_step(c: char) -> int {
    if is_fen_digit(c) {
        (c as u32) - 48
    } else {
        1
    }
}

/// The index of the first character at or after `i` that is not ASCII
/// whitespace, or the end of the string.
pub open spec fn skip_spaces(s: Seq<char>, i: int) -> int
    decreases s.len() - i,
    when 0 <= i <= s.len()
{
    if i >= s.len() {
        s.len() as int
    } else if is_fen_space(s[i]) {
        skip_spaces(s, i + 1)
    } else {
        i
    }
}

/// The index of the first ASCII whitespace character at or after `i`, or the
/// end of the string: the end of the field starting at `i`.
pub open spec fn skip_field(s: Seq<char>, i: int) -> int
    decreases s.len() - i,
    when 0 <= i <= s.len()
{
    if i >= s.len() {
        s.len() as int
    } else if is_fen_space(s[i]) {
        i
    } else {
        skip_field(s, i + 1)
    }
}

/// The index where the whitespace-separated field number `k` starts when
/// scanning from `i`, or the end of the string if there are not that many
/// fields left.
pub open spec fn field_start(s: Seq<char>, k: int, i: int) -> int
    decreases k,
    when k >= 0
{
    if k <= 0 {
        skip_spaces(s, i)
    } else {
        field_start(s, k - 1, skip_field(s, skip_spaces(s, i)))
    }
}

/// How many times `c` occurs in `s` between `i` (inclusive) and `j`
/// (exclusive).
pub open spec fn count_char(s: Seq<char>, c: char, i: int, j: int) -> int
    decreases j - i,
    when i <= j
{
    if j <= i {
        0
    } else {
        count_char(s, c, i, j - 1) + if s[j - 1] == c {
            1int
        } else {
            0int
        }
    }
}

/// The index of the first '/' at or after `i` but before `e`, or `e`: the
/// end of the rank segment starting at `i`.
pub open spec fn next_rank_end(s: Seq<char>, i: int, e: int) -> int
    decreases e - i,
    when 0 <= i <= e <= s.len()
{
    if i >= e {
        e
    } else if s[i] == '/' {
        i
    } else {
        next_rank_end(s, i + 1, e)
    }
}

/// Scanning one rank segment with `walked` squares already taken: holds when
/// no character of the segment is reached after eight or more squares, so
/// the parser's scan of this rank never runs past the board's edge.
pub open spec fn rank_scan_safe(s: Seq<char>, i: int, j: int, walked: int) -> bool
    decreases j - i,
    when i <= j
{
    if i >= j {
        true
    } else if walked >= 8 {
        false
    } else {
        rank_scan_safe(s, i + 1, j, walked + placement_step(s[i]))
    }
}

/// `next_rank_end` stays between its starting index and the segment end.
pub proof fn lemma_next_rank_end_bounds(s: Seq<char>, i: int, e: int)
    requires
        0 <= i <= e <= s.len(),
    ensures
        i <= next_rank_end(s, i, e) <= e,
    decreases e - i,
{
    if i < e && s[i] != '/' {
        lemma_next_rank_end_bounds(s, i + 1, e);
    }
}

/// Every '/'-separated rank segment between `i` and `e` scans safely.
pub open spec fn ranks_safe(s: Seq<char>, i: int, e: int) -> bool
    decreases e - i,
    when 0 <= i <= e <= s.len()
{
    if i >= e {
        true
    } else {
        let j = next_rank_end(s, i, e);
        proof {
            lemma_next_rank_end_bounds(s, i, e);
        }
        rank_scan_safe(s, i, j, 0) && (j >= e || ranks_safe(s, j + 1, e))
    }
}

/// A character the parser's castling field accepts without panicking.
pub open spec fn is_castle_char(c: char) -> bool {
    c == 'K' || c == 'Q' || c == 'k' || c == 'q' || c == '-'
}

/// Every character of the field between `i` and `j` is a castling character.
pub open spec fn castle_field_safe(s: Seq<char>, i: int, j: int) -> bool {
    forall|p: int| i <= p < j ==> is_castle_char(#[trigger] s[p])
}

/// Every character of the field between `i` and `j` is a decimal digit.
pub open spec fn all_digits(s: Seq<char>, i: int, j: int) -> bool
    decreases j - i,
    when i <= j
{
    if j <= i {
        true
    } else {
        is_fen_digit(s[j - 1]) && all_digits(s, i, j - 1)
    }
}

/// In an all-digit field, every position holds a digit.
pub proof fn lemma_all_digits_index(s: Seq<char>, i: int, j: int, p: int)
    requires
        i <= p < j,
        all_digits(s, i, j),
    ensures
        is_fen_digit(s[p]),
    decreases j - p,
{
    if p < j - 1 {
        lemma_all_digits_index(s, i, j - 1, p);
    }
}

/// The full-move field between `i` and `j` keeps the parser's counter
/// arithmetic in range: either the placeholder '-', or one to four decimal
/// digits that are not all zero (so its value is between 1 and 9999).
pub open spec fn move_counter_safe(s: Seq<char>, i: int, j: int) -> bool {
    ||| (j - i == 1 && s[i] == '-')
    ||| {
        &&& 1 <= j - i <= 4
        &&& all_digits(s, i, j)
        &&& count_char(s, '0', i, j) < j - i
    }
}

/// Holds when handing `s` to the outside position parser is known not to
/// panic: the string is ASCII; the piece-placement field keeps every rank on
/// the board and holds exactly one king of each colour; the castling field,
/// if present, holds only castling characters; and the full-move field, if
/// present, is in range.
pub open spec fn fen_guard(s: Seq<char>) -> bool {
    &&& is_ascii_chars(s)
    &&& ({
        let t0 = skip_spaces(s, 0);
        let e0 = skip_field(s, t0);
        &&& ranks_safe(s, t0, e0)
        &&& count_char(s, 'k', t0, e0) == 1
        &&& count_char(s, 'K', t0, e0) == 1
    })
    &&& ({
        let t2 = field_start(s, 2, 0);
        t2 >= s.len() || castle_field_safe(s, t2, skip_field(s, t2))
    })
    &&& ({
        let t5 = field_start(s, 5, 0);
        t5 >= s.len() || move_counter_safe(s, t5, skip_field(s, t5))
    })
}

/// Computes `skip_spaces`.
fn skip_spaces_exec(s: &str, n: usize, i: usize) -> (r: usize)
    requires
        n == s@.len(),
        i <= n,
    ensures
        r == skip_spaces(s@, i as int),
        i <= r <= n,
{
    let mut p = i;
    while p < n && is_fen_space_exec(s.get_char(p))
        invariant
            i <= p <= n,
            n == s@.len(),
            skip_spaces(s@, i as int) == skip_spaces(s@, p as int),
        decreases n - p,
    {
        p = p + 1;
    }
    p
}

/// Computes `skip_field`.
fn skip_field_exec(s: &str, n: usize, i: usize) -> (r: usize)
    requires
        n == s@.len(),
        i <= n,
    ensures
        r == skip_field(s@, i as int),
        i <= r <= n,
{
    let mut p = i;
    while p < n && !is_fen_space_exec(s.get_char(p))
        invariant
            i <= p <= n,
            n == s@.len(),
            skip_field(s@, i as int) == skip_field(s@, p as int),
        decreases n - p,
    {
        p = p + 1;
    }
    p
}

/// Computes `field_start`.
fn field_start_exec(s: &str, n: usize, k: usize, i: usize) -> (r: usize)
    requires
        n == s@.len(),
        i <= n,
    ensures
        r == field_start(s@, k as int, i as int),
        r <= n,
{
    let mut t = k;
    let mut p = i;
    while t > 0
        invariant
            p <= n,
            n == s@.len(),
            field_start(s@, k as int, i as int) == field_start(s@, t as int, p as int),
        decreases t,
    {
        let a = skip_spaces_exec(s, n, p);
        p = skip_field_exec(s, n, a);
        t = t - 1;
    }
    skip_spaces_exec(s, n, p)
}

/// Computes `count_char`.
fn count_char_exec(s: &str, n: usize, c: char, i: usize, j: usize) -> (r: usize)
    requires
        n == s@.len(),
        i <= j <= n,
    ensures
        r == count_char(s@, c, i as int, j as int),
{
    let mut p = i;
    let mut acc: usize = 0;
    while p < j
        invariant
            i <= p <= j <= n,
            n == s@.len(),
            acc == count_char(s@, c, i as int, p as int),
            acc <= p - i,
        decreases j - p,
    {
        if s.get_char(p) == c {
            acc = acc + 1;
        }
        p = p + 1;
    }
    acc
}

/// Computes `next_rank_end`.
fn next_rank_end_exec(s: &str, n: usize, i: usize, e: usize) -> (r: usize)
    requires
        n == s@.len(),
        i <= e <= n,
    ensures
        r == next_rank_end(s@, i as int, e as int),
        i <= r <= e,
{
    let mut p = i;
    while p < e && s.get_char(p) != '/'
        invariant
            i <= p <= e <= n,
            n == s@.len(),
            next_rank_end(s@, i as int, e as int) == next_rank_end(s@, p as int, e as int),
        decreases e - p,
    {
        p = p + 1;
    }
    p
}

/// Computes the board-step of one placement character.
fn placement_step_exec(c: char) -> (r: u32)
    ensures
        r == placement_step(c),
        r <= 9,
{
    let u = c as u32;
    if 48 <= u && u <= 57 {
        u - 48
    } else {
        1
    }
}

/// Computes `rank_scan_safe` from a fresh scan.
fn rank_scan_safe_exec(s: &str, n: usize, i: usize, j: usize) -> (r: bool)
    requires
        n == s@.len(),
        i <= j <= n,
    ensures
        r == rank_scan_safe(s@, i as int, j as int, 0),
{
    let mut p = i;
    let mut walked: u32 = 0;
    while p < j
        invariant
            i <= p <= j <= n,
            n == s@.len(),
            walked <= 16,
            rank_scan_safe(s@, i as int, j as int, 0) == rank_scan_safe(
                s@,
                p as int,
                j as int,
                walked as int,
            ),
        decreases j - p,
    {
        if walked >= 8 {
            return false;
        }
        walked = walked + placement_step_exec(s.get_char(p));
        p = p + 1;
    }
    true
}

/// Computes `ranks_safe`.
fn ranks_safe_exec(s: &str, n: usize, i: usize, e: usize) -> (r: bool)
    requires
        n == s@.len(),
        i <= e <= n,
    ensures
        r == ranks_safe(s@, i as int, e as int),
{
    let mut p = i;
    while p < e
        invariant
            i <= p <= e <= n,
            n == s@.len(),
            ranks_safe(s@, i as int, e as int) == ranks_safe(s@, p as int, e as int),
        decreases e - p,
    {
        let j = next_rank_end_exec(s, n, p, e);
        if !rank_scan_safe_exec(s, n, p, j) {
            return false;
        }
        if j >= e {
            return true;
        }
        p = j + 1;
    }
    true
}

/// Computes `castle_field_safe`.
fn castle_field_safe_exec(s: &str, n: usize, i: usize, j: usize) -> (r: bool)
    requires
        n == s@.len(),
        i <= j <= n,
    ensures
        r == castle_field_safe(s@, i as int, j as int),
{
    let mut p = i;
    while p < j
        invariant
            i <= p <= j <= n,
            n == s@.len(),
            forall|q: int| i <= q < p ==> is_castle_char(#[trigger] s@[q]),
        decreases j - p,
    {
        let c = s.get_char(p);
        if !(c == 'K' || c == 'Q' || c == 'k' || c == 'q' || c == '-') {
            return false;
        }
        p = p + 1;
    }
    true
}

/// Computes `move_counter_safe`.
fn move_counter_safe_exec(s: &str, n: usize, i: usize, j: usize) -> (r: bool)
    requires
        n == s@.len(),
        i <= j <= n,
    ensures
        r == move_counter_safe(s@, i as int, j as int),
{
    if j - i == 1 && s.get_char(i) == '-' {
        return true;
    }
    if j - i < 1 || j - i > 4 {
        return false;
    }
    let mut p = i;
    while p < j
        invariant
            i <= p <= j <= n,
            n == s@.len(),
            all_digits(s@, i as int, p as int),
            !(j - i == 1 && s@[i as int] == '-'),
        decreases j - p,
    {
        let u = s.get_char(p) as u32;
        if !(48 <= u && u <= 57) {
            proof {
                if all_digits(s@, i as int, j as int) {
                    lemma_all_digits_index(s@, i as int, j as int, p as int);
                }
            }
            return false;
        }
        p = p + 1;
    }
    let zeros = count_char_exec(s, n, '0', i, j);
    zeros < j - i
}

/// Decides `fen_guard`: whether the notation string is safe to hand to the
/// outside position parser.
pub fn fen_check(s: &str) -> (ok: bool)
    ensures
        ok == fen_guard(s@),
{
    if !s.is_ascii() {
        return false;
    }
    let n = s.unicode_len();
    let t0 = skip_spaces_exec(s, n, 0);
    let e0 = skip_field_exec(s, n, t0);
    if !ranks_safe_exec(s, n, t0, e0) {
        return false;
    }
    if count_char_exec(s, n, 'k', t0, e0) != 1 {
        return false;
    }
    if count_char_exec(s, n, 'K', t0, e0) != 1 {
        return false;
    }
    let t2 = field_start_exec(s, n, 2, 0);
    if t2 < n {
        let e2 = skip_field_exec(s, n, t2);
        if !castle_field_safe_exec(s, n, t2, e2) {
            return false;
        }
    }
    let t5 = field_start_exec(s, n, 5, 0);
    if t5 < n {
        let e5 = skip_field_exec(s, n, t5);
        if !move_counter_safe_exec(s, n, t5, e5) {
            return false;
        }
    }
    true
}

} // verus!
