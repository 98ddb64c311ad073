use vstd::prelude::*;
use crate::text::scan;

verus! {

pub open spec fn slash() -> spec_fn(char) -> bool {
    |c: char| c == '/'
}

/// Unicode's `White_Space` property, which `char::is_whitespace` follows.
pub open spec fn is_white(c: char) -> bool {
    let v = c as u32;
    (9 <= v <= 13) || v == 32 || v == 0x85 || v == 0xa0 || v == 0x1680 || (0x2000 <= v
        <= 0x200a) || v == 0x2028 || v == 0x2029 || v == 0x202f || v == 0x205f || v == 0x3000
}

pub open spec fn white() -> spec_fn(char) -> bool {
    |c: char| is_white(c)
}

pub open spec fn non_white() -> spec_fn(char) -> bool {
    |c: char| !is_white(c)
}

/// The first whitespace-separated word of `seg`, or nothing.
pub open spec fn first_word(seg: Seq<char>) -> Seq<char> {
    let a = scan(seg, 0, non_white());
    seg.subrange(a, scan(seg, a, white()))
}

/// The identifier of a request: the third `/`-separated piece of the text
/// (the one after `/helados/`), cut at its first word; empty when the text has
/// fewer than two slashes.
pub open spec fn id_field(s: Seq<char>) -> Seq<char> {
    let e0 = scan(s, 0, slash());
    let e1 = scan(s, e0 + 1, slash());
    if e0 >= s.len() || e1 >= s.len() {
        Seq::empty()
    } else {
        first_word(s.subrange(e1 + 1, scan(s, e1 + 1, slash())))
    }
}

/// Whether the four characters at `i` are the blank line `\r\n\r\n`.
pub open spec fn blank_line_at(s: Seq<char>, i: int) -> bool {
    0 <= i && i + 4 <= s.len() && s[i] == '\r' && s[i + 1] == '\n' && s[i + 2] == '\r' && s[i + 3]
        == '\n'
}

/// Where the last piece begins when `s` is cut at each blank line, the blank
/// lines being found from left to right without overlap (`start` is where the
/// current piece began).
pub open spec fn last_piece_start(s: Seq<char>, i: int, start: int) -> int
    decreases s.len() - i,
{
    if i < 0 || i + 4 > s.len() {
        start
    } else if blank_line_at(s, i) {
        last_piece_start(s, i + 4, i + 4)
    } else {
        last_piece_start(s, i + 1, start)
    }
}

/// The body of a request: what follows the last blank line.
pub open spec fn body_field(s: Seq<char>) -> Seq<char> {
    s.subrange(last_piece_start(s, 0, 0), s.len() as int)
}

/// The first index at or after `from` that holds a `/`, or the length.
fn next_slash(s: &str, from: usize) -> (r: usize)
    requires
        from <= s@.len(),
    ensures
        r == scan(s@, from as int, slash()),
        from <= r <= s@.len(),
{
    let n = s.unicode_len();
    let mut i = from;
    while i < n && s.get_char(i) != '/'
        invariant
            n == s@.len(),
            from <= i <= n,
            scan(s@, from as int, slash()) == scan(s@, i as int, slash()),
        decreases n - i,
    {
        i = i + 1;
    }
    i
}

fn is_whitespace(c: char) -> (r: bool)
    ensures
        r == is_white(c),
{
    let v = c as u32;
    (9 <= v && v <= 13) || v == 32 || v == 0x85 || v == 0xa0 || v == 0x1680 || (0x2000 <= v && v
        <= 0x200a) || v == 0x2028 || v == 0x2029 || v == 0x202f || v == 0x205f || v == 0x3000
}

/// The first index at or after `from` whose character is (when `want` holds)
/// or is not (otherwise) whitespace, or the length.
fn next_white(s: &str, from: usize, want: bool) -> (r: usize)
    requires
        from <= s@.len(),
    ensures
        r == scan(s@, from as int, if want { white() } else { non_white() }),
        from <= r <= s@.len(),
{
    let ghost p = if want { white() } else { non_white() };
    let n = s.unicode_len();
    let mut i = from;
    while i < n && is_whitespace(s.get_char(i)) != want
        invariant
            n == s@.len(),
            from <= i <= n,
            p == if want { white() } else { non_white() },
            scan(s@, from as int, p) == scan(s@, i as int, p),
        decreases n - i,
    {
        i = i + 1;
    }
    i
}

/// The identifier that a request carries in its path, as text.
pub fn get_id(request: &str) -> (r: &str)
    ensures
        r@ == id_field(request@),
{
    let n = request.unicode_len();
    let e0 = next_slash(request, 0);
    if e0 >= n {
        proof {
            reveal_strlit("");
        }
        return "";
    }
    let e1 = next_slash(request, e0 + 1);
    if e1 >= n {
        proof {
            reveal_strlit("");
        }
        return "";
    }
    let e2 = next_slash(request, e1 + 1);
    let seg = request.substring_char(e1 + 1, e2);
    let a = next_white(seg, 0, false);
    let b = next_white(seg, a, true);
    seg.substring_char(a, b)
}

fn blank_line(s: &str, i: usize) -> (r: bool)
    ensures
        r == blank_line_at(s@, i as int),
{
    let n = s.unicode_len();
    if i > n || n - i < 4 {
        return false;
    }
    s.get_char(i) == '\r' && s.get_char(i + 1) == '\n' && s.get_char(i + 2) == '\r' && s.get_char(
        i + 3,
    ) == '\n'
}

/// The body of a request: the text after its last blank line (all of it when
/// there is none).
pub fn request_body(request: &str) -> (r: &str)
    ensures
        r@ == body_field(request@),
{
    let n = request.unicode_len();
    let mut i: usize = 0;
    let mut start: usize = 0;
    while n >= 4 && i <= n - 4
        invariant
            n == request@.len(),
            start <= i <= n,
            start <= n,
            last_piece_start(request@, 0, 0) == last_piece_start(request@, i as int, start as int),
        decreases n - i,
    {
        if blank_line(request, i) {
            i = i + 4;
            start = i;
        } else {
            i = i + 1;
        }
    }
    request.substring_char(start, n)
}

pub open spec fn is_digit(c: char) -> bool {
    '0' <= c <= '9'
}

/// The value of a string of decimal digits.
pub open spec fn digits_value(s: Seq<char>) -> int
    decreases s.len(),
{
    if s.len() == 0 {
        0
    } else {
        digits_value(s.drop_last()) * 10 + (s.last() as int - '0' as int)
    }
}

pub open spec fn all_digits(s: Seq<char>) -> bool {
    forall|i: int| 0 <= i < s.len() ==> is_digit(#[trigger] s[i])
}

/// The integer that `s` writes in decimal: an optional `+` or `-` followed by
/// one digit or more, and nothing else.
pub open spec fn int_of(s: Seq<char>) -> Option<int> {
    if s.len() > 0 && (s[0] == '+' || s[0] == '-') {
        let d = s.drop_first();
        if d.len() > 0 && all_digits(d) {
            Some(
                if s[0] == '-' {
                    -digits_value(d)
                } else {
                    digits_value(d)
                },
            )
        } else {
            None
        }
    } else if s.len() > 0 && all_digits(s) {
        Some(digits_value(s))
    } else {
        None
    }
}

/// The `i32` that `s` writes, when it writes one in range.
pub open spec fn i32_of(s: Seq<char>) -> Option<i32> {
    match int_of(s) {
        Some(v) => if i32::MIN <= v <= i32::MAX {
            Some(v as i32)
        } else {
            None
        },
        None => None,
    }
}

proof fn lemma_digits_nonneg(s: Seq<char>)
    requires
        all_digits(s),
    ensures
        digits_value(s) >= 0,
    decreases s.len(),
{
    if s.len() > 0 {
        assert(is_digit(s[s.len() - 1]));
        assert(all_digits(s.drop_last()));
        lemma_digits_nonneg(s.drop_last());
    }
}

/// Reads an identifier as `str::parse::<i32>` does.
pub fn parse_id(s: &str) -> (r: Option<i32>)
    ensures
        r == i32_of(s@),
{
    let n = s.unicode_len();
    if n == 0 {
        return None;
    }
    let c0 = s.get_char(0);
    let signed = c0 == '+' || c0 == '-';
    let start: usize = if signed {
        1
    } else {
        0
    };
    if start == n {
        return None;
    }
    let ghost d = s@.subrange(start as int, n as int);
    assert(signed ==> d =~= s@.drop_first());
    assert(!signed ==> d =~= s@);
    // saturates just above the largest magnitude that fits
    let cap: i64 = 2147483649;
    let mut acc: i64 = 0;
    let mut i: usize = start;
    while i < n
        invariant
            n == s@.len(),
            start <= i <= n,
            d == s@.subrange(start as int, n as int),
            signed ==> d == s@.drop_first(),
            !signed ==> d == s@,
            signed == (s@[0] == '+' || s@[0] == '-'),
            start == (if signed { 1usize } else { 0usize }),
            0 <= acc <= cap,
            cap == 2147483649,
            all_digits(s@.subrange(start as int, i as int)),
            acc < cap ==> acc == digits_value(s@.subrange(start as int, i as int)),
            acc == cap ==> digits_value(s@.subrange(start as int, i as int)) >= cap,
        decreases n - i,
    {
        let c = s.get_char(i);
        if !('0' <= c && c <= '9') {
            assert(d[i - start] == c);
            assert(!all_digits(d));
            return None;
        }
        let ghost prev = s@.subrange(start as int, i as int);
        let ghost next = s@.subrange(start as int, i + 1);
        assert(next.drop_last() =~= prev);
        assert(all_digits(next));
        let v = (c as u32 - '0' as u32) as i64;
        if acc < cap {
            let t = acc * 10 + v;
            acc = if t >= cap {
                cap
            } else {
                t
            };
        } else {
            proof {
                lemma_digits_nonneg(prev);
            }
        }
        i = i + 1;
    }
    assert(s@.subrange(start as int, n as int) =~= d);
    if c0 == '-' {
        if acc <= 2147483648 {
            Some((-acc) as i32)
        } else {
            None
        }
    } else {
        if acc <= 2147483647 {
            Some(acc as i32)
        } else {
            None
        }
    }
}

} // verus!
