//! Decimal rendering and parsing of integers.
//!
//! Error messages carry the numeric code in decimal, version strings are
//! three decimal numbers joined by dots, and version numbers are read back
//! from such strings. This module states both directions over sequences of
//! characters and proves that reading back what was written gives the
//! number that was written.

use vstd::prelude::*;
use vstd::utf8::{decode_utf8, valid_utf8};

verus! {

/// The character of the decimal digit `d` (for `0 <= d < 10`).
pub open spec fn digit_char(d: int) -> char {
    if d == 0 {
        '0'
    } else if d == 1 {
        '1'
    } else if d == 2 {
        '2'
    } else if d == 3 {
        '3'
    } else if d == 4 {
        '4'
    } else if d == 5 {
        '5'
    } else if d == 6 {
        '6'
    } else if d == 7 {
        '7'
    } else if d == 8 {
        '8'
    } else {
        '9'
    }
}

/// Whether `c` is one of the ASCII digits `0` to `9`.
pub open spec fn is_digit(c: char) -> bool {
    '0' <= c && c <= '9'
}

/// The value of the ASCII digit `c`.
pub open spec fn digit_value(c: char) -> int {
    (c as int) - ('0' as int)
}

/// The decimal representation of `n`, most significant digit first, with
/// no leading zeros.
pub open spec fn nat_decimal(n: nat) -> Seq<char>
    decreases n,
{
    if n < 10 {
        seq![digit_char(n as int)]
    } else {
        nat_decimal(n / 10).push(digit_char((n % 10) as int))
    }
}

/// The decimal representation of `i`, with a leading `-` when negative
/// (the text that `{}` formatting gives an integer).
pub open spec fn int_decimal(i: int) -> Seq<char> {
    if i < 0 {
        seq!['-'] + nat_decimal((-i) as nat)
    } else {
        nat_decimal(i as nat)
    }
}

/// The value of a sequence of ASCII digits read most significant first.
pub open spec fn digits_value(s: Seq<char>) -> int
    decreases s.len(),
{
    if s.len() == 0 {
        0
    } else {
        digits_value(s.drop_last()) * 10 + digit_value(s.last())
    }
}

/// Whether `s` is a non-empty run of ASCII digits.
pub open spec fn all_digits(s: Seq<char>) -> bool {
    s.len() > 0 && forall|i: int| 0 <= i < s.len() ==> is_digit(#[trigger] s[i])
}

/// The integer that `s` spells: an optional `+` or `-` sign followed by
/// one or more ASCII digits; `None` for any other text.
pub open spec fn parse_int(s: Seq<char>) -> Option<int> {
    if s.len() > 0 && s[0] == '-' {
        if all_digits(s.skip(1)) {
            Some(-digits_value(s.skip(1)))
        } else {
            None
        }
    } else if s.len() > 0 && s[0] == '+' {
        if all_digits(s.skip(1)) {
            Some(digits_value(s.skip(1)))
        } else {
            None
        }
    } else if all_digits(s) {
        Some(digits_value(s))
    } else {
        None
    }
}

/// What reading `s` as an `i32` gives: the integer it spells when that
/// integer fits in an `i32`, else `None`.
pub open spec fn parse_i32(s: Seq<char>) -> Option<i32> {
    match parse_int(s) {
        Some(v) => if i32::MIN <= v <= i32::MAX {
            Some(v as i32)
        } else {
            None
        },
        None => None,
    }
}

/// The one-character string of the decimal digit `d`.
fn digit_str(d: u64) -> (r: &'static str)
    requires
        d < 10,
    ensures
        r@ == seq![digit_char(d as int)],
{
    if d == 0 {
        proof {
            reveal_strlit("0");
        }
        "0"
    } else if d == 1 {
        proof {
            reveal_strlit("1");
        }
        "1"
    } else if d == 2 {
        proof {
            reveal_strlit("2");
        }
        "2"
    } else if d == 3 {
        proof {
            reveal_strlit("3");
        }
        "3"
    } else if d == 4 {
        proof {
            reveal_strlit("4");
        }
        "4"
    } else if d == 5 {
        proof {
            reveal_strlit("5");
        }
        "5"
    } else if d == 6 {
        proof {
            reveal_strlit("6");
        }
        "6"
    } else if d == 7 {
        proof {
            reveal_strlit("7");
        }
        "7"
    } else if d == 8 {
        proof {
            reveal_strlit("8");
        }
        "8"
    } else {
        proof {
            reveal_strlit("9");
        }
        "9"
    }
}

/// Appends the decimal representation of `n` to `s`.
pub fn push_nat_decimal(s: &mut String, n: u64)
    ensures
        final(s)@ == old(s)@ + nat_decimal(n as nat),
    decreases n,
{
    if n >= 10 {
        push_nat_decimal(s, n / 10);
    }
    s.append(digit_str(n % 10));
    proof {
        if n >= 10 {
            assert(old(s)@ + nat_decimal((n / 10) as nat) + seq![digit_char((n % 10) as int)]
                =~= old(s)@ + nat_decimal(n as nat));
        } else {
            assert(nat_decimal(n as nat) == seq![digit_char(n as int)]);
        }
    }
}

/// Appends the decimal representation of `v`, with a leading `-` when
/// negative, to `s`.
pub fn push_int_decimal(s: &mut String, v: i64)
    ensures
        final(s)@ == old(s)@ + int_decimal(v as int),
{
    if v < 0 {
        proof {
            reveal_strlit("-");
        }
        s.append("-");
        let m: u64 = if v == i64::MIN {
            9223372036854775808u64
        } else {
            (-v) as u64
        };
        push_nat_decimal(s, m);
        proof {
            assert(old(s)@ + seq!['-'] + nat_decimal(m as nat) =~= old(s)@ + (seq!['-']
                + nat_decimal(m as nat)));
        }
    } else {
        push_nat_decimal(s, v as u64);
    }
}

/// The decimal representation of `v` as a new string.
pub fn int_to_string(v: i64) -> (r: String)
    ensures
        r@ == int_decimal(v as int),
{
    let mut s = String::new();
    push_int_decimal(&mut s, v);
    proof {
        assert(Seq::<char>::empty() + int_decimal(v as int) =~= int_decimal(v as int));
    }
    s
}


/// The parts of `s` between `.` separators, in order: `n` separators give
/// `n + 1` parts, and an empty text gives one empty part.
pub open spec fn split_dot(s: Seq<char>) -> Seq<Seq<char>>
    decreases s.len(),
{
    if s.len() == 0 {
        seq![Seq::<char>::empty()]
    } else {
        let prev = split_dot(s.drop_last());
        if s.last() == '.' {
            prev.push(Seq::<char>::empty())
        } else {
            prev.update(prev.len() - 1, prev.last().push(s.last()))
        }
    }
}

/// The views of a list of strings.
pub open spec fn views(v: Seq<String>) -> Seq<Seq<char>> {
    v.map_values(|p: String| p@)
}

proof fn lemma_split_dot_nonempty(s: Seq<char>)
    ensures
        split_dot(s).len() >= 1,
    decreases s.len(),
{
    if s.len() > 0 {
        lemma_split_dot_nonempty(s.drop_last());
    }
}

/// Splits `s` at every `.` (what `str::split('.')` yields, collected).
pub fn split_on_dot(s: &str) -> (r: Vec<String>)
    ensures
        views(r@) == split_dot(s@),
{
    let n = s.unicode_len();
    let mut parts: Vec<String> = Vec::new();
    let mut cur = String::new();
    let mut i: usize = 0;
    proof {
        assert(s@.take(0) =~= Seq::<char>::empty());
        assert(views(parts@).push(cur@) =~= split_dot(s@.take(0)));
    }
    while i < n
        invariant
            n == s@.len(),
            i <= n,
            views(parts@).push(cur@) == split_dot(s@.take(i as int)),
        decreases n - i,
    {
        let c = s.get_char(i);
        let ghost prev = split_dot(s@.take(i as int));
        proof {
            assert(s@.take(i + 1).drop_last() =~= s@.take(i as int));
            assert(s@.take(i + 1).last() == c);
        }
        if c == '.' {
            let done = cur;
            parts.push(done);
            cur = String::new();
            proof {
                assert(views(parts@).push(cur@) =~= prev.push(Seq::<char>::empty()));
            }
        } else {
            let ghost old_cur = cur@;
            let piece = s.substring_char(i, i + 1);
            cur.append(piece);
            proof {
                assert(prev.last() == old_cur);
                assert(piece@ =~= seq![c]);
                assert(cur@ =~= old_cur.push(c));
                assert(views(parts@).push(cur@) =~= prev.update(
                    prev.len() - 1,
                    prev.last().push(c),
                ));
            }
        }
        i = i + 1;
    }
    parts.push(cur);
    proof {
        assert(s@.take(n as int) =~= s@);
        assert(views(parts@) =~= split_dot(s@));
    }
    parts
}

/// `min(v, cap)` over integers.
pub open spec fn capped(v: int, cap: int) -> int {
    if v < cap {
        v
    } else {
        cap
    }
}

proof fn lemma_digits_value_nonneg(s: Seq<char>)
    requires
        forall|i: int| 0 <= i < s.len() ==> is_digit(#[trigger] s[i]),
    ensures
        digits_value(s) >= 0,
    decreases s.len(),
{
    if s.len() > 0 {
        lemma_digits_value_nonneg(s.drop_last());
        assert(is_digit(s[s.len() - 1]));
    }
}

proof fn lemma_capped_step(v: int, d: int, cap: int)
    requires
        v >= 0,
        0 <= d < 10,
        cap >= 0,
    ensures
        capped(capped(v, cap) * 10 + d, cap) == capped(v * 10 + d, cap),
{
    if v >= cap {
        assert(v * 10 + d >= cap) by (nonlinear_arith)
            requires
                v >= cap,
                cap >= 0,
                d >= 0,
        ;
        assert(cap * 10 + d >= cap) by (nonlinear_arith)
            requires
                cap >= 0,
                d >= 0,
        ;
    }
}

/// Reads `s` as an `i32` (what `str::parse::<i32>` accepts: an optional
/// sign and one or more ASCII digits, in range).
pub fn parse_i32_str(s: &str) -> (r: Option<i32>)
    ensures
        r == parse_i32(s@),
{
    let n = s.unicode_len();
    if n == 0 {
        return None;
    }
    let c0 = s.get_char(0);
    let neg = c0 == '-';
    let start: usize = if c0 == '-' || c0 == '+' {
        1
    } else {
        0
    };
    let ghost body = s@.skip(start as int);
    proof {
        assert(s@[0] == c0);
        if start == 0 {
            assert(body =~= s@);
        }
    }
    if start == n {
        proof {
            assert(body.len() == 0);
        }
        return None;
    }
    // `acc` is the value of the digits read so far, held at `cap` once it
    // passes it, so that it stays within `i64`.
    let cap: i64 = 2147483649;
    let mut acc: i64 = 0;
    let mut i: usize = start;
    proof {
        assert(body.take(0) =~= Seq::<char>::empty());
    }
    while i < n
        invariant
            n == s@.len(),
            start <= i <= n,
            body == s@.skip(start as int),
            s@.len() > 0,
            c0 == s@[0],
            start == (if c0 == '-' || c0 == '+' {
                1usize
            } else {
                0usize
            }),
            start == 0 ==> body == s@,
            cap == 2147483649,
            forall|k: int| 0 <= k < i - start ==> is_digit(#[trigger] body[k]),
            acc == capped(digits_value(body.take(i - start)), cap as int),
        decreases n - i,
    {
        let c = s.get_char(i);
        proof {
            assert(body[i - start] == c);
        }
        if !('0' <= c && c <= '9') {
            proof {
                assert(!is_digit(body[i - start]));
                assert(!all_digits(body));
                if c0 == '-' || c0 == '+' {
                    assert(parse_int(s@) is None);
                } else {
                    assert(body == s@);
                    assert(parse_int(s@) is None);
                }
            }
            return None;
        }
        let d: i64 = (c as u32 - '0' as u32) as i64;
        proof {
            let pre = body.take(i - start);
            assert(body.take(i - start + 1).drop_last() =~= pre);
            assert(body.take(i - start + 1).last() == c);
            lemma_digits_value_nonneg(pre);
            lemma_capped_step(digits_value(pre), d as int, cap as int);
        }
        let next = acc * 10 + d;
        acc = if next < cap {
            next
        } else {
            cap
        };
        i = i + 1;
    }
    proof {
        assert(body.take(n - start) =~= body);
        assert(all_digits(body));
        lemma_digits_value_nonneg(body);
        if c0 == '-' {
            assert(parse_int(s@) == Some(-digits_value(body)));
        } else if c0 == '+' {
            assert(parse_int(s@) == Some(digits_value(body)));
        } else {
            assert(parse_int(s@) == Some(digits_value(body)));
        }
    }
    if neg {
        if acc <= 2147483648 {
            Some((-acc) as i32)
        } else {
            None
        }
    } else {
        if acc <= 2147483647 {
            Some(acc as i32)
        } else {
            None
        }
    }
}


/// Writing a natural number in decimal gives a run of digits whose value is
/// that number.
pub proof fn lemma_nat_decimal_reads_back(n: nat)
    ensures
        all_digits(nat_decimal(n)),
        digits_value(nat_decimal(n)) == n,
    decreases n,
{
    if n >= 10 {
        lemma_nat_decimal_reads_back(n / 10);
        let prev = nat_decimal(n / 10);
        let d = (n % 10) as int;
        assert(nat_decimal(n) == prev.push(digit_char(d)));
        assert(prev.push(digit_char(d)).drop_last() =~= prev);
        assert(digit_value(digit_char(d)) == d);
        assert(digits_value(prev.push(digit_char(d))) == digits_value(prev) * 10 + d);
        assert(n == (n / 10) * 10 + d);
        assert forall|i: int| 0 <= i < nat_decimal(n).len() implies is_digit(
            #[trigger] nat_decimal(n)[i],
        ) by {
            if i < prev.len() {
                assert(nat_decimal(n)[i] == prev[i]);
            }
        }
    } else {
        let s = nat_decimal(n);
        assert(s.drop_last() =~= Seq::<char>::empty());
        assert(digits_value(s.drop_last()) == 0);
        assert(digit_value(digit_char(n as int)) == n);
        assert(digits_value(s) == digits_value(s.drop_last()) * 10 + digit_value(s.last()));
    }
}

/// Reading back the decimal text of an integer gives that integer.
pub proof fn lemma_int_decimal_reads_back(i: int)
    ensures
        parse_int(int_decimal(i)) == Some(i),
{
    if i < 0 {
        let m = (-i) as nat;
        lemma_nat_decimal_reads_back(m);
        let s = seq!['-'] + nat_decimal(m);
        assert(s.skip(1) =~= nat_decimal(m));
        assert(s[0] == '-');
    } else {
        lemma_nat_decimal_reads_back(i as nat);
        let s = nat_decimal(i as nat);
        assert(is_digit(s[0]));
    }
}

/// Reading back the decimal text of an `i32` as an `i32` gives it back.
pub proof fn lemma_i32_decimal_reads_back(v: i32)
    ensures
        parse_i32(int_decimal(v as int)) == Some(v),
{
    lemma_int_decimal_reads_back(v as int);
}

/// Decimal text never holds a `.`.
pub proof fn lemma_int_decimal_has_no_dot(i: int)
    ensures
        forall|k: int| 0 <= k < int_decimal(i).len() ==> #[trigger] int_decimal(i)[k] != '.',
{
    if i < 0 {
        let m = (-i) as nat;
        lemma_nat_decimal_reads_back(m);
        assert forall|k: int| 0 <= k < int_decimal(i).len() implies #[trigger] int_decimal(
            i,
        )[k] != '.' by {
            if k > 0 {
                assert(int_decimal(i)[k] == nat_decimal(m)[k - 1]);
                assert(is_digit(nat_decimal(m)[k - 1]));
            }
        }
    } else {
        lemma_nat_decimal_reads_back(i as nat);
        assert forall|k: int| 0 <= k < int_decimal(i).len() implies #[trigger] int_decimal(
            i,
        )[k] != '.' by {
            assert(is_digit(nat_decimal(i as nat)[k]));
        }
    }
}

/// A text without `.` splits into itself alone.
pub proof fn lemma_split_dot_without_dot(q: Seq<char>)
    requires
        forall|k: int| 0 <= k < q.len() ==> #[trigger] q[k] != '.',
    ensures
        split_dot(q) == seq![q],
    decreases q.len(),
{
    if q.len() > 0 {
        let p = q.drop_last();
        assert forall|k: int| 0 <= k < p.len() implies #[trigger] p[k] != '.' by {
            assert(p[k] == q[k]);
        }
        lemma_split_dot_without_dot(p);
        assert(q.last() != '.');
        assert(p.push(q.last()) =~= q);
        assert(seq![p].update(0, p.push(q.last())) =~= seq![q]);
    } else {
        assert(q =~= Seq::<char>::empty());
    }
}

/// Splitting `p . q` gives the parts of `p` followed by the parts of `q`.
pub proof fn lemma_split_dot_join(p: Seq<char>, q: Seq<char>)
    ensures
        split_dot(p + seq!['.'] + q) == split_dot(p) + split_dot(q),
    decreases q.len(),
{
    let pd = p + seq!['.'];
    if q.len() == 0 {
        assert(pd + q =~= pd);
        assert(pd.drop_last() =~= p);
        assert(split_dot(q) =~= seq![Seq::<char>::empty()]);
        assert(split_dot(p).push(Seq::<char>::empty()) =~= split_dot(p) + split_dot(q));
    } else {
        let q0 = q.drop_last();
        lemma_split_dot_join(p, q0);
        lemma_split_dot_nonempty(q0);
        lemma_split_dot_nonempty(p);
        let whole = pd + q;
        assert(whole.drop_last() =~= pd + q0);
        assert(whole.last() == q.last());
        let a = split_dot(p);
        let b = split_dot(q0);
        if q.last() == '.' {
            assert((a + b).push(Seq::<char>::empty()) =~= a + b.push(Seq::<char>::empty()));
        } else {
            assert((a + b).update((a + b).len() - 1, (a + b).last().push(q.last())) =~= a
                + b.update(b.len() - 1, b.last().push(q.last())));
        }
    }
}

/// `std::str::from_utf8`: the bytes read as text, or `None` when they are
/// not valid UTF-8.
///
/// Trusted: the standard library documents that `from_utf8` succeeds
/// exactly on valid UTF-8, and then its text is the decoding of the bytes.
#[verifier::external_body]
pub(crate) fn utf8_text(bytes: &[u8]) -> (r: Option<&str>)
    ensures
        r is Some <==> valid_utf8(bytes@),
        r matches Some(s) ==> s@ == decode_utf8(bytes@),
{
    match std::str::from_utf8(bytes) {
        Ok(s) => Some(s),
        Err(_) => None,
    }
}

/// The bytes of `buf` before its first zero byte (all of `buf` when it
/// holds none): the text of a NUL-terminated C string stored in `buf`.
pub open spec fn nul_terminated(buf: Seq<u8>) -> Seq<u8>
    decreases buf.len(),
{
    if buf.len() == 0 || buf[0] == 0 {
        Seq::<u8>::empty()
    } else {
        seq![buf[0]] + nul_terminated(buf.drop_first())
    }
}

/// The text of the NUL-terminated C string stored in a buffer, or the
/// empty text when those bytes are not valid UTF-8.
pub open spec fn c_string_text(buf: Seq<u8>) -> Seq<char> {
    if valid_utf8(nul_terminated(buf)) {
        decode_utf8(nul_terminated(buf))
    } else {
        Seq::<char>::empty()
    }
}

proof fn lemma_nul_terminated_prefix(buf: Seq<u8>, i: int)
    requires
        0 <= i <= buf.len(),
        forall|k: int| 0 <= k < i ==> buf[k] != 0,
        i == buf.len() || buf[i] == 0,
    ensures
        nul_terminated(buf) == buf.take(i),
    decreases buf.len(),
{
    if buf.len() > 0 && buf[0] != 0 {
        let rest = buf.drop_first();
        assert forall|k: int| 0 <= k < i - 1 implies rest[k] != 0 by {
            assert(rest[k] == buf[k + 1]);
        }
        lemma_nul_terminated_prefix(rest, i - 1);
        assert(seq![buf[0]] + rest.take(i - 1) =~= buf.take(i));
    } else {
        assert(buf.take(i) =~= Seq::<u8>::empty());
    }
}

/// The text of the NUL-terminated C string stored in `buf`, or the empty
/// string when it is not valid UTF-8.
pub fn c_string_to_string(buf: &[u8]) -> (r: String)
    ensures
        r@ == c_string_text(buf@),
{
    let mut bytes: Vec<u8> = Vec::new();
    let mut i: usize = 0;
    while i < buf.len() && buf[i] != 0
        invariant
            i <= buf@.len(),
            forall|k: int| 0 <= k < i ==> buf@[k] != 0,
            bytes@ == buf@.take(i as int),
        decreases buf@.len() - i,
    {
        bytes.push(buf[i]);
        i = i + 1;
        proof {
            assert(bytes@ =~= buf@.take(i as int));
        }
    }
    proof {
        lemma_nul_terminated_prefix(buf@, i as int);
    }
    match utf8_text(bytes.as_slice()) {
        Some(s) => String::from_str(s),
        None => String::new(),
    }
}

} // verus!
