//! The listening address of the proxy, read from its dotted text form.

use vstd::prelude::*;

verus! {

/// The parts of `s` between dots, as `str::split('.')` gives them: one more than there are
/// dots, empty ones included.
pub open spec fn split_dots(s: Seq<char>) -> Seq<Seq<char>>
    decreases s.len(),
{
    if s.len() == 0 {
        seq![Seq::<char>::empty()]
    } else {
        let r = split_dots(s.drop_last());
        if s.last() == '.' {
            r.push(Seq::empty())
        } else {
            r.update(r.len() - 1, r.last().push(s.last()))
        }
    }
}

pub open spec fn is_digit(c: char) -> bool {
    '0' <= c && c <= '9'
}

/// The value of a run of decimal digits.
pub open spec fn digits_value(d: Seq<char>) -> int
    decreases d.len(),
{
    if d.len() == 0 {
        0
    } else {
        digits_value(d.drop_last()) * 10 + (d.last() as u32 - '0' as u32)
    }
}

/// The text without one leading `+`.
pub open spec fn unsigned_part(t: Seq<char>) -> Seq<char> {
    if t.len() > 0 && t[0] == '+' { t.drop_first() } else { t }
}

pub open spec fn all_digits(d: Seq<char>) -> bool {
    forall|i: int| 0 <= i < d.len() ==> is_digit(#[trigger] d[i])
}

/// The byte that `t` denotes, as `u8::from_str` reads it: an optional `+`, then at least one
/// decimal digit, with a value below 256.
pub open spec fn parse_byte(t: Seq<char>) -> Option<u8> {
    let d = unsigned_part(t);
    if d.len() > 0 && all_digits(d) && digits_value(d) <= 255 {
        Some(digits_value(d) as u8)
    } else {
        None
    }
}

/// The bytes denoted by those of `parts` that denote one, in order.
pub open spec fn parsed_bytes(parts: Seq<Seq<char>>) -> Seq<u8>
    decreases parts.len(),
{
    if parts.len() == 0 {
        Seq::empty()
    } else {
        let r = parsed_bytes(parts.drop_last());
        match parse_byte(parts.last()) {
            Some(b) => r.push(b),
            None => r,
        }
    }
}

/// The byte that `t` denotes, if it denotes one.
pub fn parse_byte_exec(t: &str) -> (r: Option<u8>)
    ensures
        r == parse_byte(t@),
{
    let n = t.unicode_len();
    let start: usize = if n > 0 && t.get_char(0) == '+' { 1 } else { 0 };
    let ghost d = unsigned_part(t@);
    assert(d =~= t@.subrange(start as int, n as int));
    if start == n {
        return None;
    }
    let mut i: usize = start;
    let mut v: u32 = 0;
    while i < n
        invariant
            start <= i <= n,
            n == t@.len(),
            d == t@.subrange(start as int, n as int),
            d == unsigned_part(t@),
            forall|j: int| start <= j < i ==> is_digit(#[trigger] t@[j]),
            v as int == if digits_value(t@.subrange(start as int, i as int)) < 256 {
                digits_value(t@.subrange(start as int, i as int))
            } else {
                256
            },
            digits_value(t@.subrange(start as int, i as int)) >= 0,
        decreases n - i,
    {
        let c = t.get_char(i);
        if !('0' <= c && c <= '9') {
            assert(d[i - start] == c);
            assert(!is_digit(d[i - start]));
            assert(!all_digits(d));
            return None;
        }
        let digit = (c as u32) - ('0' as u32);
        let ghost before = t@.subrange(start as int, i as int);
        let ghost after = t@.subrange(start as int, i + 1);
        assert(after.drop_last() =~= before);
        assert(digits_value(after) == digits_value(before) * 10 + digit);
        let next = v * 10 + digit;
        v = if next > 256 { 256 } else { next };
        proof {
            if digits_value(before) >= 256 {
                assert(digits_value(before) * 10 >= 256) by (nonlinear_arith)
                    requires digits_value(before) >= 256;
            } else {
                assert(digits_value(before) * 10 >= 0) by (nonlinear_arith)
                    requires digits_value(before) >= 0;
            }
        }
        i = i + 1;
    }
    assert(t@.subrange(start as int, n as int) == d);
    assert forall|j: int| 0 <= j < d.len() implies is_digit(#[trigger] d[j]) by {
        assert(d[j] == t@[j + start]);
    }
    if v <= 255 {
        Some(v as u8)
    } else {
        None
    }
}

/// The bytes of the dotted address `s`: those of its parts that denote a byte, where there
/// are four; none otherwise.
pub fn dotted_quad(s: &str) -> (r: Option<[u8; 4]>)
    ensures
        match r {
            Some(a) => parsed_bytes(split_dots(s@)).len() == 4 && a@ == parsed_bytes(split_dots(s@)),
            None => parsed_bytes(split_dots(s@)).len() != 4,
        },
{
    let n = s.unicode_len();
    let mut vals: Vec<u8> = Vec::new();
    let mut start: usize = 0;
    let mut i: usize = 0;
    assert(s@.subrange(0, 0) =~= Seq::<char>::empty());
    while i < n
        invariant
            n == s@.len(),
            start <= i <= n,
            split_dots(s@.subrange(0, i as int)).len() >= 1,
            split_dots(s@.subrange(0, i as int)).last() == s@.subrange(start as int, i as int),
            vals@ == parsed_bytes(split_dots(s@.subrange(0, i as int)).drop_last()),
        decreases n - i,
    {
        let ghost pre = s@.subrange(0, i as int);
        let ghost post = s@.subrange(0, i + 1);
        assert(post.drop_last() =~= pre);
        assert(post.last() == s@[i as int]);
        let c = s.get_char(i);
        if c == '.' {
            let part = s.substring_char(start, i);
            match parse_byte_exec(part) {
                Some(b) => vals.push(b),
                None => {},
            }
            proof {
                let sp = split_dots(pre);
                assert(split_dots(post) == sp.push(Seq::<char>::empty()));
                assert(split_dots(post).drop_last() =~= sp);
                assert(sp =~= sp.drop_last().push(sp.last()));
            }
            start = i + 1;
            assert(s@.subrange(start as int, i + 1) =~= Seq::<char>::empty());
        } else {
            proof {
                let sp = split_dots(pre);
                let q = split_dots(post);
                assert(q == sp.update(sp.len() - 1, sp.last().push(c)));
                assert(q.drop_last() =~= sp.drop_last());
                assert(s@.subrange(start as int, i + 1) =~= s@.subrange(start as int, i as int).push(c));
            }
        }
        i = i + 1;
    }
    assert(s@.subrange(0, n as int) =~= s@);
    let last = s.substring_char(start, n);
    match parse_byte_exec(last) {
        Some(b) => vals.push(b),
        None => {},
    }
    proof {
        let sp = split_dots(s@);
        assert(sp =~= sp.drop_last().push(sp.last()));
    }
    if vals.len() == 4 {
        let a = [vals[0], vals[1], vals[2], vals[3]];
        assert(a@ =~= vals@);
        Some(a)
    } else {
        None
    }
}

} // verus!
