//! Unsigned numbers given as text: the console verbosity level and the
//! discovery ports.
use vstd::prelude::*;

use crate::text::chars_of;

verus! {

/// The highest verbosity level.
pub const MAX_LEVEL: usize = 4;

/// Why a verbosity level was refused.
#[derive(Debug, Clone, Copy, PartialEq, Eq, Structural)]
pub enum LevelError {
    /// The text is not an unsigned number that fits a `usize`.
    NotANumber,
    /// The number is above `MAX_LEVEL`.
    OutOfRange,
}

pub open spec fn is_digit(c: char) -> bool {
    '0' <= c && c <= '9'
}

/// The value of a string of decimal digits.
pub open spec fn digits_value(s: Seq<char>) -> nat
    decreases s.len(),
{
    if s.len() == 0 {
        0
    } else {
        digits_value(s.drop_last()) * 10 + ((s.last() as int - '0' as int) as nat)
    }
}

/// The digits after an optional leading `+`.
pub open spec fn unsigned_body(s: Seq<char>) -> Seq<char> {
    if s.len() > 0 && s[0] == '+' { s.drop_first() } else { s }
}

/// The number that `s` writes as an unsigned decimal (an optional `+`, then
/// at least one digit), if it is one.
pub open spec fn unsigned_text(s: Seq<char>) -> Option<nat> {
    let b = unsigned_body(s);
    if b.len() > 0 && forall|i: int| 0 <= i < b.len() ==> is_digit(#[trigger] b[i]) {
        Some(digits_value(b))
    } else {
        None
    }
}

proof fn lemma_digits_grow(p: Seq<char>, s: Seq<char>)
    requires
        s.len() >= p.len(),
        p == s.subrange(0, p.len() as int),
        forall|i: int| 0 <= i < s.len() ==> is_digit(#[trigger] s[i]),
    ensures
        digits_value(s) >= digits_value(p),
    decreases s.len(),
{
    if s.len() > p.len() {
        let t = s.drop_last();
        assert(p == t.subrange(0, p.len() as int));
        assert forall|i: int| 0 <= i < t.len() implies is_digit(#[trigger] t[i]) by {
            assert(t[i] == s[i]);
        }
        lemma_digits_grow(p, t);
    } else {
        assert(p =~= s);
    }
}

/// Reads an unsigned decimal number (an optional `+`, then digits) that
/// fits a `usize`.
pub fn parse_unsigned(s: &str) -> (r: Option<usize>)
    ensures
        match r {
            Some(v) => unsigned_text(s@) == Some(v as nat),
            None => match unsigned_text(s@) {
                Some(v) => v > usize::MAX,
                None => true,
            },
        },
{
    let v = chars_of(s);
    let start: usize = if v.len() > 0 && v[0] == '+' { 1 } else { 0 };
    let ghost b = unsigned_body(s@);
    assert(b =~= v@.subrange(start as int, v@.len() as int));
    if start >= v.len() {
        return None;
    }
    let mut value: usize = 0;
    let mut i: usize = start;
    assert(b.subrange(0, 0) =~= Seq::<char>::empty());
    while i < v.len()
        invariant
            start <= i <= v@.len(),
            v@ == s@,
            b == unsigned_body(s@),
            b == v@.subrange(start as int, v@.len() as int),
            forall|j: int| 0 <= j < i - start ==> is_digit(#[trigger] b[j]),
            value as nat == digits_value(b.subrange(0, i - start)),
        decreases v@.len() - i,
    {
        let c = v[i];
        if !('0' <= c && c <= '9') {
            proof {
                assert(b[i - start] == v@[i as int]);
                assert(!is_digit(b[i - start]));
                assert(unsigned_text(s@).is_none());
            }
            return None;
        }
        let d = (c as u32 - '0' as u32) as usize;
        let ghost prefix = b.subrange(0, i - start + 1);
        assert(prefix.drop_last() =~= b.subrange(0, i - start));
        assert(prefix.last() == c);
        if value > (usize::MAX - d) / 10 {
            proof {
                assert(value * 10 + d > usize::MAX) by (nonlinear_arith)
                    requires
                        value > (usize::MAX - d) / 10,
                        d <= 9,
                ;
                assert(b[i - start] == v@[i as int]);
                assert(digits_value(prefix) == value * 10 + d);
                if forall|j: int| 0 <= j < b.len() ==> is_digit(#[trigger] b[j]) {
                    lemma_digits_grow(prefix, b);
                    assert(unsigned_text(s@) == Some(digits_value(b)));
                }
            }
            return None;
        }
        assert(value * 10 + d <= usize::MAX) by (nonlinear_arith)
            requires
                value <= (usize::MAX - d) / 10,
                d <= 9,
        ;
        proof {
            assert(b[i - start] == v@[i as int]);
            assert(digits_value(prefix) == value * 10 + d);
        }
        value = value * 10 + d;
        i = i + 1;
    }
    assert(b.subrange(0, v@.len() - start) =~= b);
    Some(value)
}

/// Reads a verbosity level: an unsigned decimal number from 0 to 4.
pub fn level_in_range(s: &str) -> (r: Result<u8, LevelError>)
    ensures
        match r {
            Ok(l) => unsigned_text(s@) == Some(l as nat) && l <= MAX_LEVEL,
            Err(LevelError::NotANumber) => match unsigned_text(s@) {
                Some(v) => v > usize::MAX,
                None => true,
            },
            Err(LevelError::OutOfRange) => match unsigned_text(s@) {
                Some(v) => MAX_LEVEL < v <= usize::MAX,
                None => false,
            },
        },
{
    match parse_unsigned(s) {
        None => Err(LevelError::NotANumber),
        Some(v) => {
            if v > MAX_LEVEL {
                Err(LevelError::OutOfRange)
            } else {
                Ok(v as u8)
            }
        },
    }
}

/// The port that the text of a variable gives, or `default_value` when the
/// variable is unset or not an unsigned number below 65536.
pub fn port_or_default(value: Option<&str>, default_value: u16) -> (r: u16)
    ensures
        r == match value {
            Some(s) => match unsigned_text(s@) {
                Some(v) => if v <= 65535 { v as u16 } else { default_value },
                None => default_value,
            },
            None => default_value,
        },
{
    match value {
        None => default_value,
        Some(s) => match parse_unsigned(s) {
            Some(v) => if v <= 65535 { v as u16 } else { default_value },
            None => default_value,
        },
    }
}

} // verus!
