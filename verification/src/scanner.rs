use vstd::prelude::*;
use vstd::string::StrSliceExecFns;

verus! {

/// The value of one digit under the given radix, if it is one: `0`-`9`
/// always, and both cases of `a`-`f` when the radix is 16.
pub open spec fn digit_value(c: char, radix: u32) -> Option<int> {
    let cu = c as u32;
    if 48 <= cu <= 57 {
        Some((cu - 48) as int)
    } else if radix == 16 && 97 <= cu <= 102 {
        Some((cu - 87) as int)
    } else if radix == 16 && 65 <= cu <= 70 {
        Some((cu - 55) as int)
    } else {
        None
    }
}

/// The number a non-empty digit string denotes under the given radix; nothing
/// when it is empty or holds a non-digit.
pub open spec fn digits_value(s: Seq<char>, radix: u32) -> Option<int>
    decreases s.len(),
{
    if s.len() == 0 {
        None
    } else if s.len() == 1 {
        digit_value(s[0], radix)
    } else {
        match (digits_value(s.drop_last(), radix), digit_value(s.last(), radix)) {
            (Some(v), Some(d)) => Some(v * radix + d),
            _ => None,
        }
    }
}

/// A denoted number is never negative.
pub proof fn lemma_digits_value_nonneg(s: Seq<char>, radix: u32)
    ensures
        digits_value(s, radix) matches Some(v) ==> v >= 0,
    decreases s.len(),
{
    if s.len() > 1 {
        lemma_digits_value_nonneg(s.drop_last(), radix);
        if digits_value(s, radix) is Some {
            let v = digits_value(s.drop_last(), radix)->0;
            let d = digit_value(s.last(), radix)->0;
            assert(v * radix + d >= 0) by (nonlinear_arith)
                requires
                    v >= 0,
                    d >= 0,
                    radix >= 0,
            ;
        }
    }
}

/// A single non-digit spoils the whole string.
pub proof fn lemma_digits_value_bad_digit(s: Seq<char>, radix: u32, k: int)
    requires
        0 <= k < s.len(),
        digit_value(s[k], radix) is None,
    ensures
        digits_value(s, radix) is None,
    decreases s.len(),
{
    if s.len() > 1 && k < s.len() - 1 {
        lemma_digits_value_bad_digit(s.drop_last(), radix, k);
    }
}

/// Extending a digit string never shrinks its value: the value of a prefix is
/// a lower bound.
pub proof fn lemma_digits_value_prefix_bound(s: Seq<char>, radix: u32, i: int)
    requires
        radix >= 2,
        0 < i <= s.len(),
        digits_value(s.subrange(0, i), radix) is Some,
    ensures
        digits_value(s, radix) matches Some(w) ==> w >= digits_value(s.subrange(0, i), radix)->0,
    decreases s.len() - i,
{
    if i == s.len() {
        assert(s.subrange(0, i) =~= s);
    } else {
        assert(s.drop_last().subrange(0, i) =~= s.subrange(0, i));
        lemma_digits_value_prefix_bound(s.drop_last(), radix, i);
        if digits_value(s, radix) is Some {
            assert(s.len() > 1);
            let v = digits_value(s.drop_last(), radix)->0;
            let d = digit_value(s.last(), radix)->0;
            lemma_digits_value_nonneg(s.drop_last(), radix);
            assert(v * radix + d >= v) by (nonlinear_arith)
                requires
                    v >= 0,
                    d >= 0,
                    radix >= 2,
            ;
        }
    }
}

/// The number a string denotes: one optional leading plus sign, then at least
/// one digit of the radix.
pub open spec fn spec_number(s: Seq<char>, radix: u32) -> Option<int> {
    if s.len() > 0 && s[0] == '+' {
        digits_value(s.drop_first(), radix)
    } else {
        digits_value(s, radix)
    }
}

/// What a protocol attribute denotes: a string starting with `0x` is read as
/// hexadecimal from what follows, anything else as decimal; nothing if it is
/// malformed or does not fit.
pub open spec fn spec_u32_or_hex(s: Seq<char>) -> Option<u32> {
    let v = if s.len() < 2 || !(s[0] == '0' && s[1] == 'x') {
        spec_number(s, 10)
    } else {
        spec_number(s.skip(2), 16)
    };
    match v {
        Some(n) => if n <= u32::MAX {
            Some(n as u32)
        } else {
            None
        },
        None => None,
    }
}

/// Parses the digits of `s` from position `from` on (after one optional plus
/// sign) under the given radix, refusing anything malformed or over `u32`.
fn parse_number(s: &str, from: usize, radix: u32) -> (r: Option<u32>)
    requires
        from <= s@.len(),
        radix == 10 || radix == 16,
    ensures
        match spec_number(s@.skip(from as int), radix) {
            Some(n) => r == if n <= u32::MAX {
                Some(n as u32)
            } else {
                None::<u32>
            },
            None => r is None,
        },
{
    broadcast use vstd::seq_lib::group_seq_properties;

    let len = s.unicode_len();
    let ghost tail = s@.skip(from as int);
    let mut i: usize = from;
    if i < len && s.get_char(i) == '+' {
        i += 1;
    }
    let ghost ds = i as int;
    proof {
        if ds > from {
            assert(tail.drop_first() =~= s@.subrange(ds, len as int));
        } else {
            assert(tail =~= s@.subrange(ds, len as int));
        }
    }
    let ghost digits = s@.subrange(ds, len as int);
    if i >= len {
        return None;
    }

    let mut acc: u32 = 0;
    while i < len
        invariant
            len == s@.len(),
            0 <= ds <= i <= len,
            ds < len,
            digits == s@.subrange(ds, len as int),
            spec_number(s@.skip(from as int), radix) == digits_value(digits, radix),
            radix == 10 || radix == 16,
            i > ds ==> digits_value(s@.subrange(ds, i as int), radix) == Some(acc as int),
            i == ds ==> acc == 0,
        decreases len - i,
    {
        let c = s.get_char(i);
        let cu = c as u32;
        let d: u32 = if 48 <= cu && cu <= 57 {
            cu - 48
        } else if radix == 16 && 97 <= cu && cu <= 102 {
            cu - 87
        } else if radix == 16 && 65 <= cu && cu <= 70 {
            cu - 55
        } else {
            proof {
                assert(0 <= i - ds < digits.len());
                assert(digits[i - ds] == s@[i as int]);
                lemma_digits_value_bad_digit(digits, radix, i - ds);
            }
            return None;
        };
        let next: u64 = (acc as u64) * (radix as u64) + (d as u64);
        proof {
            let prefix_next = s@.subrange(ds, i + 1);
            assert(prefix_next.drop_last() =~= s@.subrange(ds, i as int));
            assert(prefix_next.last() == s@[i as int]);
            assert(digit_value(s@[i as int], radix) == Some(d as int));
            if i > ds {
                assert(digits_value(prefix_next, radix) == Some(next as int));
            } else {
                assert(prefix_next.len() == 1);
                assert(digits_value(prefix_next, radix) == Some(d as int));
            }
            assert(digits.subrange(0, i + 1 - ds) =~= prefix_next);
        }
        if next > u32::MAX as u64 {
            proof {
                lemma_digits_value_prefix_bound(digits, radix, i + 1 - ds);
            }
            return None;
        }
        acc = next as u32;
        i += 1;
    }
    proof {
        assert(s@.subrange(ds, len as int) =~= digits);
    }
    Some(acc)
}

/// Reads a protocol attribute that may be decimal or `0x`-prefixed
/// hexadecimal. A lone `0x`, a stray character, or a value over `u32` yields
/// nothing.
pub fn parse_u32_or_hex(s: &str) -> (r: Option<u32>)
    ensures
        r == spec_u32_or_hex(s@),
{
    let len = s.unicode_len();
    if len < 2 || !(s.get_char(0) == '0' && s.get_char(1) == 'x') {
        proof {
            assert(s@.skip(0) =~= s@);
        }
        parse_number(s, 0, 10)
    } else {
        parse_number(s, 2, 16)
    }
}

/// The argument types a protocol message can carry.
#[derive(Debug, Clone, Copy, PartialEq, Eq, Structural)]
pub enum ArgType {
    NewId,
    Int,
    Uint,
    Fixed,
    String,
    Object,
    Array,
    Fd,
}

/// One argument of a protocol message.
#[derive(Debug)]
pub struct Arg {
    pub description: Option<String>,
    pub name: String,
    pub ty: ArgType,
    pub summary: Option<String>,
    pub interface: Option<String>,
    pub allow_null: bool,
    pub enumeration: Option<String>,
}

/// One request or event of a protocol interface.
#[derive(Debug)]
pub struct Message {
    pub description: Option<String>,
    pub name: String,
    pub ty: Option<String>,
    pub since: Option<u32>,
    pub deprecated_since: Option<u32>,
    pub args: Vec<Arg>,
}

/// One value of a protocol enumeration.
#[derive(Debug)]
pub struct Entry {
    pub description: Option<String>,
    pub name: String,
    pub value: u32,
    pub summary: Option<String>,
    pub since: Option<u32>,
    pub deprecated_since: Option<u32>,
}

/// One enumeration of a protocol interface.
#[derive(Debug)]
pub struct Enum {
    pub description: Option<String>,
    pub name: String,
    pub since: Option<u32>,
    pub bitfield: bool,
    pub entries: Vec<Entry>,
}

/// One interface of a protocol definition.
#[derive(Debug)]
pub struct Interface {
    pub description: Option<String>,
    pub name: String,
    pub version: u32,
    pub requests: Vec<Message>,
    pub events: Vec<Message>,
    pub enums: Vec<Enum>,
}

/// A whole protocol definition.
#[derive(Debug)]
pub struct Protocol {
    pub description: Option<String>,
    pub name: String,
    pub interfaces: Vec<Interface>,
}

} // verus!
