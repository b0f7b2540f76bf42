//! Datagram endpoint configuration: the bind host and port, with their
//! defaults.
//!
//! The embedding program reads the two optional environment values and
//! hands them here as plain strings; the defaults and the port syntax are
//! decided and verified in this module.

use vstd::prelude::*;

use vstd::string::StringSliceAdditionalSpecFns;

verus! {

/// The port the datagram loop binds when none is configured.
pub const DEFAULT_OSC_PORT: u16 = 1337;

/// The ASCII plus sign, the one sign a port number may carry.
pub const ASCII_PLUS: u8 = 43;

/// The first and last ASCII decimal digits.
pub const ASCII_ZERO: u8 = 48;

pub const ASCII_NINE: u8 = 57;

/// Whether a byte is an ASCII decimal digit.
pub open spec fn is_decimal_digit(b: u8) -> bool {
    ASCII_ZERO <= b && b <= ASCII_NINE
}

/// Whether every byte of a sequence is an ASCII decimal digit.
pub open spec fn all_decimal_digits(s: Seq<u8>) -> bool {
    forall|i: int| 0 <= i < s.len() ==> is_decimal_digit(#[trigger] s[i])
}

/// The number a sequence of ASCII digits denotes in decimal.
pub open spec fn decimal_value(s: Seq<u8>) -> int
    decreases s.len(),
{
    if s.len() == 0 {
        0
    } else {
        decimal_value(s.drop_last()) * 10 + (s.last() - ASCII_ZERO)
    }
}

/// The digits of a port text: the text itself, or what follows one leading
/// plus sign.
pub open spec fn port_digits(s: Seq<u8>) -> Seq<u8> {
    if s.len() > 0 && s[0] == ASCII_PLUS {
        s.skip(1)
    } else {
        s
    }
}

/// The port a text denotes: after an optional leading plus sign, at least
/// one decimal digit, denoting a number no greater than 65535 — exactly the
/// texts Rust reads as a `u16`.
pub open spec fn spec_parse_port(s: Seq<u8>) -> Option<u16> {
    let d = port_digits(s);
    if d.len() > 0 && all_decimal_digits(d) && decimal_value(d) <= 65535 {
        Some(decimal_value(d) as u16)
    } else {
        None
    }
}

proof fn lemma_decimal_value_nonneg(s: Seq<u8>)
    requires
        all_decimal_digits(s),
    ensures
        decimal_value(s) >= 0,
    decreases s.len(),
{
    if s.len() > 0 {
        assert(all_decimal_digits(s.drop_last())) by {
            assert(forall|i: int| 0 <= i < s.len() - 1 ==> s.drop_last()[i] == s[i]);
        }
        lemma_decimal_value_nonneg(s.drop_last());
    }
}

proof fn lemma_decimal_value_step(s: Seq<u8>, i: int)
    requires
        0 <= i < s.len(),
    ensures
        decimal_value(s.subrange(0, i + 1)) == decimal_value(s.subrange(0, i)) * 10 + (s[i]
            - ASCII_ZERO),
{
    let t = s.subrange(0, i + 1);
    assert(t.drop_last() =~= s.subrange(0, i));
    assert(t.last() == s[i]);
}

proof fn lemma_decimal_value_grows(s: Seq<u8>, i: int)
    requires
        0 <= i <= s.len(),
        all_decimal_digits(s),
    ensures
        decimal_value(s.subrange(0, i)) <= decimal_value(s),
    decreases s.len() - i,
{
    if i == s.len() {
        assert(s.subrange(0, i) =~= s);
    } else {
        let prefix = s.subrange(0, i);
        assert(all_decimal_digits(prefix)) by {
            assert(forall|j: int| 0 <= j < i ==> prefix[j] == s[j]);
        }
        lemma_decimal_value_nonneg(prefix);
        lemma_decimal_value_step(s, i);
        lemma_decimal_value_grows(s, i + 1);
    }
}

/// Reads a port number from the bytes of its decimal text.
pub fn parse_port(text: &[u8]) -> (r: Option<u16>)
    ensures
        r == spec_parse_port(text@),
{
    let len: usize = text.len();
    let start: usize = if len > 0 && text[0] == ASCII_PLUS {
        1
    } else {
        0
    };
    proof {
        assert(port_digits(text@) =~= text@.subrange(start as int, len as int));
    }
    if start == len {
        return None;
    }
    let ghost d = port_digits(text@);
    let mut value: u32 = 0;
    let mut i: usize = start;
    while i < len
        invariant
            start <= i <= len,
            len == text@.len(),
            d == port_digits(text@),
            d == text@.subrange(start as int, len as int),
            all_decimal_digits(d.subrange(0, i - start)),
            value == decimal_value(d.subrange(0, i - start)),
            value <= 65535,
        decreases len - i,
    {
        let b: u8 = text[i];
        if b < ASCII_ZERO || b > ASCII_NINE {
            assert(d[i - start] == b);
            assert(!all_decimal_digits(d));
            return None;
        }
        let next: u32 = value * 10 + (b - ASCII_ZERO) as u32;
        proof {
            lemma_decimal_value_step(d, i - start);
            assert(d.subrange(0, i - start + 1).drop_last() =~= d.subrange(0, i - start));
        }
        if next > 65535 {
            proof {
                let done = i - start + 1;
                assert(all_decimal_digits(d) ==> decimal_value(d) > 65535) by {
                    if all_decimal_digits(d) {
                        lemma_decimal_value_grows(d, done);
                    }
                }
            }
            return None;
        }
        value = next;
        i = i + 1;
        proof {
            assert(d.subrange(0, i - start) =~= d.subrange(0, i - 1 - start).push(d[i - 1
                - start]));
        }
    }
    proof {
        assert(d.subrange(0, i - start) =~= d);
    }
    Some(value as u16)
}

/// The host the datagram loop binds: the configured value, or the loopback
/// host when none is set.
pub fn bind_host(given: Option<String>) -> (h: String)
    ensures
        match given {
            Some(s) => h@ == s@,
            None => h@ == "127.0.0.1"@,
        },
{
    match given {
        Some(s) => s,
        None => "127.0.0.1".to_owned(),
    }
}

/// The port the datagram loop binds: the configured value read as decimal,
/// or the default when none is set. A configured value that is not a port
/// number yields nothing; the embedding program treats that as a startup
/// error.
pub fn bind_port(given: Option<&str>) -> (p: Option<u16>)
    ensures
        match given {
            Some(s) => p == spec_parse_port(s.spec_bytes()),
            None => p == Some(DEFAULT_OSC_PORT),
        },
{
    match given {
        Some(s) => parse_port(s.as_bytes()),
        None => Some(DEFAULT_OSC_PORT),
    }
}

} // verus!
