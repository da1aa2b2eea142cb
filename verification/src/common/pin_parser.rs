//! Pin parser for GPIO pin configuration.
//!
//! Parses pin strings like "PE3", "!PA0" into `PinInfo`.

use vstd::prelude::*;
use crate::common::text::{trim, spec_parse_u8, decimal, digit_char, push_char, chars_of, trim_bounds, parse_digits};

verus! {

/// A parsed GPIO pin: port index (A=0 .. E=4), pin number (0..=15) and inversion flag.
#[derive(Debug, Clone, Copy, PartialEq, Eq, Structural)]
pub struct PinInfo {
    pub port: u8,
    pub pin: u8,
    pub inverted: bool,
}

/// Port index of a port letter (either case).
pub open spec fn port_index(c: char) -> Option<u8> {
    if c == 'A' || c == 'a' {
        Some(0u8)
    } else if c == 'B' || c == 'b' {
        Some(1u8)
    } else if c == 'C' || c == 'c' {
        Some(2u8)
    } else if c == 'D' || c == 'd' {
        Some(3u8)
    } else if c == 'E' || c == 'e' {
        Some(4u8)
    } else {
        None
    }
}

/// The text of a pin string after trimming and removing the inversion mark.
pub open spec fn pin_body(s: Seq<char>) -> Seq<char> {
    let t = trim(s);
    if t.len() > 0 && t[0] == '!' {
        t.drop_first()
    } else {
        t
    }
}

/// Whether the trimmed pin string starts with `!`.
pub open spec fn pin_inverted(s: Seq<char>) -> bool {
    let t = trim(s);
    t.len() > 0 && t[0] == '!'
}

/// A pin string is accepted when, after trimming and an optional `!`, it reads `P` (either case),
/// a port letter `A`..`E` (either case), and a pin number that `str::parse::<u8>` accepts and
/// that is at most 15.
#[verifier::opaque]
pub open spec fn spec_parse_pin(s: Seq<char>) -> Option<PinInfo> {
    let b = pin_body(s);
    if b.len() >= 2 && (b[0] == 'P' || b[0] == 'p') && port_index(b[1]) is Some && spec_parse_u8(
        b.skip(2),
    ) is Some && spec_parse_u8(b.skip(2))->0 <= 15 {
        Some(
            PinInfo {
                port: port_index(b[1])->0,
                pin: spec_parse_u8(b.skip(2))->0,
                inverted: pin_inverted(s),
            },
        )
    } else {
        None
    }
}

fn port_of(c: char) -> (r: Option<u8>)
    ensures
        r == port_index(c),
{
    if c == 'A' || c == 'a' {
        Some(0)
    } else if c == 'B' || c == 'b' {
        Some(1)
    } else if c == 'C' || c == 'c' {
        Some(2)
    } else if c == 'D' || c == 'd' {
        Some(3)
    } else if c == 'E' || c == 'e' {
        Some(4)
    } else {
        None
    }
}

/// Parses the characters `v[from..to]` as `str::parse::<u8>` does.
pub fn parse_u8_chars(v: &[char], from: usize, to: usize) -> (r: Option<u8>)
    requires
        from <= to <= v@.len(),
    ensures
        r == spec_parse_u8(v@.subrange(from as int, to as int)),
{
    let ghost s = v@.subrange(from as int, to as int);
    let start = if from < to && v[from] == '+' {
        from + 1
    } else {
        from
    };
    proof {
        if from < to && v@[from as int] == '+' {
            assert(s[0] == '+');
            assert(s.drop_first() =~= v@.subrange(start as int, to as int));
        } else {
            assert(s =~= v@.subrange(start as int, to as int));
        }
    }
    match parse_digits(v, start, to, 255) {
        Some(n) => Some(n as u8),
        None => None,
    }
}

/// Parses a pin string such as `"PE3"` or `"!PA0"`.
pub fn parse_pin(pin_str: &str) -> (r: Option<PinInfo>)
    ensures
        r == spec_parse_pin(pin_str@),
{
    let v = chars_of(pin_str);
    parse_pin_chars(v.as_slice())
}

/// Parses a pin string given as characters.
pub fn parse_pin_chars(v: &[char]) -> (r: Option<PinInfo>)
    ensures
        r == spec_parse_pin(v@),
{
    reveal(spec_parse_pin);
    let (a, b) = trim_bounds(v);
    let ghost t = v@.subrange(a as int, b as int);
    let inverted = a < b && v[a] == '!';
    let s0 = if inverted {
        a + 1
    } else {
        a
    };
    let ghost body = v@.subrange(s0 as int, b as int);
    proof {
        if inverted {
            assert(t[0] == v@[a as int]);
            assert(t.drop_first() =~= body);
        } else {
            if t.len() > 0 {
                assert(t[0] == v@[a as int]);
            }
            assert(t =~= body);
        }
        assert(pin_body(v@) == body);
        assert(pin_inverted(v@) == inverted);
    }
    if b - s0 < 2 {
        return None;
    }
    let c0 = v[s0];
    let c1 = v[s0 + 1];
    proof {
        assert(body[0] == c0);
        assert(body[1] == c1);
        assert(body.skip(2) =~= v@.subrange(s0 + 2, b as int));
    }
    if c0 != 'P' && c0 != 'p' {
        return None;
    }
    let port = match port_of(c1) {
        Some(p) => p,
        None => {
            return None;
        },
    };
    let pin = match parse_u8_chars(v, s0 + 2, b) {
        Some(n) => n,
        None => {
            return None;
        },
    };
    if pin > 15 {
        return None;
    }
    Some(PinInfo { port, pin, inverted })
}

/// Port and pin numbers of a pin string.
pub fn pin_to_port_pin(pin_str: &str) -> (r: Option<(u8, u8)>)
    ensures
        r == (match spec_parse_pin(pin_str@) {
            Some(info) => Some((info.port, info.pin)),
            None => None,
        }),
{
    match parse_pin(pin_str) {
        Some(info) => Some((info.port, info.pin)),
        None => None,
    }
}

/// Port letter as printed: `A`..`E`, `?` for any other index.
pub open spec fn port_letter(port: u8) -> char {
    if port == 0 {
        'A'
    } else if port == 1 {
        'B'
    } else if port == 2 {
        'C'
    } else if port == 3 {
        'D'
    } else if port == 4 {
        'E'
    } else {
        '?'
    }
}

/// The display form of a pin: optional `!`, `P`, port letter, decimal pin number.
pub open spec fn pin_display(p: PinInfo) -> Seq<char> {
    (if p.inverted {
        seq!['!', 'P']
    } else {
        seq!['P']
    }).push(port_letter(p.port)) + decimal(p.pin as nat)
}

/// Appends the decimal digits of `n`.
pub fn push_decimal(s: &mut String, n: u64)
    ensures
        final(s)@ == old(s)@ + decimal(n as nat),
    decreases n,
{
    if n < 10 {
        push_char(s, digit_to_char(n));
        proof {
            assert(seq![digit_char(n as nat)] =~= Seq::empty().push(digit_char(n as nat)));
        }
    } else {
        push_decimal(s, n / 10);
        push_char(s, digit_to_char(n % 10));
        proof {
            assert(old(s)@ + decimal(n as nat) =~= (old(s)@ + decimal((n / 10) as nat)).push(
                digit_char((n % 10) as nat),
            ));
        }
    }
}

pub fn digit_to_char(d: u64) -> (c: char)
    requires
        d < 10,
    ensures
        c == digit_char(d as nat),
{
    if d == 0 {
        '0'
    } else if d == 1 {
        '1'
    } else if d == 2 {
        '2'
    } else if d == 3 {
        '3'
    } else if d == 4 {
        '4'
    } else if d == 5 {
        '5'
    } else if d == 6 {
        '6'
    } else if d == 7 {
        '7'
    } else if d == 8 {
        '8'
    } else {
        '9'
    }
}

impl PinInfo {
    /// The display form, for example `"PE3"` or `"!PE4"`.
    pub fn to_display_string(&self) -> (s: String)
        ensures
            s@ == pin_display(*self),
    {
        let mut s = String::new();
        if self.inverted {
            push_char(&mut s, '!');
        }
        push_char(&mut s, 'P');
        let letter = if self.port == 0 {
            'A'
        } else if self.port == 1 {
            'B'
        } else if self.port == 2 {
            'C'
        } else if self.port == 3 {
            'D'
        } else if self.port == 4 {
            'E'
        } else {
            '?'
        };
        push_char(&mut s, letter);
        push_decimal(&mut s, self.pin as u64);
        proof {
            let pre = if self.inverted {
                seq!['!', 'P']
            } else {
                seq!['P']
            };
            assert(s@ =~= pre.push(port_letter(self.port)) + decimal(self.pin as nat));
        }
        s
    }
}

/// The digits of `decimal(n)` are decimal digits whose value is `n`.
proof fn lemma_decimal_digits(n: nat)
    ensures
        decimal(n).len() > 0,
        crate::common::text::all_digits(decimal(n)),
        crate::common::text::digits_value(decimal(n)) == n,
    decreases n,
{
    if n >= 10 {
        lemma_decimal_digits(n / 10);
        let d = decimal(n);
        assert(d.drop_last() =~= decimal(n / 10));
        assert(crate::common::text::is_digit(digit_char((n % 10) as nat)));
        assert(crate::common::text::digit_val(digit_char((n % 10) as nat)) == n % 10);
        assert forall|i: int| 0 <= i < d.len() implies crate::common::text::is_digit(#[trigger] d[i]) by {
            if i < d.len() - 1 {
                assert(d[i] == decimal(n / 10)[i]);
            }
        }
    } else {
        let d = decimal(n);
        assert(d.drop_last() =~= Seq::<char>::empty());
        assert(crate::common::text::digits_value(Seq::<char>::empty()) == 0);
    }
}

/// Showing a pin and parsing the text gives the pin back, for every pin with a port from A
/// to E and a number from 0 to 15.
pub proof fn lemma_display_then_parse(p: PinInfo)
    requires
        p.port <= 4,
        p.pin <= 15,
    ensures
        spec_parse_pin(pin_display(p)) == Some(p),
{
    reveal(spec_parse_pin);
    let s = pin_display(p);
    let digits = decimal(p.pin as nat);
    lemma_decimal_digits(p.pin as nat);
    assert(!crate::common::text::is_ws(s[0]));
    assert(s.last() == digits.last());
    assert(crate::common::text::is_digit(digits[digits.len() - 1]));
    assert(!crate::common::text::is_ws(s.last()));
    assert(crate::common::text::trim_start(s) == s);
    assert(crate::common::text::trim_end(s) == s);
    assert(trim(s) == s);
    let b = pin_body(s);
    let core = seq!['P'].push(port_letter(p.port)) + digits;
    if p.inverted {
        assert(s =~= seq!['!'] + core);
        assert(b =~= core);
    } else {
        assert(s =~= core);
        assert(b =~= core);
    }
    assert(b.skip(2) =~= digits);
    assert(digits[0] != '+');
    assert(port_index(b[1]) == Some(p.port));
}

} // verus!
