//! Lexical pieces of G-code lines: white-space separated words, comments, command numbers
//! and the number syntax of parameters.

use vstd::prelude::*;
use vstd::string::*;
use crate::common::text::{is_ws, is_ws_char, is_digit, all_digits, digits_value, spec_parse_u32, parse_digits, ascii_lower, lower_seq};

verus! {

/// The words of a line as `str::split_whitespace` yields them, paired with the word being
/// read when the text ends: the finished words, then the unfinished one.
pub open spec fn words_acc(s: Seq<char>) -> (Seq<Seq<char>>, Seq<char>)
    decreases s.len(),
{
    if s.len() == 0 {
        (Seq::empty(), Seq::empty())
    } else {
        let (done, cur) = words_acc(s.drop_last());
        let c = s.last();
        if is_ws(c) {
            if cur.len() > 0 {
                (done.push(cur), Seq::empty())
            } else {
                (done, Seq::empty())
            }
        } else {
            (done, cur.push(c))
        }
    }
}

/// The white-space separated words of `s`, in order (`str::split_whitespace`).
pub open spec fn words(s: Seq<char>) -> Seq<Seq<char>> {
    let (done, cur) = words_acc(s);
    if cur.len() > 0 {
        done.push(cur)
    } else {
        done
    }
}

/// The words of a line.
pub fn split_words(v: &[char]) -> (r: Vec<Vec<char>>)
    ensures
        r@.map_values(|w: Vec<char>| w@) == words(v@),
{
    let mut done: Vec<Vec<char>> = Vec::new();
    let mut cur: Vec<char> = Vec::new();
    let mut i: usize = 0;
    while i < v.len()
        invariant
            i <= v@.len(),
            (done@.map_values(|w: Vec<char>| w@), cur@) == words_acc(v@.subrange(0, i as int)),
        decreases v@.len() - i,
    {
        let c = v[i];
        proof {
            assert(v@.subrange(0, i + 1).drop_last() =~= v@.subrange(0, i as int));
            assert(v@.subrange(0, i + 1).last() == c);
        }
        if is_ws_char(c) {
            if cur.len() > 0 {
                let ghost d0 = done@.map_values(|w: Vec<char>| w@);
                let ghost c0 = cur@;
                let mut w: Vec<char> = Vec::new();
                std::mem::swap(&mut w, &mut cur);
                done.push(w);
                proof {
                    assert(done@.map_values(|w: Vec<char>| w@) =~= d0.push(c0));
                    assert(cur@ =~= Seq::<char>::empty());
                }
            }
        } else {
            cur.push(c);
        }
        i = i + 1;
    }
    proof {
        assert(v@.subrange(0, v@.len() as int) =~= v@);
    }
    if cur.len() > 0 {
        let ghost d0 = done@.map_values(|w: Vec<char>| w@);
        let ghost c0 = cur@;
        done.push(cur);
        proof {
            assert(done@.map_values(|w: Vec<char>| w@) =~= d0.push(c0));
        }
    }
    done
}

/// The text before the first `c`, or all of it when `c` does not occur.
pub open spec fn before_char(s: Seq<char>, c: char) -> Seq<char>
    decreases s.len(),
{
    if s.len() == 0 {
        s
    } else if s[0] == c {
        Seq::empty()
    } else {
        seq![s[0]] + before_char(s.drop_first(), c)
    }
}

/// The position of the first `c` in `v`, or the length when `c` does not occur.
pub fn find_char(v: &[char], c: char) -> (r: usize)
    ensures
        r <= v@.len(),
        v@.subrange(0, r as int) == before_char(v@, c),
{
    let mut i: usize = 0;
    while i < v.len()
        invariant
            i <= v@.len(),
            forall|j: int| 0 <= j < i ==> v@[j] != c,
        decreases v@.len() - i,
    {
        if v[i] == c {
            proof {
                lemma_before_char_at(v@, c, i as int);
            }
            return i;
        }
        i = i + 1;
    }
    proof {
        lemma_before_char_none(v@, c);
    }
    v.len()
}

proof fn lemma_before_char_at(s: Seq<char>, c: char, i: int)
    requires
        0 <= i < s.len(),
        s[i] == c,
        forall|j: int| 0 <= j < i ==> s[j] != c,
    ensures
        s.subrange(0, i) == before_char(s, c),
    decreases i,
{
    if i > 0 {
        lemma_before_char_at(s.drop_first(), c, i - 1);
        assert(s.subrange(0, i) =~= seq![s[0]] + s.drop_first().subrange(0, i - 1));
    } else {
        assert(s.subrange(0, 0) =~= Seq::<char>::empty());
    }
}

proof fn lemma_before_char_none(s: Seq<char>, c: char)
    requires
        forall|j: int| 0 <= j < s.len() ==> s[j] != c,
    ensures
        s.subrange(0, s.len() as int) == before_char(s, c),
    decreases s.len(),
{
    if s.len() > 0 {
        lemma_before_char_none(s.drop_first(), c);
        assert(s =~= seq![s[0]] + s.drop_first());
    }
    assert(s.subrange(0, s.len() as int) =~= s);
}

/// `str::parse::<u32>` on the characters `v`.
pub fn parse_u32_chars(v: &[char]) -> (r: Option<u32>)
    ensures
        r == spec_parse_u32(v@),
{
    let from: usize = if v.len() > 0 && v[0] == '+' {
        1
    } else {
        0
    };
    let ghost d = if v@.len() > 0 && v@[0] == '+' {
        v@.drop_first()
    } else {
        v@
    };
    proof {
        assert(v@.subrange(from as int, v@.len() as int) =~= d);
    }
    parse_digits(v, from, v.len(), u32::MAX)
}

/// A sign character.
pub open spec fn is_sign(c: char) -> bool {
    c == '+' || c == '-'
}

/// The characters after an optional leading sign.
pub open spec fn unsigned_part(s: Seq<char>) -> Seq<char> {
    if s.len() > 0 && is_sign(s[0]) {
        s.drop_first()
    } else {
        s
    }
}

/// Digits and at most one point, with at least one digit: the mantissa of a number.
pub open spec fn mantissa_ok(m: Seq<char>) -> bool {
    &&& forall|i: int| 0 <= i < m.len() ==> is_digit(#[trigger] m[i]) || m[i] == '.'
    &&& forall|i: int, j: int| 0 <= i < j < m.len() && #[trigger] m[i] == '.' ==> #[trigger] m[j] != '.'
    &&& exists|i: int| 0 <= i < m.len() && is_digit(#[trigger] m[i])
}

/// An exponent without its marker: an optional sign, then at least one digit.
pub open spec fn exponent_ok(x: Seq<char>) -> bool {
    let d = unsigned_part(x);
    d.len() > 0 && all_digits(d)
}

/// A number as `str::parse::<f32>` accepts it, lower-cased: a mantissa, then optionally
/// `e` and an exponent.
pub open spec fn number_ok(r: Seq<char>) -> bool {
    let m = before_char(r, 'e');
    &&& mantissa_ok(m)
    &&& (m.len() == r.len() || exponent_ok(r.subrange(m.len() as int + 1, r.len() as int)))
}

/// The syntax `str::parse::<f32>` accepts, as its documentation gives it for the lower-cased
/// text: an optional sign, then `inf`, `infinity`, `nan` or a number.
pub open spec fn float_syntax(s: Seq<char>) -> bool {
    let u = lower_seq(unsigned_part(s));
    u == "inf"@ || u == "infinity"@ || u == "nan"@ || number_ok(u)
}

/// Whether `v` is a mantissa.
fn mantissa_check(v: &[char], from: usize, to: usize) -> (r: bool)
    requires
        from <= to <= v@.len(),
    ensures
        r == mantissa_ok(v@.subrange(from as int, to as int)),
{
    let ghost m = v@.subrange(from as int, to as int);
    let mut dots: usize = 0;
    let mut digits: usize = 0;
    let mut i: usize = from;
    while i < to
        invariant
            from <= i <= to <= v@.len(),
            m == v@.subrange(from as int, to as int),
            forall|k: int| 0 <= k < i - from ==> is_digit(#[trigger] m[k]) || m[k] == '.',
            dots <= 1,
            dots == 0 ==> forall|k: int| 0 <= k < i - from ==> #[trigger] m[k] != '.',
            dots == 1 ==> exists|k: int| 0 <= k < i - from && #[trigger] m[k] == '.',
            forall|a: int, b: int| 0 <= a < b < i - from && #[trigger] m[a] == '.' ==> #[trigger] m[b] != '.',
            digits <= i - from,
            digits == 0 ==> forall|k: int| 0 <= k < i - from ==> !is_digit(#[trigger] m[k]),
            digits > 0 ==> exists|k: int| 0 <= k < i - from && is_digit(#[trigger] m[k]),
        decreases to - i,
    {
        let c = v[i];
        assert(m[i - from] == c);
        if '0' <= c && c <= '9' {
            digits = digits + 1;
        } else if c == '.' {
            if dots == 1 {
                proof {
                    let k = choose|k: int| 0 <= k < i - from && #[trigger] m[k] == '.';
                    assert(m[k] == '.' && m[i - from] == '.');
                }
                return false;
            }
            dots = 1;
        } else {
            return false;
        }
        i = i + 1;
    }
    proof {
        if digits > 0 {
            let k = choose|k: int| 0 <= k < to - from && is_digit(#[trigger] m[k]);
            assert(is_digit(m[k]));
        }
    }
    digits > 0
}

/// Whether `v[from..to]` is an exponent: an optional sign, then at least one digit.
fn exponent_check(v: &[char], from: usize, to: usize) -> (r: bool)
    requires
        from <= to <= v@.len(),
    ensures
        r == exponent_ok(v@.subrange(from as int, to as int)),
{
    let ghost x = v@.subrange(from as int, to as int);
    let start: usize = if from < to && (v[from] == '+' || v[from] == '-') {
        from + 1
    } else {
        from
    };
    proof {
        assert(unsigned_part(x) =~= v@.subrange(start as int, to as int));
    }
    if start == to {
        return false;
    }
    let mut i: usize = start;
    while i < to
        invariant
            from <= start <= i <= to <= v@.len(),
            unsigned_part(v@.subrange(from as int, to as int)) == v@.subrange(start as int, to as int),
            forall|k: int| start <= k < i ==> is_digit(#[trigger] v@[k]),
        decreases to - i,
    {
        if !('0' <= v[i] && v[i] <= '9') {
            proof {
                assert(v@.subrange(start as int, to as int)[i - start] == v@[i as int]);
            }
            return false;
        }
        i = i + 1;
    }
    proof {
        let d = v@.subrange(start as int, to as int);
        assert forall|k: int| 0 <= k < d.len() implies is_digit(#[trigger] d[k]) by {
            assert(d[k] == v@[start + k]);
        }
    }
    true
}

/// Whether `v` has the syntax of a number that `str::parse::<f32>` accepts.
pub fn float_syntax_check(v: &[char]) -> (r: bool)
    ensures
        r == float_syntax(v@),
{
    let from: usize = if v.len() > 0 && (v[0] == '+' || v[0] == '-') {
        1
    } else {
        0
    };
    let mut low: Vec<char> = Vec::new();
    let mut i: usize = from;
    while i < v.len()
        invariant
            from <= i <= v@.len(),
            low@ == lower_seq(v@.subrange(from as int, i as int)),
        decreases v@.len() - i,
    {
        low.push(crate::common::text::ascii_lower_char(v[i]));
        i = i + 1;
        proof {
            assert(low@ =~= lower_seq(v@.subrange(from as int, i as int)));
        }
    }
    proof {
        assert(unsigned_part(v@) =~= v@.subrange(from as int, v@.len() as int));
        reveal_strlit("inf");
        reveal_strlit("infinity");
        reveal_strlit("nan");
        assert("inf"@ =~= seq!['i', 'n', 'f']);
        assert("infinity"@ =~= seq!['i', 'n', 'f', 'i', 'n', 'i', 't', 'y']);
        assert("nan"@ =~= seq!['n', 'a', 'n']);
    }
    let l = low.as_slice();
    if crate::common::text::chars_eq(l, &['i', 'n', 'f'])
        || crate::common::text::chars_eq(l, &['i', 'n', 'f', 'i', 'n', 'i', 't', 'y'])
        || crate::common::text::chars_eq(l, &['n', 'a', 'n'])
    {
        return true;
    }
    let m_end = find_char(l, 'e');
    if !mantissa_check(l, 0, m_end) {
        return false;
    }
    if m_end == l.len() {
        return true;
    }
    exponent_check(l, m_end + 1, l.len())
}

} // verus!
