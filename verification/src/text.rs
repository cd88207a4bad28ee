//! Verified helpers for comparing and assembling strings.
//!
//! Strings are modelled by their `Seq<char>` views; every helper states its
//! result exactly in terms of those views.

use vstd::prelude::*;
use vstd::string::*;

verus! {

/// Character-wise string equality: true exactly when the two views are equal.
pub fn str_eq(a: &str, b: &str) -> (r: bool)
    ensures
        r == (a@ == b@),
{
    let an = a.unicode_len();
    let bn = b.unicode_len();
    if an != bn {
        return false;
    }
    let mut i: usize = 0;
    while i < an
        invariant
            i <= an,
            an == a@.len(),
            an == b@.len(),
            forall|j: int| 0 <= j < i ==> a@[j] == b@[j],
        decreases an - i,
    {
        if a.get_char(i) != b.get_char(i) {
            return false;
        }
        i = i + 1;
    }
    proof {
        assert(a@ =~= b@);
    }
    true
}

/// True exactly when `a` begins with `pre`, at character granularity.
pub fn str_starts_with(a: &str, pre: &str) -> (r: bool)
    ensures
        r == (pre@.len() <= a@.len() && a@.subrange(0, pre@.len() as int) == pre@),
{
    let an = a.unicode_len();
    let pn = pre.unicode_len();
    if pn > an {
        return false;
    }
    let mut i: usize = 0;
    while i < pn
        invariant
            i <= pn,
            pn <= an,
            an == a@.len(),
            pn == pre@.len(),
            forall|j: int| 0 <= j < i ==> a@[j] == pre@[j],
        decreases pn - i,
    {
        if a.get_char(i) != pre.get_char(i) {
            proof {
                assert(a@.subrange(0, pre@.len() as int)[i as int] != pre@[i as int]);
            }
            return false;
        }
        i = i + 1;
    }
    proof {
        assert(a@.subrange(0, pre@.len() as int) =~= pre@);
    }
    true
}

/// The characters of `s`, as a vector.
pub fn chars_of(s: &str) -> (r: Vec<char>)
    ensures
        r@ == s@,
{
    let n = s.unicode_len();
    let mut v: Vec<char> = Vec::new();
    let mut i: usize = 0;
    while i < n
        invariant
            i <= n,
            n == s@.len(),
            v@ =~= s@.subrange(0, i as int),
        decreases n - i,
    {
        v.push(s.get_char(i));
        i = i + 1;
    }
    proof {
        assert(v@ =~= s@);
    }
    v
}

/// Whether `p` occurs somewhere in `t`.
pub open spec fn spec_contains_sub(t: Seq<char>, p: Seq<char>) -> bool {
    exists|i: int|
        0 <= i && i + p.len() <= t.len() && #[trigger] t.subrange(i, i + p.len() as int) == p
}

/// Whether `pat` occurs somewhere in `text`.
pub fn contains_sub(text: &str, pat: &str) -> (r: bool)
    ensures
        r == spec_contains_sub(text@, pat@),
{
    let t = chars_of(text);
    let p = chars_of(pat);
    let n = t.len();
    let m = p.len();
    if m > n {
        return false;
    }
    if m == 0 {
        proof {
            assert(text@.subrange(0, 0 + pat@.len() as int) =~= pat@);
        }
        return true;
    }
    let mut i: usize = 0;
    while i <= n - m
        invariant
            m >= 1,
            m <= n,
            n == t@.len(),
            m == p@.len(),
            t@ == text@,
            p@ == pat@,
            i <= n - m + 1,
            forall|k: int| 0 <= k < i ==> #[trigger] t@.subrange(k, k + p@.len() as int) != p@,
        decreases n - i,
    {
        if matches_at(&t, &p, i) {
            proof {
                assert(t@.subrange(i as int, i as int + p@.len() as int) == p@);
                assert(text@.subrange(i as int, i as int + pat@.len() as int) =~= t@.subrange(
                    i as int,
                    i as int + p@.len() as int,
                ));
                assert(text@.subrange(i as int, i as int + pat@.len() as int) == pat@);
            }
            return true;
        }
        i = i + 1;
    }
    false
}

/// Whether some string of `v` has exactly the text `x`.
pub open spec fn spec_contains_text(v: Seq<String>, x: Seq<char>) -> bool {
    exists|i: int| 0 <= i < v.len() && (#[trigger] v[i])@ == x
}

/// Whether some string of `v` has exactly the text of `x`.
pub fn contains_text(v: &Vec<String>, x: &str) -> (r: bool)
    ensures
        r == spec_contains_text(v@, x@),
{
    let mut i: usize = 0;
    while i < v.len()
        invariant
            i <= v@.len(),
            forall|k: int| 0 <= k < i ==> (#[trigger] v@[k])@ != x@,
        decreases v@.len() - i,
    {
        if str_eq(v[i].as_str(), x) {
            proof {
                assert((v@[i as int])@ == x@);
            }
            return true;
        }
        i = i + 1;
    }
    false
}

/// Copy a vector of strings, element for element.
pub fn clone_string_vec(v: &Vec<String>) -> (r: Vec<String>)
    ensures
        r@ == v@,
{
    let mut r: Vec<String> = Vec::new();
    let mut i: usize = 0;
    while i < v.len()
        invariant
            i <= v@.len(),
            r@.len() == i,
            forall|k: int| 0 <= k < i ==> r@[k] == v@[k],
        decreases v@.len() - i,
    {
        r.push(v[i].clone());
        i = i + 1;
    }
    proof {
        assert(r@ =~= v@);
    }
    r
}

/// Copy a vector of string pairs, element for element.
pub fn clone_string_pairs(v: &Vec<(String, String)>) -> (r: Vec<(String, String)>)
    ensures
        r@ == v@,
{
    let mut r: Vec<(String, String)> = Vec::new();
    let mut i: usize = 0;
    while i < v.len()
        invariant
            i <= v@.len(),
            r@.len() == i,
            forall|k: int| 0 <= k < i ==> r@[k] == v@[k],
        decreases v@.len() - i,
    {
        r.push((v[i].0.clone(), v[i].1.clone()));
        i = i + 1;
    }
    proof {
        assert(r@ =~= v@);
    }
    r
}

/// Copy an optional string.
pub fn clone_opt_string(v: &Option<String>) -> (r: Option<String>)
    ensures
        r == v,
{
    match v {
        Some(s) => Some(s.clone()),
        None => None,
    }
}

/// Relies on `String: FromIterator<char>` (via `Iterator::collect`): the
/// collected string holds exactly the characters of the iterator, in order.
#[verifier::external_body]
pub fn string_from_chars(v: &Vec<char>) -> (r: String)
    ensures
        r@ == v@,
{
    v.iter().collect()
}

/// A hexadecimal digit character, lowercase.
pub open spec fn spec_hex_digit(n: int) -> char {
    if n == 0 {
        '0'
    } else if n == 1 {
        '1'
    } else if n == 2 {
        '2'
    } else if n == 3 {
        '3'
    } else if n == 4 {
        '4'
    } else if n == 5 {
        '5'
    } else if n == 6 {
        '6'
    } else if n == 7 {
        '7'
    } else if n == 8 {
        '8'
    } else if n == 9 {
        '9'
    } else if n == 10 {
        'a'
    } else if n == 11 {
        'b'
    } else if n == 12 {
        'c'
    } else if n == 13 {
        'd'
    } else if n == 14 {
        'e'
    } else {
        'f'
    }
}

/// The escape expansion of one character inside a double-quoted JSON (or
/// YAML) scalar: quote and backslash are escaped, the named control
/// characters use their short escapes, any other control character a
/// `\u00..` escape, and everything else stands for itself.
pub open spec fn spec_esc_char(c: char) -> Seq<char> {
    if c == '"' {
        seq!['\\', '"']
    } else if c == '\\' {
        seq!['\\', '\\']
    } else if c == '\u{8}' {
        seq!['\\', 'b']
    } else if c == '\u{c}' {
        seq!['\\', 'f']
    } else if c == '\n' {
        seq!['\\', 'n']
    } else if c == '\r' {
        seq!['\\', 'r']
    } else if c == '\t' {
        seq!['\\', 't']
    } else if (c as u32) < 32 {
        seq!['\\', 'u', '0', '0', spec_hex_digit((c as u32) as int / 16), spec_hex_digit(
            (c as u32) as int % 16,
        )]
    } else {
        seq![c]
    }
}

/// The text with every character escaped for a double-quoted JSON (or YAML)
/// scalar.
pub open spec fn spec_json_escaped(s: Seq<char>) -> Seq<char>
    decreases s.len(),
{
    if s.len() == 0 {
        Seq::<char>::empty()
    } else {
        spec_json_escaped(s.drop_last()) + spec_esc_char(s.last())
    }
}

/// A hexadecimal digit character, lowercase.
fn hex_digit(n: u32) -> (r: char)
    requires
        n < 16,
    ensures
        r == spec_hex_digit(n as int),
{
    if n == 0 {
        '0'
    } else if n == 1 {
        '1'
    } else if n == 2 {
        '2'
    } else if n == 3 {
        '3'
    } else if n == 4 {
        '4'
    } else if n == 5 {
        '5'
    } else if n == 6 {
        '6'
    } else if n == 7 {
        '7'
    } else if n == 8 {
        '8'
    } else if n == 9 {
        '9'
    } else if n == 10 {
        'a'
    } else if n == 11 {
        'b'
    } else if n == 12 {
        'c'
    } else if n == 13 {
        'd'
    } else if n == 14 {
        'e'
    } else {
        'f'
    }
}

/// Escape a text for splicing into a double-quoted JSON (or YAML) scalar.
pub fn json_escape(s: &str) -> (r: String)
    ensures
        r@ == spec_json_escaped(s@),
{
    let chars = crate::text::chars_of(s);
    let mut out: Vec<char> = Vec::new();
    let mut i: usize = 0;
    proof {
        assert(chars@.take(0) =~= Seq::<char>::empty());
    }
    while i < chars.len()
        invariant
            i <= chars@.len(),
            chars@ == s@,
            out@ == spec_json_escaped(chars@.take(i as int)),
        decreases chars@.len() - i,
    {
        proof {
            assert(chars@.take(i + 1).drop_last() =~= chars@.take(i as int));
            assert(chars@.take(i + 1).last() == chars@[i as int]);
        }
        let c = chars[i];
        let ghost prev = out@;
        if c == '"' {
            out.push('\\');
            out.push('"');
        } else if c == '\\' {
            out.push('\\');
            out.push('\\');
        } else if c == '\u{8}' {
            out.push('\\');
            out.push('b');
        } else if c == '\u{c}' {
            out.push('\\');
            out.push('f');
        } else if c == '\n' {
            out.push('\\');
            out.push('n');
        } else if c == '\r' {
            out.push('\\');
            out.push('r');
        } else if c == '\t' {
            out.push('\\');
            out.push('t');
        } else if (c as u32) < 32 {
            let u = c as u32;
            proof {
                assert((u / 16) as int == (c as u32) as int / 16);
                assert((u % 16) as int == (c as u32) as int % 16);
            }
            out.push('\\');
            out.push('u');
            out.push('0');
            out.push('0');
            out.push(hex_digit(u / 16));
            out.push(hex_digit(u % 16));
        } else {
            out.push(c);
        }
        proof {
            assert(out@ =~= prev + spec_esc_char(chars@[i as int]));
        }
        i = i + 1;
    }
    proof {
        assert(chars@.take(chars@.len() as int) =~= chars@);
    }
    string_from_chars(&out)
}

/// The text with every occurrence of `pat` replaced by `val`, scanning left
/// to right without overlap; an empty pattern replaces nothing.
pub open spec fn spec_replaced(text: Seq<char>, pat: Seq<char>, val: Seq<char>) -> Seq<char>
    decreases text.len(),
{
    if pat.len() == 0 {
        text
    } else if text.len() < pat.len() {
        text
    } else if text.subrange(0, pat.len() as int) == pat {
        val + spec_replaced(text.skip(pat.len() as int), pat, val)
    } else {
        seq![text[0]] + spec_replaced(text.skip(1), pat, val)
    }
}

/// Whether `pat` occurs in `text` starting at position `i`.
fn matches_at(text: &Vec<char>, pat: &Vec<char>, i: usize) -> (r: bool)
    requires
        i + pat@.len() <= text@.len(),
    ensures
        r == (text@.subrange(i as int, i as int + pat@.len() as int) == pat@),
{
    let n = text.len();
    let m = pat.len();
    let mut j: usize = 0;
    while j < m
        invariant
            j <= m,
            n == text@.len(),
            m == pat@.len(),
            i + m <= n,
            forall|k: int| 0 <= k < j ==> text@[i + k] == pat@[k],
        decreases m - j,
    {
        if text[i + j] != pat[j] {
            proof {
                assert(text@.subrange(i as int, i as int + pat@.len() as int)[j as int]
                    != pat@[j as int]);
            }
            return false;
        }
        j = j + 1;
    }
    proof {
        assert(text@.subrange(i as int, i as int + pat@.len() as int) =~= pat@);
    }
    true
}

/// Append every character of `val` to `out`.
fn push_all(out: &mut Vec<char>, val: &Vec<char>)
    ensures
        final(out)@ == old(out)@ + val@,
{
    let mut j: usize = 0;
    while j < val.len()
        invariant
            j <= val@.len(),
            out@ == old(out)@ + val@.subrange(0, j as int),
        decreases val@.len() - j,
    {
        let ghost prev = out@;
        out.push(val[j]);
        proof {
            assert(out@ =~= old(out)@ + val@.subrange(0, j + 1 as int));
        }
        j = j + 1;
    }
    proof {
        assert(out@ =~= old(out)@ + val@);
    }
}

/// Replace every occurrence of `pat` in `text` by `val`, scanning left to
/// right without overlap.
pub fn replace_all(text: &Vec<char>, pat: &Vec<char>, val: &Vec<char>) -> (r: Vec<char>)
    ensures
        r@ == spec_replaced(text@, pat@, val@),
{
    let n = text.len();
    let m = pat.len();
    if m == 0 {
        let mut out: Vec<char> = Vec::new();
        push_all(&mut out, text);
        proof {
            assert(out@ =~= text@);
        }
        return out;
    }
    let mut out: Vec<char> = Vec::new();
    let mut i: usize = 0;
    proof {
        assert(text@.skip(0) =~= text@);
    }
    while i < n
        invariant
            i <= n,
            n == text@.len(),
            m == pat@.len(),
            m >= 1,
            spec_replaced(text@, pat@, val@) == out@ + spec_replaced(
                text@.skip(i as int),
                pat@,
                val@,
            ),
        decreases n - i,
    {
        let ghost rest = text@.skip(i as int);
        if m <= n && i <= n - m && matches_at(text, pat, i) {
            proof {
                assert(rest.subrange(0, m as int) =~= text@.subrange(i as int, i as int + m as int));
                assert(rest.skip(m as int) =~= text@.skip(i as int + m as int));
                assert(spec_replaced(rest, pat@, val@) == val@ + spec_replaced(
                    text@.skip(i as int + m as int),
                    pat@,
                    val@,
                ));
            }
            push_all(&mut out, val);
            i = i + m;
        } else {
            proof {
                if i + m <= n {
                    assert(rest.subrange(0, m as int) =~= text@.subrange(
                        i as int,
                        i as int + m as int,
                    ));
                }
                assert(rest.skip(1) =~= text@.skip(i as int + 1));
                if rest.len() >= m {
                    assert(spec_replaced(rest, pat@, val@) == seq![rest[0]] + spec_replaced(
                        text@.skip(i as int + 1),
                        pat@,
                        val@,
                    ));
                }
            }
            let ghost prev = out@;
            out.push(text[i]);
            proof {
                if rest.len() < m {
                    assert(spec_replaced(rest, pat@, val@) == rest);
                    assert(rest.skip(1) == spec_replaced(text@.skip(i as int + 1), pat@, val@));
                    assert(prev + rest =~= out@ + rest.skip(1));
                } else {
                    assert(prev + (seq![rest[0]] + spec_replaced(
                        text@.skip(i as int + 1),
                        pat@,
                        val@,
                    )) =~= out@ + spec_replaced(text@.skip(i as int + 1), pat@, val@));
                }
            }
            i = i + 1;
        }
    }
    proof {
        assert(text@.skip(n as int) =~= Seq::<char>::empty());
        assert(spec_replaced(text@.skip(n as int), pat@, val@) =~= Seq::<char>::empty());
        assert(out@ + Seq::<char>::empty() =~= out@);
    }
    out
}

/// Replace every occurrence of `pat` in `text` by `val`, at string level.
pub fn replace_str(text: &str, pat: &str, val: &str) -> (r: String)
    ensures
        r@ == spec_replaced(text@, pat@, val@),
{
    let t = chars_of(text);
    let p = chars_of(pat);
    let v = chars_of(val);
    let out = replace_all(&t, &p, &v);
    string_from_chars(&out)
}

} // verus!
