//! Recovery of doc comment text from the string literals of `doc`
//! attributes, undoing the escapes that `char::escape_debug` introduced.

use vstd::prelude::*;
use vstd::string::*;
use crate::text::{pop_char, push_char};

verus! {

/// Value of a hexadecimal digit.
pub open spec fn hex_digit(c: char) -> Option<u32> {
    if '0' <= c && c <= '9' {
        Some((c as u32 - '0' as u32) as u32)
    } else if 'a' <= c && c <= 'f' {
        Some((c as u32 - 'a' as u32 + 10) as u32)
    } else if 'A' <= c && c <= 'F' {
        Some((c as u32 - 'A' as u32 + 10) as u32)
    } else {
        None
    }
}

/// Number of consecutive hexadecimal digits in `s` from `start`.
pub open spec fn leading_hex(s: Seq<char>, start: int) -> nat
    decreases s.len() - start,
{
    if start < 0 || start >= s.len() || hex_digit(s[start]) is None {
        0
    } else {
        1 + leading_hex(s, start + 1)
    }
}

/// Value of a sequence of hexadecimal digits.
pub open spec fn hex_value(s: Seq<char>) -> nat
    decreases s.len(),
{
    if s.len() == 0 {
        0
    } else {
        hex_value(s.drop_last()) * 16 + match hex_digit(s.last()) {
            Some(d) => d as nat,
            None => 0,
        }
    }
}

/// Whether a number is a Unicode scalar value, i.e. a valid `char`.
pub open spec fn is_scalar(v: nat) -> bool {
    v < 0xD800 || (0xE000 <= v && v <= 0x10FFFF)
}

/// The body of a `\u{...}` escape starting at `start`: one to six hex digits
/// naming a scalar value, followed by some other character. Gives the code
/// point and the position of that following character.
pub open spec fn unicode_escape(s: Seq<char>, start: int) -> Option<(u32, int)> {
    let k = leading_hex(s, start);
    let v = hex_value(s.subrange(start, start + k));
    if k == 0 || k >= 7 || start + k >= s.len() || !is_scalar(v) {
        None
    } else {
        Some((v as u32, start + k))
    }
}

/// The unescaped text of `s` from position `pos` to the end, or `None` at a
/// malformed escape.
pub open spec fn unescape_from(s: Seq<char>, pos: int) -> Option<Seq<char>>
    decreases s.len() - pos,
{
    if pos < 0 || pos >= s.len() {
        Some(Seq::empty())
    } else if s[pos] != '\\' {
        match unescape_from(s, pos + 1) {
            Some(rest) => Some(seq![s[pos]] + rest),
            None => None,
        }
    } else if pos + 1 >= s.len() {
        None
    } else {
        let e = s[pos + 1];
        let simple = if e == 't' {
            Some('\t')
        } else if e == 'r' {
            Some('\r')
        } else if e == 'n' {
            Some('\n')
        } else if e == '\\' || e == '\'' || e == '"' {
            Some(e)
        } else {
            None
        };
        if simple is Some {
            match unescape_from(s, pos + 2) {
                Some(rest) => Some(seq![simple->Some_0] + rest),
                None => None,
            }
        } else if e != 'u' || pos + 2 >= s.len() || s[pos + 2] != '{' {
            None
        } else {
            match unicode_escape(s, pos + 3) {
                None => None,
                Some((cp, end)) => if end <= pos || s[end] != '}' {
                    None
                } else {
                    match unescape_from(s, end + 1) {
                        Some(rest) => Some(seq![cp as char] + rest),
                        None => None,
                    }
                },
            }
        }
    }
}

/// The text of a quoted, escaped string literal: a leading quote is
/// skipped, escapes are undone, and a trailing quote of the result is
/// dropped. `None` at a malformed escape.
pub open spec fn unescaped(s: Seq<char>) -> Option<Seq<char>> {
    if s.len() == 0 {
        Some(Seq::empty())
    } else {
        let start: int = if s[0] == '"' { 1 } else { 0 };
        match unescape_from(s, start) {
            Some(r) => Some(if r.len() > 0 && r.last() == '"' { r.drop_last() } else { r }),
            None => None,
        }
    }
}

/// Relies on `char::from_u32`: the `char` with that code point, if it is a
/// Unicode scalar value.
#[verifier::external_body]
fn char_from_u32(v: u32) -> (r: Option<char>)
    ensures
        r is Some <==> is_scalar(v as nat),
        r matches Some(c) ==> c == (v as char),
{
    char::from_u32(v)
}

/// Reads the body of a `\u{...}` escape at `start`: the decoded character
/// and the position of the character after the digits.
pub fn unescape_unicode(s: &str, start: usize) -> (r: Option<(char, usize)>)
    requires
        start <= s@.len(),
    ensures
        r matches Some((c, end)) ==> unicode_escape(s@, start as int) == Some(((c as u32), end as int))
            && c == (c as u32) as char,
        r is None ==> unicode_escape(s@, start as int) is None,
{
    let len = s.unicode_len();
    let mut value: u32 = 0;
    let mut i: usize = 0;
    while i < 7
        invariant
            len == s@.len(),
            start <= len,
            0 <= i <= 7,
            i <= 6,
            forall|j: int| start <= j < start + i ==> j < len && hex_digit(#[trigger] s@[j]) is Some,
            value as nat == hex_value(s@.subrange(start as int, start + i)),
            value < pow16(i as nat),
        decreases 7 - i,
    {
        if i >= len - start {
            proof { lemma_leading_hex_run(s@, start as int, i as int); }
            return None;
        }
        let c = s.get_char(start + i);
        let digit: Option<u32> = if '0' <= c && c <= '9' {
            Some(c as u32 - '0' as u32)
        } else if 'a' <= c && c <= 'f' {
            Some(c as u32 - 'a' as u32 + 10)
        } else if 'A' <= c && c <= 'F' {
            Some(c as u32 - 'A' as u32 + 10)
        } else {
            None
        };
        assert(digit == hex_digit(c));
        match digit {
            None => {
                proof { lemma_leading_hex_run(s@, start as int, i as int); }
                if i == 0 {
                    return None;
                }
                return match char_from_u32(value) {
                    Some(ch) => Some((ch, start + i)),
                    None => None,
                };
            },
            Some(d) => {
                if i >= 6 {
                    proof { lemma_leading_hex_run(s@, start as int, 7); }
                    return None;
                }
                assert(s@.subrange(start as int, start + i + 1).drop_last()
                    =~= s@.subrange(start as int, start + i));
                proof {
                    lemma_pow16_step(i as nat);
                    assert(value * 16 + d < pow16(i as nat) * 16) by (nonlinear_arith)
                        requires
                            value < pow16(i as nat),
                            d < 16,
                    ;
                }
                value = value * 16 + d;
            },
        }
        i = i + 1;
    }
    None
}

/// Sixteen to the power `n`.
pub open spec fn pow16(n: nat) -> nat
    decreases n,
{
    if n == 0 {
        1
    } else {
        16 * pow16((n - 1) as nat)
    }
}

proof fn lemma_pow16_step(n: nat)
    requires
        n <= 5,
    ensures
        pow16(n + 1) == pow16(n) * 16,
        pow16(n + 1) <= 0x1000000,
{
    reveal_with_fuel(pow16, 7);
}

/// When the `k` characters from `start` are hex digits and the next is not
/// (or the text ends), exactly `k` hex digits lead at `start`.
proof fn lemma_leading_hex_run(s: Seq<char>, start: int, k: int)
    requires
        0 <= start <= s.len(),
        0 <= k,
        forall|j: int| start <= j < start + k ==> j < s.len() && hex_digit(#[trigger] s[j]) is Some,
    ensures
        (start + k >= s.len() || hex_digit(s[start + k]) is None) ==> leading_hex(s, start) == k,
        leading_hex(s, start) >= k,
    decreases k,
{
    if k > 0 {
        lemma_leading_hex_run(s, start + 1, k - 1);
    }
}

/// `r` followed by the optional rest `o`; `None` stays `None`.
pub open spec fn prepend(r: Seq<char>, o: Option<Seq<char>>) -> Option<Seq<char>> {
    match o {
        Some(x) => Some(r + x),
        None => None,
    }
}

/// Undoes the escapes of a quoted string literal as written by
/// `char::escape_debug`; `None` when an escape is malformed.
pub fn try_unescape(s: &str) -> (r: Option<String>)
    ensures
        r matches Some(t) ==> unescaped(s@) == Some(t@),
        r is None ==> unescaped(s@) is None,
{
    let len = s.unicode_len();
    if len == 0 {
        return Some(String::new());
    }
    let start: usize = if s.get_char(0) == '"' { 1 } else { 0 };
    assert(start as int == (if s@[0] == '"' { 1int } else { 0int }));
    let mut result = String::new();
    let mut pos: usize = start;
    assert(result@ + Seq::<char>::empty() =~= result@);
    while pos < len
        invariant
            len == s@.len(),
            len > 0,
            start as int == (if s@[0] == '"' { 1int } else { 0int }),
            start <= pos <= len,
            unescape_from(s@, start as int) == prepend(result@, unescape_from(s@, pos as int)),
        decreases len - pos,
    {
        let c = s.get_char(pos);
        if c != '\\' {
            let ghost before = result@;
            push_char(&mut result, c);
            assert(before + (seq![c] + unescape_from(s@, pos + 1)->Some_0) =~= result@ + unescape_from(
                s@,
                pos + 1,
            )->Some_0);
            pos = pos + 1;
        } else {
            if pos + 1 >= len {
                assert(unescape_from(s@, pos as int) is None);
                return None;
            }
            let e = s.get_char(pos + 1);
            let simple: Option<char> = if e == 't' {
                Some('\t')
            } else if e == 'r' {
                Some('\r')
            } else if e == 'n' {
                Some('\n')
            } else if e == '\\' || e == '\'' || e == '"' {
                Some(e)
            } else {
                None
            };
            match simple {
                Some(x) => {
                    let ghost before = result@;
                    push_char(&mut result, x);
                    assert(before + (seq![x] + unescape_from(s@, pos + 2)->Some_0) =~= result@
                        + unescape_from(s@, pos + 2)->Some_0);
                    pos = pos + 2;
                },
                None => {
                    if e != 'u' || pos + 2 >= len {
                        return None;
                    }
                    if s.get_char(pos + 2) != '{' {
                        return None;
                    }
                    match unescape_unicode(s, pos + 3) {
                        None => {
                            assert(unescape_from(s@, pos as int) is None);
                            return None;
                        },
                        Some((ch, end)) => {
                            if s.get_char(end) != '}' {
                                return None;
                            }
                            let ghost before = result@;
                            push_char(&mut result, ch);
                            assert(before + (seq![ch] + unescape_from(s@, end + 1)->Some_0)
                                =~= result@ + unescape_from(s@, end + 1)->Some_0);
                            pos = end + 1;
                        },
                    }
                },
            }
        }
    }
    assert(result@ + Seq::<char>::empty() =~= result@);
    let ghost full = result@;
    match pop_char(&mut result) {
        Some(last) => {
            if last != '"' {
                push_char(&mut result, last);
                assert(result@ =~= full);
            }
        },
        None => {},
    }
    Some(result)
}

/// An attribute as the doc comment extraction sees it: whether its path
/// names `doc`, and the string literals among its tokens, as written.
#[derive(Clone, Debug, PartialEq, Eq)]
pub struct DocAttr {
    pub is_doc: bool,
    pub literals: Vec<String>,
}

/// The text of one literal: unescaped, or as written when it does not
/// unescape.
pub open spec fn literal_text(l: Seq<char>) -> Seq<char> {
    match unescaped(l) {
        Some(t) => t,
        None => l,
    }
}

/// The lines of documentation that a list of attributes carries, in order.
pub open spec fn doc_lines(attrs: Seq<DocAttr>) -> Seq<Seq<char>>
    decreases attrs.len(),
{
    if attrs.len() == 0 {
        Seq::empty()
    } else {
        let prev = doc_lines(attrs.drop_last());
        if attrs.last().is_doc {
            prev + attrs.last().literals@.map_values(|l: String| literal_text(l@))
        } else {
            prev
        }
    }
}

/// The text of a literal: unescaped when possible, else as written.
pub fn literal_text_of(l: &String) -> (r: String)
    ensures
        r@ == literal_text(l@),
{
    match try_unescape(l.as_str()) {
        Some(t) => t,
        None => l.clone(),
    }
}

/// Collects the documentation text of a struct's `doc` attributes.
pub fn extract_doc_comments(attrs: &Vec<DocAttr>) -> (r: Vec<String>)
    ensures
        r@.map_values(|s: String| s@) == doc_lines(attrs@),
{
    let mut out: Vec<String> = Vec::new();
    let mut i: usize = 0;
    assert(attrs@.subrange(0, 0) =~= Seq::<DocAttr>::empty());
    assert(out@.map_values(|s: String| s@) =~= Seq::<Seq<char>>::empty());
    while i < attrs.len()
        invariant
            0 <= i <= attrs.len(),
            out@.map_values(|s: String| s@) == doc_lines(attrs@.subrange(0, i as int)),
        decreases attrs.len() - i,
    {
        assert(attrs@.subrange(0, i + 1).drop_last() =~= attrs@.subrange(0, i as int));
        let a = &attrs[i];
        if a.is_doc {
            let ghost prefix = out@.map_values(|s: String| s@);
            let ghost lits = a.literals@.map_values(|l: String| literal_text(l@));
            let mut j: usize = 0;
            assert(prefix + lits.subrange(0, 0) =~= prefix);
            while j < a.literals.len()
                invariant
                    0 <= j <= a.literals.len(),
                    lits == a.literals@.map_values(|l: String| literal_text(l@)),
                    out@.map_values(|s: String| s@) == prefix + lits.subrange(0, j as int),
                decreases a.literals.len() - j,
            {
                let t = literal_text_of(&a.literals[j]);
                let ghost before = out@;
                out.push(t);
                assert(out@.map_values(|s: String| s@) =~= before.map_values(|s: String| s@).push(t@));
                assert(prefix + lits.subrange(0, j + 1) =~= (prefix + lits.subrange(0, j as int)).push(
                    lits[j as int],
                ));
                j = j + 1;
            }
            assert(lits.subrange(0, lits.len() as int) =~= lits);
        }
        i = i + 1;
    }
    assert(attrs@.subrange(0, attrs.len() as int) =~= attrs@);
    out
}

} // verus!
