//! Cloze-deletion revelation.
//!
//! A cloze deletion is a span `{{c<ord>::<text>}}` or `{{c<ord>::<text>::<hint>}}`
//! (the leading letter may be `c` or `C`).  Revealing a target ordinal replaces
//! every such span: spans of other ordinals are resolved to their occluded
//! text; spans of the target ordinal show `[<hint>]` or `[...]` on the
//! question side and the occluded text on the answer side, wrapped in an HTML
//! cloze span when the lowercase `c` form was used.  Text without any cloze
//! span reveals to the empty string.

use vstd::prelude::*;

verus! {

use crate::chars::chars_of;
use crate::chars::find2;
use crate::chars::find2_exec;
use crate::chars::push_lit;
use crate::chars::push_range;
use crate::chars::string_of;

/// Whether `c` is an ASCII decimal digit.
pub open spec fn is_digit(c: char) -> bool {
    48 <= (c as u32) && (c as u32) <= 57
}

fn is_digit_exec(c: char) -> (r: bool)
    ensures
        r == is_digit(c),
{
    let u: u32 = c as u32;
    48 <= u && u <= 57
}

/// The numeric value of a digit character (zero for any other character).
pub open spec fn digit_val(c: char) -> nat {
    if is_digit(c) {
        (c as u32 - 48) as nat
    } else {
        0
    }
}

/// The value of a digit string read in base ten.
pub open spec fn digits_val(ds: Seq<char>) -> nat
    decreases ds.len(),
{
    if ds.len() == 0 {
        0
    } else {
        digits_val(ds.drop_last()) * 10 + digit_val(ds.last())
    }
}

/// A cloze ordinal: the value of its digits when that fits in sixteen bits,
/// and zero otherwise (an unparsable ordinal defaults to zero).
pub open spec fn ord_of(ds: Seq<char>) -> u16 {
    if digits_val(ds) <= 0xffff {
        digits_val(ds) as u16
    } else {
        0
    }
}

/// The first index at or after `i` that does not hold an ASCII digit.
pub open spec fn digits_end(s: Seq<char>, i: int) -> int
    decreases s.len() - i,
{
    if !(0 <= i < s.len()) {
        i
    } else if !is_digit(s[i]) {
        i
    } else {
        digits_end(s, i + 1)
    }
}

fn digits_end_exec(v: &Vec<char>, i: usize) -> (r: usize)
    requires
        i <= v.len(),
    ensures
        r as int == digits_end(v@, i as int),
        i <= r <= v.len(),
        forall|k: int| i <= k < r ==> is_digit(v@[k]),
        r < v.len() ==> !is_digit(v@[r as int]),
{
    let n = v.len();
    let mut j: usize = i;
    while j < n
        invariant
            i <= j <= n,
            n == v@.len(),
            digits_end(v@, i as int) == digits_end(v@, j as int),
            forall|k: int| i <= k < j ==> is_digit(v@[k]),
        decreases n - j,
    {
        if !is_digit_exec(v[j]) {
            return j;
        }
        proof {
            assert(digits_end(v@, j as int) == digits_end(v@, j + 1));
        }
        j += 1;
    }
    j
}

/// A parsed cloze-deletion span.
pub ghost struct ClozeSpan {
    /// Whether the uppercase `C` form was used (no HTML wrapping).
    pub upper: bool,
    /// The span's ordinal.
    pub ord: u16,
    /// The occluded text.
    pub body: Seq<char>,
    /// The optional hint.
    pub hint: Option<Seq<char>>,
    /// The index just past the closing braces.
    pub end: int,
}

/// The cloze-deletion span starting exactly at index `i`, if any.
///
/// A span is `{{`, `c` or `C`, a nonempty digit run, `::`, then the shortest
/// occluded text such that either `::<hint>}}` (hint up to the first `}}`)
/// or `}}` directly follows — whichever separator occurs first.
pub open spec fn cloze_at(s: Seq<char>, i: int) -> Option<ClozeSpan> {
    if !(0 <= i && i + 3 < s.len() && s[i] == '{' && s[i + 1] == '{' && (s[i + 2] == 'c' || s[i + 2]
        == 'C') && is_digit(s[i + 3])) {
        None
    } else {
        let de = digits_end(s, i + 4);
        if !(de + 1 < s.len() && s[de] == ':' && s[de + 1] == ':') {
            None
        } else {
            let p = de + 2;
            match find2(s, p, '}', '}') {
                None => None,
                Some(qb) => {
                    let upper = s[i + 2] == 'C';
                    let ord = ord_of(s.subrange(i + 3, de));
                    match find2(s, p, ':', ':') {
                        Some(qc) => if qc < qb {
                            Some(
                                ClozeSpan {
                                    upper,
                                    ord,
                                    body: s.subrange(p, qc),
                                    hint: Some(s.subrange(qc + 2, qb)),
                                    end: qb + 2,
                                },
                            )
                        } else {
                            Some(
                                ClozeSpan {
                                    upper,
                                    ord,
                                    body: s.subrange(p, qb),
                                    hint: None,
                                    end: qb + 2,
                                },
                            )
                        },
                        None => Some(
                            ClozeSpan {
                                upper,
                                ord,
                                body: s.subrange(p, qb),
                                hint: None,
                                end: qb + 2,
                            },
                        ),
                    }
                },
            }
        }
    }
}

/// What a cloze span is replaced by when revealing `ord`.
pub open spec fn cloze_replacement(sp: ClozeSpan, ord: u16, question: bool) -> Seq<char> {
    if sp.ord != ord {
        sp.body
    } else {
        let shown = if question {
            match sp.hint {
                Some(h) => "["@ + h + "]"@,
                None => "[...]"@,
            }
        } else {
            sp.body
        };
        if sp.upper {
            shown
        } else {
            "<span class=cloze>"@ + shown + "</span>"@
        }
    }
}

/// The text from index `i` on with every cloze span replaced, scanning left
/// to right and resuming after each replaced span.
pub open spec fn cloze_rest(s: Seq<char>, i: int, ord: u16, question: bool) -> Seq<char>
    decreases s.len() - i,
{
    if !(0 <= i < s.len()) {
        Seq::empty()
    } else {
        match cloze_at(s, i) {
            Some(sp) => if i < sp.end <= s.len() {
                cloze_replacement(sp, ord, question) + cloze_rest(s, sp.end, ord, question)
            } else {
                seq![s[i]] + cloze_rest(s, i + 1, ord, question)
            },
            None => seq![s[i]] + cloze_rest(s, i + 1, ord, question),
        }
    }
}

/// Whether any cloze span starts at or after index `i`.
pub open spec fn cloze_any(s: Seq<char>, i: int) -> bool
    decreases s.len() - i,
{
    if !(0 <= i < s.len()) {
        false
    } else if cloze_at(s, i) is Some {
        true
    } else {
        cloze_any(s, i + 1)
    }
}

/// The result of revealing `ord`: the replaced text, or the empty string when
/// the input holds no cloze span at all.
pub open spec fn spec_reveal_cloze(s: Seq<char>, ord: u16, question: bool) -> Seq<char> {
    if cloze_any(s, 0) {
        cloze_rest(s, 0, ord, question)
    } else {
        Seq::empty()
    }
}

struct ClozeHit {
    upper: bool,
    ord: u16,
    body_start: usize,
    body_end: usize,
    has_hint: bool,
    hint_start: usize,
    hint_end: usize,
    end: usize,
}

fn cloze_at_exec(v: &Vec<char>, i: usize) -> (r: Option<ClozeHit>)
    requires
        i < v.len(),
    ensures
        r is None ==> cloze_at(v@, i as int) is None,
        r matches Some(h) ==> cloze_at(v@, i as int) matches Some(sp) && ({
            &&& h.upper == sp.upper
            &&& h.ord == sp.ord
            &&& h.body_start <= h.body_end <= v@.len()
            &&& sp.body == v@.subrange(h.body_start as int, h.body_end as int)
            &&& (h.has_hint <==> sp.hint is Some)
            &&& (h.has_hint ==> h.hint_start <= h.hint_end <= v@.len() && sp.hint == Some(
                v@.subrange(h.hint_start as int, h.hint_end as int),
            ))
            &&& h.end == sp.end
            &&& i < h.end <= v@.len()
        }),
{
    let n = v.len();
    if n - i <= 3 {
        return None;
    }
    if v[i] != '{' || v[i + 1] != '{' {
        return None;
    }
    let cc = v[i + 2];
    if cc != 'c' && cc != 'C' {
        return None;
    }
    if !is_digit_exec(v[i + 3]) {
        return None;
    }
    let de = digits_end_exec(v, i + 4);
    if n - de < 2 {
        return None;
    }
    if v[de] != ':' || v[de + 1] != ':' {
        return None;
    }
    let p = de + 2;
    let qb = match find2_exec(v, p, '}', '}') {
        None => {
            return None;
        },
        Some(q) => q,
    };
    let qc = find2_exec(v, p, ':', ':');
    let ord = parse_digit_run(v, i + 3, de);
    let upper = cc == 'C';
    let hinted: Option<usize> = match qc {
        Some(q) => if q < qb {
            Some(q)
        } else {
            None
        },
        None => None,
    };
    match hinted {
        Some(q) => Some(
            ClozeHit {
                upper,
                ord,
                body_start: p,
                body_end: q,
                has_hint: true,
                hint_start: q + 2,
                hint_end: qb,
                end: qb + 2,
            },
        ),
        None => Some(
            ClozeHit {
                upper,
                ord,
                body_start: p,
                body_end: qb,
                has_hint: false,
                hint_start: 0,
                hint_end: 0,
                end: qb + 2,
            },
        ),
    }
}

fn parse_digit_run(v: &Vec<char>, a: usize, b: usize) -> (r: u16)
    requires
        a <= b <= v.len(),
        forall|k: int| a <= k < b ==> is_digit(v@[k]),
    ensures
        r == ord_of(v@.subrange(a as int, b as int)),
{
    let mut acc: u32 = 0;
    let mut over: bool = false;
    let mut i: usize = a;
    while i < b
        invariant
            a <= i <= b <= v.len(),
            forall|k: int| a <= k < b ==> is_digit(v@[k]),
            !over ==> acc <= 0xffff && acc as nat == digits_val(v@.subrange(a as int, i as int)),
            over ==> digits_val(v@.subrange(a as int, i as int)) > 0xffff,
        decreases b - i,
    {
        let u: u32 = v[i] as u32;
        let d: u32 = u - 48;
        proof {
            assert(v@.subrange(a as int, i + 1).drop_last() =~= v@.subrange(a as int, i as int));
            assert(v@.subrange(a as int, i + 1).last() == v@[i as int]);
        }
        if !over {
            let next: u32 = acc * 10 + d;
            if next > 0xffff {
                over = true;
            } else {
                acc = next;
            }
        }
        i += 1;
    }
    if over {
        0u16
    } else {
        acc as u16
    }
}

fn push_cloze_replacement(
    out: &mut Vec<char>,
    v: &Vec<char>,
    h: &ClozeHit,
    ord: u16,
    question: bool,
    Ghost(sp): Ghost<ClozeSpan>,
)
    requires
        h.body_start <= h.body_end <= v.len(),
        sp.body == v@.subrange(h.body_start as int, h.body_end as int),
        h.has_hint <==> sp.hint is Some,
        h.has_hint ==> h.hint_start <= h.hint_end <= v.len() && sp.hint == Some(
            v@.subrange(h.hint_start as int, h.hint_end as int),
        ),
        h.upper == sp.upper,
        h.ord == sp.ord,
    ensures
        final(out)@ == old(out)@ + cloze_replacement(sp, ord, question),
{
    if h.ord != ord {
        push_range(out, v, h.body_start, h.body_end);
        return ;
    }
    if !h.upper {
        push_lit(out, "<span class=cloze>");
    }
    if question {
        if h.has_hint {
            push_lit(out, "[");
            push_range(out, v, h.hint_start, h.hint_end);
            push_lit(out, "]");
        } else {
            push_lit(out, "[...]");
        }
    } else {
        push_range(out, v, h.body_start, h.body_end);
    }
    if !h.upper {
        push_lit(out, "</span>");
    }
    proof {
        assert(out@ =~= old(out)@ + cloze_replacement(sp, ord, question));
    }
}

fn reveal_core(v: &Vec<char>, ord: u16, question: bool) -> (r: (Vec<char>, bool))
    ensures
        r.0@ == cloze_rest(v@, 0, ord, question),
        r.1 == cloze_any(v@, 0),
{
    let n = v.len();
    let mut out: Vec<char> = Vec::new();
    let mut found: bool = false;
    let mut i: usize = 0;
    while i < n
        invariant
            i <= n,
            n == v@.len(),
            cloze_rest(v@, 0, ord, question) == out@ + cloze_rest(v@, i as int, ord, question),
            cloze_any(v@, 0) == (found || cloze_any(v@, i as int)),
        decreases n - i,
    {
        match cloze_at_exec(v, i) {
            Some(h) => {
                let ghost sp = cloze_at(v@, i as int)->0;
                found = true;
                push_cloze_replacement(&mut out, v, &h, ord, question, Ghost(sp));
                proof {
                    assert(cloze_rest(v@, i as int, ord, question) == cloze_replacement(
                        sp,
                        ord,
                        question,
                    ) + cloze_rest(v@, h.end as int, ord, question));
                    assert(out@ + cloze_rest(v@, h.end as int, ord, question) =~= cloze_rest(
                        v@,
                        0,
                        ord,
                        question,
                    ));
                }
                i = h.end;
            },
            None => {
                out.push(v[i]);
                proof {
                    assert(cloze_rest(v@, i as int, ord, question) == seq![v@[i as int]]
                        + cloze_rest(v@, i + 1, ord, question));
                    assert(out@ + cloze_rest(v@, i + 1, ord, question) =~= cloze_rest(
                        v@,
                        0,
                        ord,
                        question,
                    ));
                    assert(cloze_any(v@, i as int) == cloze_any(v@, i + 1));
                }
                i += 1;
            },
        }
    }
    proof {
        assert(out@ + cloze_rest(v@, n as int, ord, question) =~= out@);
    }
    (out, found)
}

/// Reveals the cloze ordinal `ord` in `text`; see [`spec_reveal_cloze`].
///
/// Text holding no cloze span at all reveals to the empty string, not to the
/// original text.
pub fn reveal_cloze_text(text: &str, ord: u16, question: bool) -> (r: String)
    ensures
        r@ == spec_reveal_cloze(text@, ord, question),
        !cloze_any(text@, 0) ==> r@ == Seq::<char>::empty(),
{
    let v = chars_of(text);
    let (out, found) = reveal_core(&v, ord, question);
    if found {
        string_of(&out)
    } else {
        String::new()
    }
}

/// The ordinal a filter argument names: the value of its digits (an optional
/// leading `+` is allowed), and zero when the argument is anything but an
/// unbroken digit run whose value fits in sixteen bits.
pub open spec fn spec_parse_u16(s: Seq<char>) -> u16 {
    let start: int = if s.len() > 0 && s[0] == '+' {
        1
    } else {
        0
    };
    if s.len() > start && digits_end(s, start) == s.len() {
        ord_of(s.subrange(start, s.len() as int))
    } else {
        0
    }
}

fn parse_u16_or_zero(s: &str) -> (r: u16)
    ensures
        r == spec_parse_u16(s@),
{
    let v = chars_of(s);
    let start: usize = if v.len() > 0 && v[0] == '+' {
        1
    } else {
        0
    };
    let de = digits_end_exec(&v, start);
    if de < v.len() || de == start {
        0u16
    } else {
        parse_digit_run(&v, start, de)
    }
}

/// The cloze filter: parses the target ordinal from the compound filter
/// argument and reveals it.
pub fn cloze_filter(text: &str, filter_args: &str, question: bool) -> (r: String)
    ensures
        r@ == spec_reveal_cloze(text@, spec_parse_u16(filter_args@), question),
{
    let ord = parse_u16_or_zero(filter_args);
    reveal_cloze_text(text, ord, question)
}

/// Law: revealing an ordinal is deterministic — the result is a pure function
/// of the text, the ordinal and the side, so two calls on identical input
/// yield the same output.
pub proof fn lemma_reveal_deterministic(
    text: Seq<char>,
    ord: u16,
    question: bool,
    r1: Seq<char>,
    r2: Seq<char>,
)
    requires
        r1 == spec_reveal_cloze(text, ord, question),
        r2 == spec_reveal_cloze(text, ord, question),
    ensures
        r1 == r2,
{
}

} // verus!
