//! The furigana family of filters: `furigana`, `kanji`, `kana`.
//!
//! A furigana token is a span `word[reading]`, optionally preceded by one
//! literal space that the match swallows.  The word may not contain a space
//! or `>`; the reading may not contain a newline.  Before scanning, every
//! `&nbsp;` entity is replaced by a plain space.  A reading that starts with
//! `sound:` is a sound reference: the whole matched span is kept verbatim by
//! all three filters.  Otherwise `furigana` renders ruby markup, `kanji`
//! keeps the word, and `kana` keeps the reading.

use vstd::prelude::*;

verus! {

use crate::chars::chars_of;
use crate::chars::find1;
use crate::chars::find1_exec;
use crate::chars::push_lit;
use crate::chars::push_range;
use crate::chars::string_of;

/// Which member of the furigana family is running.
#[derive(Clone, Copy)]
pub enum FuriMode {
    /// Render `<ruby>` markup pairing word and reading.
    Furigana,
    /// Keep the word, discard the reading.
    Kanji,
    /// Keep the reading, discard the word.
    Kana,
}

/// Whether the `&nbsp;` entity starts at index `i`.
pub open spec fn nbsp_at(s: Seq<char>, i: int) -> bool {
    &&& i + 6 <= s.len()
    &&& s[i] == '&'
    &&& s[i + 1] == 'n'
    &&& s[i + 2] == 'b'
    &&& s[i + 3] == 's'
    &&& s[i + 4] == 'p'
    &&& s[i + 5] == ';'
}

/// The text from index `i` on with every `&nbsp;` entity replaced by a space.
pub open spec fn nbsp_normalized(s: Seq<char>, i: int) -> Seq<char>
    decreases s.len() - i,
{
    if !(0 <= i < s.len()) {
        Seq::empty()
    } else if nbsp_at(s, i) {
        seq![' '] + nbsp_normalized(s, i + 6)
    } else {
        seq![s[i]] + nbsp_normalized(s, i + 1)
    }
}

/// Whether a reading can open at index `m` (which holds `[`): there is a
/// closing `]` after at least one reading character, with no newline between
/// the opening bracket and that close.
pub open spec fn reading_ok(s: Seq<char>, m: int) -> bool {
    match find1(s, m + 2, ']') {
        Some(j) => match find1(s, m + 1, '\n') {
            Some(nl) => nl >= j,
            None => true,
        },
        None => false,
    }
}

/// The position of the `[` that ends the word of a match whose word starts
/// one character before `m`: scanning from `m`, the first `[` whose reading
/// closes properly, unless a space or `>` is reached first.
pub open spec fn base_end(s: Seq<char>, m: int) -> Option<int>
    decreases s.len() - m,
{
    if m >= s.len() {
        None
    } else if s[m] == '[' && reading_ok(s, m) {
        Some(m)
    } else if s[m] == ' ' || s[m] == '>' {
        None
    } else {
        base_end(s, m + 1)
    }
}

/// Whether a reading is a sound reference.
pub open spec fn is_sound(r: Seq<char>) -> bool {
    &&& r.len() >= 6
    &&& r[0] == 's'
    &&& r[1] == 'o'
    &&& r[2] == 'u'
    &&& r[3] == 'n'
    &&& r[4] == 'd'
    &&& r[5] == ':'
}

/// A parsed furigana token.
pub ghost struct FuriSpan {
    /// The word (the ruby base).
    pub base: Seq<char>,
    /// The reading (the ruby text).
    pub reading: Seq<char>,
    /// The whole matched span, leading space included.
    pub whole: Seq<char>,
    /// The index just past the closing `]`.
    pub end: int,
    /// Whether the reading is a sound reference.
    pub sound: bool,
}

/// The furigana token starting exactly at index `i`, if any.
pub open spec fn furi_at(s: Seq<char>, i: int) -> Option<FuriSpan> {
    if !(0 <= i < s.len()) {
        None
    } else {
        let b = if s[i] == ' ' {
            i + 1
        } else {
            i
        };
        if !(b < s.len() && s[b] != ' ' && s[b] != '>') {
            None
        } else {
            match base_end(s, b + 1) {
                None => None,
                Some(m) => match find1(s, m + 2, ']') {
                    None => None,
                    Some(j) => Some(
                        FuriSpan {
                            base: s.subrange(b, m),
                            reading: s.subrange(m + 1, j),
                            whole: s.subrange(i, j + 1),
                            end: j + 1,
                            sound: is_sound(s.subrange(m + 1, j)),
                        },
                    ),
                },
            }
        }
    }
}

/// What a furigana token is replaced by under each filter.
pub open spec fn furi_replacement(sp: FuriSpan, mode: FuriMode) -> Seq<char> {
    if sp.sound {
        sp.whole
    } else {
        match mode {
            FuriMode::Kana => sp.reading,
            FuriMode::Kanji => sp.base,
            FuriMode::Furigana => "<ruby><rb>"@ + sp.base + "</rb><rt>"@ + sp.reading
                + "</rt></ruby>"@,
        }
    }
}

/// The text from index `i` on with every furigana token replaced, scanning
/// left to right and resuming after each replaced span.
pub open spec fn furi_rest(s: Seq<char>, i: int, mode: FuriMode) -> Seq<char>
    decreases s.len() - i,
{
    if !(0 <= i < s.len()) {
        Seq::empty()
    } else {
        match furi_at(s, i) {
            Some(sp) => if i < sp.end <= s.len() {
                furi_replacement(sp, mode) + furi_rest(s, sp.end, mode)
            } else {
                seq![s[i]] + furi_rest(s, i + 1, mode)
            },
            None => seq![s[i]] + furi_rest(s, i + 1, mode),
        }
    }
}

/// The result of one furigana-family filter: entity normalization, then the
/// scan-and-replace pass.
pub open spec fn spec_ruby_filter(text: Seq<char>, mode: FuriMode) -> Seq<char> {
    furi_rest(nbsp_normalized(text, 0), 0, mode)
}

fn normalize_nbsp(v: &Vec<char>) -> (r: Vec<char>)
    ensures
        r@ == nbsp_normalized(v@, 0),
{
    let n = v.len();
    let mut out: Vec<char> = Vec::new();
    let mut i: usize = 0;
    while i < n
        invariant
            i <= n,
            n == v@.len(),
            nbsp_normalized(v@, 0) == out@ + nbsp_normalized(v@, i as int),
        decreases n - i,
    {
        if n - i >= 6 && v[i] == '&' && v[i + 1] == 'n' && v[i + 2] == 'b' && v[i + 3] == 's' && v[i
            + 4] == 'p' && v[i + 5] == ';' {
            out.push(' ');
            proof {
                assert(nbsp_at(v@, i as int));
                assert(out@ + nbsp_normalized(v@, i + 6) =~= nbsp_normalized(v@, 0));
            }
            i += 6;
        } else {
            out.push(v[i]);
            proof {
                assert(!nbsp_at(v@, i as int));
                assert(out@ + nbsp_normalized(v@, i + 1) =~= nbsp_normalized(v@, 0));
            }
            i += 1;
        }
    }
    proof {
        assert(out@ + nbsp_normalized(v@, n as int) =~= out@);
    }
    out
}

fn reading_ok_exec(v: &Vec<char>, m: usize) -> (r: Option<usize>)
    requires
        m < v.len(),
    ensures
        r is None ==> !reading_ok(v@, m as int),
        r matches Some(j) ==> reading_ok(v@, m as int) && find1(v@, m as int + 2, ']') == Some(
            j as int,
        ) && m + 2 <= j && j < v.len(),
{
    let n = v.len();
    if n - m < 2 {
        proof {
            assert(find1(v@, m as int + 2, ']') is None);
        }
        return None;
    }
    let j = match find1_exec(v, m + 2, ']') {
        None => {
            return None;
        },
        Some(j) => j,
    };
    match find1_exec(v, m + 1, '\n') {
        Some(nl) => if nl < j {
            None
        } else {
            Some(j)
        },
        None => Some(j),
    }
}

fn base_end_exec(v: &Vec<char>, start: usize) -> (r: Option<(usize, usize)>)
    requires
        start <= v.len(),
    ensures
        r is None ==> base_end(v@, start as int) is None,
        r matches Some(mj) ==> base_end(v@, start as int) == Some(mj.0 as int) && find1(
            v@,
            mj.0 as int + 2,
            ']',
        ) == Some(mj.1 as int) && start <= mj.0 && mj.0 + 2 <= mj.1 && mj.1 < v.len(),
{
    let n = v.len();
    let mut m: usize = start;
    while m < n
        invariant
            start <= m <= n,
            n == v@.len(),
            base_end(v@, start as int) == base_end(v@, m as int),
        decreases n - m,
    {
        if v[m] == '[' {
            match reading_ok_exec(v, m) {
                Some(j) => {
                    return Some((m, j));
                },
                None => {
                    proof {
                        assert(base_end(v@, m as int) == base_end(v@, m + 1));
                    }
                },
            }
        } else if v[m] == ' ' || v[m] == '>' {
            return None;
        } else {
            proof {
                assert(base_end(v@, m as int) == base_end(v@, m + 1));
            }
        }
        m += 1;
    }
    None
}

fn check_sound(v: &Vec<char>, a: usize, b: usize) -> (r: bool)
    requires
        a <= b <= v.len(),
    ensures
        r == is_sound(v@.subrange(a as int, b as int)),
{
    if b - a < 6 {
        return false;
    }
    v[a] == 's' && v[a + 1] == 'o' && v[a + 2] == 'u' && v[a + 3] == 'n' && v[a + 4] == 'd' && v[a
        + 5] == ':'
}

struct FuriHit {
    base_start: usize,
    base_end: usize,
    read_start: usize,
    read_end: usize,
    end: usize,
    sound: bool,
}

fn furi_at_exec(v: &Vec<char>, i: usize) -> (r: Option<FuriHit>)
    requires
        i < v.len(),
    ensures
        r is None ==> furi_at(v@, i as int) is None,
        r matches Some(h) ==> furi_at(v@, i as int) matches Some(sp) && ({
            &&& h.base_start <= h.base_end <= v@.len()
            &&& sp.base == v@.subrange(h.base_start as int, h.base_end as int)
            &&& h.read_start <= h.read_end <= v@.len()
            &&& sp.reading == v@.subrange(h.read_start as int, h.read_end as int)
            &&& sp.whole == v@.subrange(i as int, h.end as int)
            &&& h.sound == sp.sound
            &&& h.end == sp.end
            &&& i < h.end <= v@.len()
        }),
{
    let n = v.len();
    let b: usize = if v[i] == ' ' {
        i + 1
    } else {
        i
    };
    if b >= n {
        return None;
    }
    if v[b] == ' ' || v[b] == '>' {
        return None;
    }
    let (m, j) = match base_end_exec(v, b + 1) {
        None => {
            return None;
        },
        Some(mj) => mj,
    };
    let sound = check_sound(v, m + 1, j);
    Some(
        FuriHit {
            base_start: b,
            base_end: m,
            read_start: m + 1,
            read_end: j,
            end: j + 1,
            sound,
        },
    )
}

fn push_furi_replacement(
    out: &mut Vec<char>,
    v: &Vec<char>,
    start: usize,
    h: &FuriHit,
    mode: FuriMode,
    Ghost(sp): Ghost<FuriSpan>,
)
    requires
        h.base_start <= h.base_end <= v.len(),
        sp.base == v@.subrange(h.base_start as int, h.base_end as int),
        h.read_start <= h.read_end <= v.len(),
        sp.reading == v@.subrange(h.read_start as int, h.read_end as int),
        start <= h.end <= v.len(),
        sp.whole == v@.subrange(start as int, h.end as int),
        h.sound == sp.sound,
    ensures
        final(out)@ == old(out)@ + furi_replacement(sp, mode),
{
    if h.sound {
        push_range(out, v, start, h.end);
        return ;
    }
    match mode {
        FuriMode::Kana => push_range(out, v, h.read_start, h.read_end),
        FuriMode::Kanji => push_range(out, v, h.base_start, h.base_end),
        FuriMode::Furigana => {
            push_lit(out, "<ruby><rb>");
            push_range(out, v, h.base_start, h.base_end);
            push_lit(out, "</rb><rt>");
            push_range(out, v, h.read_start, h.read_end);
            push_lit(out, "</rt></ruby>");
            proof {
                assert(out@ =~= old(out)@ + furi_replacement(sp, mode));
            }
        },
    }
}

fn furi_core(v: &Vec<char>, mode: FuriMode) -> (r: Vec<char>)
    ensures
        r@ == furi_rest(v@, 0, mode),
{
    let n = v.len();
    let mut out: Vec<char> = Vec::new();
    let mut i: usize = 0;
    while i < n
        invariant
            i <= n,
            n == v@.len(),
            furi_rest(v@, 0, mode) == out@ + furi_rest(v@, i as int, mode),
        decreases n - i,
    {
        match furi_at_exec(v, i) {
            Some(h) => {
                let ghost sp = furi_at(v@, i as int)->0;
                push_furi_replacement(&mut out, v, i, &h, mode, Ghost(sp));
                proof {
                    assert(furi_rest(v@, i as int, mode) == furi_replacement(sp, mode) + furi_rest(
                        v@,
                        h.end as int,
                        mode,
                    ));
                    assert(out@ + furi_rest(v@, h.end as int, mode) =~= furi_rest(v@, 0, mode));
                }
                i = h.end;
            },
            None => {
                out.push(v[i]);
                proof {
                    assert(furi_rest(v@, i as int, mode) == seq![v@[i as int]] + furi_rest(
                        v@,
                        i + 1,
                        mode,
                    ));
                    assert(out@ + furi_rest(v@, i + 1, mode) =~= furi_rest(v@, 0, mode));
                }
                i += 1;
            },
        }
    }
    proof {
        assert(out@ + furi_rest(v@, n as int, mode) =~= out@);
    }
    out
}

fn ruby_filter(text: &str, mode: FuriMode) -> (r: String)
    ensures
        r@ == spec_ruby_filter(text@, mode),
{
    let v = chars_of(text);
    let nv = normalize_nbsp(&v);
    let out = furi_core(&nv, mode);
    string_of(&out)
}

/// The `furigana` filter: every token becomes
/// `<ruby><rb>WORD</rb><rt>READING</rt></ruby>`.
pub fn furigana_filter(text: &str) -> (r: String)
    ensures
        r@ == spec_ruby_filter(text@, FuriMode::Furigana),
{
    ruby_filter(text, FuriMode::Furigana)
}

/// The `kanji` filter: every token keeps only its word.
pub fn kanji_filter(text: &str) -> (r: String)
    ensures
        r@ == spec_ruby_filter(text@, FuriMode::Kanji),
{
    ruby_filter(text, FuriMode::Kanji)
}

/// The `kana` filter: every token keeps only its reading.
pub fn kana_filter(text: &str) -> (r: String)
    ensures
        r@ == spec_ruby_filter(text@, FuriMode::Kana),
{
    ruby_filter(text, FuriMode::Kana)
}

/// Law: a sound-reference span survives every furigana-family filter
/// verbatim — its replacement is exactly the span of the text it matched.
pub proof fn lemma_sound_span_preserved(s: Seq<char>, i: int, sp: FuriSpan, mode: FuriMode)
    requires
        furi_at(s, i) == Some(sp),
        sp.sound,
    ensures
        furi_replacement(sp, mode) == s.subrange(i, sp.end),
{
}

} // verus!
