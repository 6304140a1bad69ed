//! The pipeline driver and the filter dispatcher.
//!
//! Filters are applied left to right over the field text.  A recognized
//! filter hands the (possibly unchanged) text to the next one; the first
//! unrecognized name stops the pipeline, and it and everything after it are
//! returned verbatim for the caller to handle.  The exact two-name sequence
//! `type`, `cloze` is rewritten to the single compound name `type-cloze`
//! before iterating, so the `type` filter receives `cloze` as its argument.

use vstd::prelude::*;

verus! {

use vstd::string::StrSliceExecFns;
use vstd::string::StringExecFns;
use crate::chars::chars_of;
use crate::chars::find1;
use crate::chars::find1_exec;
use crate::chars::str_eq;
use crate::hint;
use crate::html;
use crate::ruby;
use crate::typing;

/// What one dispatch did: the filter was recognized and left the text as it
/// was, was recognized and produced new text, or was not recognized at all.
pub enum FilterOutcome {
    /// A recognized filter that did not change the text.
    Unchanged,
    /// A recognized filter's new text.
    Changed(String),
    /// Not a built-in filter; the caller handles it.
    Unrecognized,
}

/// The part of a compound filter name before the first `-` (the whole name
/// when there is none).
pub open spec fn base_of(name: Seq<char>) -> Seq<char> {
    match find1(name, 0, '-') {
        Some(d) => name.subrange(0, d),
        None => name,
    }
}

/// The part of a compound filter name after the first `-` (empty when there
/// is none).
pub open spec fn args_of(name: Seq<char>) -> Seq<char> {
    match find1(name, 0, '-') {
        Some(d) => name.subrange(d + 1, name.len() as int),
        None => Seq::empty(),
    }
}

/// What a recognized filter turns `text` into, or `None` for an
/// unrecognized name.  The four bare names are matched whole; any other
/// name is split on its first `-` into base and arguments.
pub open spec fn spec_apply_filter(name: Seq<char>, text: Seq<char>, field: Seq<char>) -> Option<
    Seq<char>,
> {
    if name == "text"@ {
        Some(html::spec_strip_html(text))
    } else if name == "furigana"@ {
        Some(ruby::spec_ruby_filter(text, ruby::FuriMode::Furigana))
    } else if name == "kanji"@ {
        Some(ruby::spec_ruby_filter(text, ruby::FuriMode::Kanji))
    } else if name == "kana"@ {
        Some(ruby::spec_ruby_filter(text, ruby::FuriMode::Kana))
    } else if base_of(name) == "type"@ {
        Some(typing::spec_type_filter(args_of(name), field))
    } else if base_of(name) == "hint"@ {
        Some(hint::spec_hint_filter(text, field))
    } else {
        None
    }
}

/// Whether a recognized filter reports its text unchanged rather than
/// producing a new string: HTML stripping that found nothing to strip, or a
/// hint on whitespace-only text.  Every other recognized filter always
/// returns a fresh string.
pub open spec fn spec_filter_unchanged(name: Seq<char>, text: Seq<char>) -> bool {
    if name == "text"@ {
        html::spec_strip_html(text) == text
    } else if name == "furigana"@ || name == "kanji"@ || name == "kana"@ {
        false
    } else if base_of(name) == "type"@ {
        false
    } else if base_of(name) == "hint"@ {
        hint::all_ws(text)
    } else {
        false
    }
}

/// Applies one filter by name; see [`spec_apply_filter`].
pub fn apply_filter(filter_name: &str, text: &str, field_name: &str) -> (r: FilterOutcome)
    ensures
        r is Unrecognized <==> spec_apply_filter(filter_name@, text@, field_name@) is None,
        r matches FilterOutcome::Changed(s) ==> spec_apply_filter(filter_name@, text@, field_name@)
            == Some(s@),
        r is Unchanged ==> spec_apply_filter(filter_name@, text@, field_name@) == Some(text@),
        r is Unchanged <==> spec_apply_filter(filter_name@, text@, field_name@) is Some
            && spec_filter_unchanged(filter_name@, text@),
{
    if str_eq(filter_name, "text") {
        let s = html::strip_html(text);
        let orig = String::from_str(text);
        if s == orig {
            FilterOutcome::Unchanged
        } else {
            FilterOutcome::Changed(s)
        }
    } else if str_eq(filter_name, "furigana") {
        FilterOutcome::Changed(ruby::furigana_filter(text))
    } else if str_eq(filter_name, "kanji") {
        FilterOutcome::Changed(ruby::kanji_filter(text))
    } else if str_eq(filter_name, "kana") {
        FilterOutcome::Changed(ruby::kana_filter(text))
    } else {
        let n = filter_name.unicode_len();
        let v = chars_of(filter_name);
        match find1_exec(&v, 0, '-') {
            Some(d) => {
                let base = filter_name.substring_char(0, d);
                let args = filter_name.substring_char(d + 1, n);
                dispatch_compound(filter_name, base, args, text, field_name)
            },
            None => {
                proof {
                    reveal_strlit("");
                    assert(""@ =~= args_of(filter_name@));
                }
                dispatch_compound(filter_name, filter_name, "", text, field_name)
            },
        }
    }
}

/// Dispatches a split compound name to the `type` or `hint` filter.
fn dispatch_compound(name: &str, base: &str, args: &str, text: &str, field_name: &str) -> (r:
    FilterOutcome)
    requires
        name@ != "text"@,
        name@ != "furigana"@,
        name@ != "kanji"@,
        name@ != "kana"@,
        base@ == base_of(name@),
        args@ == args_of(name@),
    ensures
        r is Unrecognized <==> spec_apply_filter(name@, text@, field_name@) is None,
        r matches FilterOutcome::Changed(s) ==> spec_apply_filter(name@, text@, field_name@)
            == Some(s@),
        r is Unchanged ==> spec_apply_filter(name@, text@, field_name@) == Some(text@),
        r is Unchanged <==> spec_apply_filter(name@, text@, field_name@) is Some
            && spec_filter_unchanged(name@, text@),
{
    if str_eq(base, "type") {
        FilterOutcome::Changed(typing::type_filter(text, args, field_name))
    } else if str_eq(base, "hint") {
        let v = chars_of(text);
        if hint::all_ws_exec(&v) {
            FilterOutcome::Unchanged
        } else {
            FilterOutcome::Changed(hint::hint_filter(text, field_name))
        }
    } else {
        FilterOutcome::Unrecognized
    }
}

/// The views of a list of filter-name strings.
pub open spec fn names_of(fs: Seq<String>) -> Seq<Seq<char>> {
    Seq::new(fs.len(), |i: int| fs[i]@)
}

/// Folds the filters over the text, left to right, stopping at the first
/// unrecognized name: the result is the accumulated text and the unconsumed
/// suffix of names, from the unrecognized one (inclusive) to the end.
pub open spec fn pipeline(text: Seq<char>, names: Seq<Seq<char>>, field: Seq<char>) -> (Seq<
    char,
>, Seq<Seq<char>>)
    decreases names.len(),
{
    if names.len() == 0 {
        (text, Seq::empty())
    } else {
        match spec_apply_filter(names[0], text, field) {
            Some(t2) => pipeline(t2, names.drop_first(), field),
            None => (text, names),
        }
    }
}

/// The special-case rewrite: exactly `type`, `cloze` collapses to the single
/// compound name `type-cloze`; every other list is kept as it is.
pub open spec fn rewrite_type_cloze(names: Seq<Seq<char>>) -> Seq<Seq<char>> {
    if names.len() == 2 && names[0] == "type"@ && names[1] == "cloze"@ {
        seq!["type-cloze"@]
    } else {
        names
    }
}

/// What the whole pipeline returns: the rewrite, then the fold.
pub open spec fn spec_apply_filters(text: Seq<char>, names: Seq<Seq<char>>, field: Seq<char>) -> (
    Seq<char>,
    Seq<Seq<char>>,
) {
    pipeline(text, rewrite_type_cloze(names), field)
}

/// Applies the built-in filters in order, returning the resulting text and
/// the remaining (unrecognized) filter names; see [`spec_apply_filters`].
pub fn apply_filters(text: &str, filters: &Vec<String>, field_name: &str) -> (r: (String, Vec<
    String,
>))
    ensures
        r.0@ == spec_apply_filters(text@, names_of(filters@), field_name@).0,
        names_of(r.1@) == spec_apply_filters(text@, names_of(filters@), field_name@).1,
{
    let use_compound: bool = filters.len() == 2 && str_eq(filters[0].as_str(), "type") && str_eq(
        filters[1].as_str(),
        "cloze",
    );
    let mut names: Vec<String> = Vec::new();
    if use_compound {
        names.push(String::from_str("type-cloze"));
        proof {
            assert(names_of(filters@).len() == 2);
            assert(names_of(filters@)[0] == filters@[0]@);
            assert(names_of(filters@)[1] == filters@[1]@);
            assert(names_of(names@) =~= seq!["type-cloze"@]);
        }
    } else {
        let mut k: usize = 0;
        while k < filters.len()
            invariant
                k <= filters.len(),
                names@.len() == k,
                forall|x: int| 0 <= x < k ==> names@[x] == filters@[x],
            decreases filters.len() - k,
        {
            names.push(filters[k].clone());
            k += 1;
        }
        proof {
            assert(names@ =~= filters@);
            assert(names_of(filters@).len() == filters@.len());
            if names_of(filters@).len() == 2 && names_of(filters@)[0] == "type"@ && names_of(
                filters@,
            )[1] == "cloze"@ {
                assert(names_of(filters@)[0] == filters@[0]@);
                assert(names_of(filters@)[1] == filters@[1]@);
                assert(false);
            }
        }
    }
    let ghost gnames = names_of(names@);
    let ghost target = pipeline(text@, gnames, field_name@);
    proof {
        assert(rewrite_type_cloze(names_of(filters@)) == gnames);
        assert(gnames.skip(0) =~= gnames);
    }
    let mut cur: String = String::from_str(text);
    let mut i: usize = 0;
    while i < names.len()
        invariant
            i <= names.len(),
            gnames == names_of(names@),
            gnames.len() == names@.len(),
            pipeline(cur@, gnames.skip(i as int), field_name@) == target,
            target == spec_apply_filters(text@, names_of(filters@), field_name@),
        decreases names.len() - i,
    {
        let outcome = apply_filter(names[i].as_str(), cur.as_str(), field_name);
        proof {
            assert(gnames.skip(i as int)[0] == gnames[i as int]);
            assert(gnames[i as int] == names@[i as int]@);
            assert(gnames.skip(i as int).drop_first() =~= gnames.skip(i as int + 1));
        }
        match outcome {
            FilterOutcome::Unchanged => {
                proof {
                    assert(pipeline(cur@, gnames.skip(i as int + 1), field_name@) == target);
                }
                i += 1;
            },
            FilterOutcome::Changed(s) => {
                proof {
                    assert(pipeline(s@, gnames.skip(i as int + 1), field_name@) == target);
                }
                cur = s;
                i += 1;
            },
            FilterOutcome::Unrecognized => {
                let mut rem: Vec<String> = Vec::new();
                let mut k: usize = i;
                while k < names.len()
                    invariant
                        i <= k <= names.len(),
                        rem@.len() == k - i,
                        forall|x: int| 0 <= x < k - i ==> rem@[x] == names@[i + x],
                    decreases names.len() - k,
                {
                    rem.push(names[k].clone());
                    k += 1;
                }
                proof {
                    assert(names_of(rem@) =~= gnames.skip(i as int));
                }
                return (cur, rem);
            },
        }
    }
    proof {
        assert(gnames.skip(names@.len() as int) =~= Seq::<Seq<char>>::empty());
        assert(names_of(Seq::<String>::empty()) =~= Seq::<Seq<char>>::empty());
    }
    (cur, Vec::new())
}

/// Law: the pipeline stops at the first unrecognized filter.  The remaining
/// names are exactly a suffix of the iterated list, the first of them is
/// unrecognized against the returned text, and nothing after it was applied.
pub proof fn lemma_remaining_is_suffix(text: Seq<char>, names: Seq<Seq<char>>, field: Seq<char>)
    ensures
        pipeline(text, names, field).1.len() <= names.len(),
        pipeline(text, names, field).1 == names.subrange(
            names.len() - pipeline(text, names, field).1.len(),
            names.len() as int,
        ),
        pipeline(text, names, field).1.len() > 0 ==> spec_apply_filter(
            pipeline(text, names, field).1[0],
            pipeline(text, names, field).0,
            field,
        ) is None,
    decreases names.len(),
{
    if names.len() == 0 {
        assert(pipeline(text, names, field).1 =~= names.subrange(0, 0));
    } else {
        match spec_apply_filter(names[0], text, field) {
            Some(t2) => {
                lemma_remaining_is_suffix(t2, names.drop_first(), field);
                let sub = names.drop_first();
                let rem = pipeline(t2, sub, field).1;
                assert(names.subrange(names.len() - rem.len(), names.len() as int) =~= sub.subrange(
                    sub.len() - rem.len(),
                    sub.len() as int,
                ));
            },
            None => {
                assert(pipeline(text, names, field).1 =~= names.subrange(0, names.len() as int));
            },
        }
    }
}

/// Law: the two-name list `type`, `cloze` yields exactly what the single
/// compound filter `type-cloze` yields, on every text and field name.
pub proof fn lemma_type_cloze_alias(text: Seq<char>, field: Seq<char>)
    ensures
        spec_apply_filters(text, seq!["type"@, "cloze"@], field) == spec_apply_filters(
            text,
            seq!["type-cloze"@],
            field,
        ),
{
    assert(seq!["type-cloze"@].len() == 1);
    assert(rewrite_type_cloze(seq!["type"@, "cloze"@]) == seq!["type-cloze"@]);
    assert(rewrite_type_cloze(seq!["type-cloze"@]) == seq!["type-cloze"@]);
}

} // verus!
