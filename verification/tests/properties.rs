use template_filters::apply_filter;
use template_filters::apply_filters;
use template_filters::cloze_filter;
use template_filters::furigana_filter;
use template_filters::hint_filter;
use template_filters::kana_filter;
use template_filters::kanji_filter;
use template_filters::reveal_cloze_text;
use template_filters::strip_html;
use template_filters::FilterOutcome;

#[test]
fn pipeline_stops_at_first_unrecognized() {
    let filters = vec![
        "kana".to_string(),
        "unknown-x".to_string(),
        "kanji".to_string(),
    ];
    let (out, rem) = apply_filters("a[b]", &filters, "Front");
    assert_eq!(out, "b");
    assert_eq!(rem, vec!["unknown-x".to_string(), "kanji".to_string()]);
}

#[test]
fn pipeline_empty_filter_list() {
    let (out, rem) = apply_filters("text stays", &Vec::new(), "Front");
    assert_eq!(out, "text stays");
    assert_eq!(rem, Vec::<String>::new());
}

#[test]
fn pipeline_unrecognized_first() {
    let filters = vec!["bogus".to_string()];
    let (out, rem) = apply_filters("kept", &filters, "Front");
    assert_eq!(out, "kept");
    assert_eq!(rem, vec!["bogus".to_string()]);
}

#[test]
fn type_cloze_pair_equals_compound() {
    let pair = vec!["type".to_string(), "cloze".to_string()];
    let compound = vec!["type-cloze".to_string()];
    let a = apply_filters("whatever", &pair, "Text");
    let b = apply_filters("whatever", &compound, "Text");
    assert_eq!(a, b);
    assert_eq!(a.0, "[[type:cloze:Text]]");
}

#[test]
fn reveal_is_deterministic() {
    let text = "{{c1::alpha::h}} beta {{c2::gamma}}";
    let first = cloze_filter(text, "1", true);
    let second = cloze_filter(text, "1", true);
    assert_eq!(first, second);
}

#[test]
fn reveal_without_cloze_spans_is_empty() {
    assert_eq!(cloze_filter("no markers at all", "1", true), "");
    assert_eq!(reveal_cloze_text("plain <b>html</b>", 2, false), "");
    assert_eq!(cloze_filter("", "1", true), "");
}

#[test]
fn reveal_unparsable_ordinal_defaults_to_zero() {
    assert_eq!(cloze_filter("{{c1::one}}", "abc", true), "one");
    assert_eq!(cloze_filter("{{c1::one}}", "99999", true), "one");
    assert_eq!(
        cloze_filter("{{c70000::big}}", "0", true),
        "<span class=cloze>[...]</span>"
    );
}

#[test]
fn reveal_empty_content_and_hint() {
    assert_eq!(cloze_filter("{{c1::}}", "1", true), "<span class=cloze>[...]</span>");
    assert_eq!(cloze_filter("{{c1::text::}}", "1", true), "<span class=cloze>[]</span>");
}

#[test]
fn sound_references_survive_all_three_filters() {
    let text = "foo[sound:bar.mp3] baz[qux]";
    assert_eq!(kana_filter(text), "foo[sound:bar.mp3]qux");
    assert_eq!(kanji_filter(text), "foo[sound:bar.mp3]baz");
    assert_eq!(
        furigana_filter(text),
        "foo[sound:bar.mp3]<ruby><rb>baz</rb><rt>qux</rt></ruby>"
    );
}

#[test]
fn nbsp_entities_normalize_to_spaces() {
    assert_eq!(kana_filter("x&nbsp;y[z]"), "xz");
    assert_eq!(kanji_filter("x&nbsp;y[z]"), "xy");
}

#[test]
fn hint_is_deterministic_and_content_addressed() {
    let a = hint_filter("foo", "field");
    let b = hint_filter("foo", "field");
    assert_eq!(a, b);
    let c = hint_filter("foo", "other");
    assert_ne!(a, c);
    let d = hint_filter("fop", "field");
    assert_ne!(a, d);
}

#[test]
fn hint_on_whitespace_only_is_unchanged() {
    assert_eq!(hint_filter("", "field"), "");
    assert_eq!(hint_filter(" \t\n", "field"), " \t\n");
}

#[test]
fn hint_filter_args_are_ignored() {
    let filters = vec!["hint-anything".to_string()];
    let (out, rem) = apply_filters("foo", &filters, "field");
    assert_eq!(out, hint_filter("foo", "field"));
    assert_eq!(rem, Vec::<String>::new());
}

#[test]
fn text_filter_strips_html() {
    assert_eq!(strip_html("<b>bold</b> rest"), "bold rest");
    let filters = vec!["text".to_string()];
    let (out, rem) = apply_filters("<b>bold</b>", &filters, "Front");
    assert_eq!(out, "bold");
    assert_eq!(rem, Vec::<String>::new());
}

#[test]
fn dispatcher_distinguishes_outcomes() {
    match apply_filter("text", "plain", "Front") {
        FilterOutcome::Unchanged => {}
        _ => panic!("stripping plain text should report no change"),
    }
    match apply_filter("text", "a<i>b</i>", "Front") {
        FilterOutcome::Changed(s) => assert_eq!(s, "ab"),
        _ => panic!("stripping markup should produce new text"),
    }
    match apply_filter("frob", "x", "Front") {
        FilterOutcome::Unrecognized => {}
        _ => panic!("an unknown name must be unrecognized"),
    }
}

#[test]
fn cloze_spans_may_cross_newlines() {
    assert_eq!(
        cloze_filter("{{c1::a\nb}}", "1", false),
        "<span class=cloze>a\nb</span>"
    );
}

#[test]
fn furigana_readings_do_not_cross_newlines() {
    assert_eq!(kana_filter("x[a\nb]"), "x[a\nb]");
}
