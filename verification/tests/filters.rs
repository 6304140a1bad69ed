use template_filters::apply_filters;
use template_filters::cloze_filter;
use template_filters::furigana_filter;
use template_filters::hint_filter;
use template_filters::kana_filter;
use template_filters::kanji_filter;
use template_filters::type_filter;

#[test]
fn test_furigana() {
    let text = "test first[second] third[fourth]";
    assert_eq!(kana_filter(text).as_str(), "testsecondfourth");
    assert_eq!(kanji_filter(text).as_str(), "testfirstthird");
    assert_eq!(
        furigana_filter("first[second]").as_str(),
        "<ruby><rb>first</rb><rt>second</rt></ruby>"
    );
}

#[test]
fn test_hint() {
    assert_eq!(
        hint_filter("foo", "field"),
        r##"
<a class=hint href="#"
onclick="this.style.display='none';
document.getElementById('hint83fe48607f0f3a66').style.display='block';
return false;">
foo</a>
<div id="hint83fe48607f0f3a66" class=hint style="display: none">Show field</div>
"##
    );
}

#[test]
fn test_type() {
    assert_eq!(type_filter("ignored", "", "Front"), "[[type:Front]]");
    assert_eq!(type_filter("ignored", "cloze", "Front"), "[[type:cloze:Front]]");
    let filters = vec!["type".to_string(), "cloze".to_string()];
    let (out, rem) = apply_filters("ignored", &filters, "Text");
    assert_eq!(out, "[[type:cloze:Text]]");
    assert_eq!(rem, Vec::<String>::new());
}

#[test]
fn test_cloze() {
    let text = "{{C1::one}} {{C2::two::hint}}";
    assert_eq!(cloze_filter(text, "1", true), "[...] two");
    assert_eq!(cloze_filter(text, "2", true), "one [hint]");
    assert_eq!(cloze_filter(text, "1", false), "one two");
    assert_eq!(
        cloze_filter(&text.replace('C', "c"), "1", false),
        "<span class=cloze>one</span> two"
    );
    assert_eq!(
        cloze_filter(&text.replace('C', "c"), "1", true),
        "<span class=cloze>[...]</span> two"
    );
}
