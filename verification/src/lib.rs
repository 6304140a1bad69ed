//! Template text-filter pipeline.
//!
//! Given a field's raw content, an ordered list of named filters, and the
//! field's name, the pipeline produces the transformed display text together
//! with the suffix of filter names it could not resolve, which the caller
//! handles itself.  The built-in filters are cloze revelation, the
//! furigana/ruby family, hint-toggle markup, type-answer placeholders, and
//! HTML stripping.

use vstd::prelude::*;

pub mod chars;
pub mod cloze;
pub mod hint;
pub mod html;
pub mod pipeline;
pub mod ruby;
pub mod typing;

pub use cloze::cloze_filter;
pub use cloze::reveal_cloze_text;
pub use hint::hint_filter;
pub use html::strip_html;
pub use pipeline::apply_filter;
pub use pipeline::apply_filters;
pub use pipeline::FilterOutcome;
pub use ruby::furigana_filter;
pub use ruby::kana_filter;
pub use ruby::kanji_filter;
pub use typing::type_filter;

verus! {

} // verus!
