//! The `type` filter: emits a typing-answer placeholder for the downstream
//! renderer, `[[type:FIELDNAME]]` or `[[type:ARGS:FIELDNAME]]`.

use vstd::prelude::*;

verus! {

use vstd::string::StrSliceExecFns;
use vstd::string::StringExecFns;

/// The placeholder the `type` filter emits.
pub open spec fn spec_type_filter(args: Seq<char>, field: Seq<char>) -> Seq<char> {
    if args.len() == 0 {
        "[[type:"@ + field + "]]"@
    } else {
        "[[type:"@ + args + ":"@ + field + "]]"@
    }
}

/// The `type` filter.  The field text is ignored: the placeholder names the
/// field (and the compound-filter arguments, when present) and is resolved
/// by the downstream renderer.
pub fn type_filter(_text: &str, filter_args: &str, field_name: &str) -> (r: String)
    ensures
        r@ == spec_type_filter(filter_args@, field_name@),
{
    let mut out = String::new();
    out.append("[[type:");
    if filter_args.unicode_len() > 0 {
        out.append(filter_args);
        out.append(":");
        out.append(field_name);
        out.append("]]");
        proof {
            assert(out@ =~= spec_type_filter(filter_args@, field_name@));
        }
        out
    } else {
        out.append(field_name);
        out.append("]]");
        proof {
            assert(out@ =~= spec_type_filter(filter_args@, field_name@));
        }
        out
    }
}

} // verus!
