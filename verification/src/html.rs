//! The `text` filter's HTML stripping.
//!
//! Every markup span from a `<` through the next `>` is removed; a `<` with
//! no later `>` is kept verbatim.  Finer sanitization is left to the
//! surrounding renderer.

use vstd::prelude::*;

verus! {

use crate::chars::chars_of;
use crate::chars::find1;
use crate::chars::find1_exec;
use crate::chars::string_of;

/// The text from index `i` on with every `<`..`>` span removed.
pub open spec fn strip_rest(s: Seq<char>, i: int) -> Seq<char>
    decreases s.len() - i,
{
    if !(0 <= i < s.len()) {
        Seq::empty()
    } else if s[i] == '<' {
        match find1(s, i + 1, '>') {
            Some(j) => if i < j + 1 <= s.len() {
                strip_rest(s, j + 1)
            } else {
                seq![s[i]] + strip_rest(s, i + 1)
            },
            None => seq![s[i]] + strip_rest(s, i + 1),
        }
    } else {
        seq![s[i]] + strip_rest(s, i + 1)
    }
}

/// The text with all markup spans removed.
pub open spec fn spec_strip_html(s: Seq<char>) -> Seq<char> {
    strip_rest(s, 0)
}

/// The `text` filter: strips HTML markup spans from the text.
pub fn strip_html(text: &str) -> (r: String)
    ensures
        r@ == spec_strip_html(text@),
{
    let v = chars_of(text);
    let n = v.len();
    let mut out: Vec<char> = Vec::new();
    let mut i: usize = 0;
    while i < n
        invariant
            i <= n,
            n == v@.len(),
            strip_rest(v@, 0) == out@ + strip_rest(v@, i as int),
        decreases n - i,
    {
        if v[i] == '<' {
            match find1_exec(&v, i + 1, '>') {
                Some(j) => {
                    proof {
                        assert(strip_rest(v@, i as int) == strip_rest(v@, j + 1));
                    }
                    i = j + 1;
                },
                None => {
                    out.push(v[i]);
                    proof {
                        assert(out@ + strip_rest(v@, i + 1) =~= strip_rest(v@, 0));
                    }
                    i += 1;
                },
            }
        } else {
            out.push(v[i]);
            proof {
                assert(out@ + strip_rest(v@, i + 1) =~= strip_rest(v@, 0));
            }
            i += 1;
        }
    }
    proof {
        assert(out@ + strip_rest(v@, n as int) =~= out@);
    }
    string_of(&out)
}

} // verus!
