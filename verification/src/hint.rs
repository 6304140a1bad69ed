//! The `hint` filter: wraps a field in a click-to-reveal toggle.
//!
//! Whitespace-only text is returned unchanged.  Otherwise the filter derives
//! a content-addressed identifier — the first eight bytes of the BLAKE3
//! digest of the text's bytes followed by the field name's bytes, in
//! lowercase hex — and emits a toggle link plus an initially hidden
//! container keyed by that identifier.  The markup is self-contained and
//! reveals only (re-activating is a no-op), and its literal structure is
//! part of the interchange format with the rendering layer.

use vstd::prelude::*;

verus! {

use vstd::string::StrSliceExecFns;
use vstd::string::StringExecFns;
use vstd::utf8::encode_utf8;
use crate::chars::chars_of;

/// The BLAKE3 digest of a byte string; see [`blake3_digest`].
pub uninterp spec fn blake3_of(input: Seq<u8>) -> Seq<u8>;

/// Relies on `blake3::hash`: the digest is a pure function of the input
/// bytes alone, stable across runs and platforms, and 32 bytes long.
#[verifier::external_body]
fn blake3_digest(input: &Vec<u8>) -> (r: Vec<u8>)
    ensures
        r@ == blake3_of(input@),
        r@.len() == 32,
{
    blake3::hash(input.as_slice()).as_bytes().to_vec()
}

/// The lowercase hex digit for a value below sixteen.
pub open spec fn hex_digit(n: int) -> char {
    "0123456789abcdef"@[n]
}

/// The lowercase hex encoding of a byte string: two digits per byte, high
/// nibble first.
pub open spec fn hex_of(bytes: Seq<u8>) -> Seq<char>
    decreases bytes.len(),
{
    if bytes.len() == 0 {
        Seq::empty()
    } else {
        hex_of(bytes.drop_last()) + seq![
            hex_digit(bytes.last() as int / 16),
            hex_digit(bytes.last() as int % 16),
        ]
    }
}

/// Relies on `hex::encode`: lowercase hexadecimal, two digits per byte,
/// high nibble first.
#[verifier::external_body]
fn to_hex(b: &Vec<u8>) -> (r: String)
    ensures
        r@ == hex_of(b@),
{
    hex::encode(b.as_slice())
}

/// Whether `c` is Unicode whitespace (the `White_Space` characters, which is
/// what `str::trim` removes).
pub open spec fn is_ws(c: char) -> bool {
    let u = c as u32;
    ||| (9 <= u && u <= 13)
    ||| u == 32
    ||| u == 0x85
    ||| u == 0xa0
    ||| u == 0x1680
    ||| (0x2000 <= u && u <= 0x200a)
    ||| u == 0x2028
    ||| u == 0x2029
    ||| u == 0x202f
    ||| u == 0x205f
    ||| u == 0x3000
}

fn is_ws_exec(c: char) -> (r: bool)
    ensures
        r == is_ws(c),
{
    let u: u32 = c as u32;
    (9 <= u && u <= 13) || u == 32 || u == 0x85 || u == 0xa0 || u == 0x1680 || (0x2000 <= u && u
        <= 0x200a) || u == 0x2028 || u == 0x2029 || u == 0x202f || u == 0x205f || u == 0x3000
}

/// The first index at or after `i` that does not hold whitespace.
pub open spec fn ws_end(s: Seq<char>, i: int) -> int
    decreases s.len() - i,
{
    if !(0 <= i < s.len()) {
        i
    } else if !is_ws(s[i]) {
        i
    } else {
        ws_end(s, i + 1)
    }
}

/// Whether the text is empty or all whitespace (so that trimming leaves
/// nothing).
pub open spec fn all_ws(s: Seq<char>) -> bool {
    ws_end(s, 0) == s.len()
}

pub(crate) fn all_ws_exec(v: &Vec<char>) -> (r: bool)
    ensures
        r == all_ws(v@),
{
    let n = v.len();
    let mut j: usize = 0;
    while j < n
        invariant
            j <= n,
            n == v@.len(),
            ws_end(v@, 0) == ws_end(v@, j as int),
        decreases n - j,
    {
        if !is_ws_exec(v[j]) {
            return false;
        }
        proof {
            assert(ws_end(v@, j as int) == ws_end(v@, j + 1));
        }
        j += 1;
    }
    true
}

/// The hint identifier for a (text, field name) pair: the first eight bytes
/// of the BLAKE3 digest of the text's bytes followed by the field name's
/// bytes, in lowercase hex.
pub open spec fn hint_id(text: Seq<char>, field: Seq<char>) -> Seq<char> {
    hex_of(blake3_of(encode_utf8(text) + encode_utf8(field)).take(8))
}

/// The hint filter's markup; see the module documentation.
pub open spec fn spec_hint_filter(text: Seq<char>, field: Seq<char>) -> Seq<char> {
    if all_ws(text) {
        text
    } else {
        let id = hint_id(text, field);
        "\n<a class=hint href=\"#\"\nonclick=\"this.style.display='none';\ndocument.getElementById('hint"@
            + id + "').style.display='block';\nreturn false;\">\n"@ + text + "</a>\n<div id=\"hint"@
            + id + "\" class=hint style=\"display: none\">Show "@ + field + "</div>\n"@
    }
}

/// The `hint` filter: returns whitespace-only text unchanged, and otherwise
/// the click-to-reveal markup keyed by the content-addressed identifier.
pub fn hint_filter(text: &str, field_name: &str) -> (r: String)
    ensures
        r@ == spec_hint_filter(text@, field_name@),
{
    let v = chars_of(text);
    if all_ws_exec(&v) {
        return String::from_str(text);
    }
    let mut bytes = text.as_bytes_vec();
    let mut fb = field_name.as_bytes_vec();
    bytes.append(&mut fb);
    let mut first8 = blake3_digest(&bytes);
    first8.truncate(8);
    let id = to_hex(&first8);
    let mut out = String::new();
    out.append(
        "\n<a class=hint href=\"#\"\nonclick=\"this.style.display='none';\ndocument.getElementById('hint",
    );
    out.append(id.as_str());
    out.append("').style.display='block';\nreturn false;\">\n");
    out.append(text);
    out.append("</a>\n<div id=\"hint");
    out.append(id.as_str());
    out.append("\" class=hint style=\"display: none\">Show ");
    out.append(field_name);
    out.append("</div>\n");
    proof {
        assert(out@ =~= spec_hint_filter(text@, field_name@));
    }
    out
}

/// Law: hint markup is deterministic — a pure function of the text and the
/// field name alone, so two calls on identical arguments yield byte-identical
/// markup.
pub proof fn lemma_hint_deterministic(
    text: Seq<char>,
    field: Seq<char>,
    r1: Seq<char>,
    r2: Seq<char>,
)
    requires
        r1 == spec_hint_filter(text, field),
        r2 == spec_hint_filter(text, field),
    ensures
        r1 == r2,
{
}

} // verus!
