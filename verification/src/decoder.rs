//! Response decoding.
//!
//! The hub's template endpoint renders lists with single-quoted string
//! literals (`['a', 'b']`), while strict JSON requires double quotes.
//! The decoder normalizes the quoting and then decodes the text as a
//! JSON list of strings.
//!
//! The normalization replaces every single quote by a double quote,
//! naively: no escaping is supported, so a value containing an
//! apostrophe (or a stray double quote) breaks decoding. This mirrors
//! the hub's own rendering and is a documented limitation, kept in one
//! place on purpose.

use vstd::prelude::*;
use vstd::string::StrSliceExecFns;

use crate::errors::HaclError;

verus! {

/// Quote normalization: every single quote becomes a double quote,
/// every other character is kept.
pub open spec fn swap_quotes(s: Seq<char>) -> Seq<char> {
    s.map_values(|c: char| if c == '\'' { '"' } else { c })
}

/// What strict JSON decoding of a text into a list of strings yields:
/// `Some` with the decoded strings in order, `None` when the text is
/// not a JSON list of strings. The decoding is a function of the text
/// alone; its full definition (the JSON grammar) is not restated here.
pub uninterp spec fn json_string_list(s: Seq<char>) -> Option<Seq<Seq<char>>>;

/// The decoder's overall result on a raw hub response: strict JSON
/// decoding of the quote-normalized text.
pub open spec fn decoded_string_list(raw: Seq<char>) -> Option<Seq<Seq<char>>> {
    json_string_list(swap_quotes(raw))
}

/// Relies on `serde_json::from_str::<Vec<String>>`: strict JSON decoding
/// of the given text into a list of strings, a function of the text alone.
#[verifier::external_body]
fn parse_json_string_list(chars: &Vec<char>) -> (r: Option<Vec<String>>)
    ensures
        r is Some <==> json_string_list(chars@) is Some,
        r matches Some(v) ==> Some(v.deep_view()) == json_string_list(chars@),
{
    let text: String = chars.iter().collect();
    serde_json::from_str::<Vec<String>>(&text).ok()
}

/// Replaces every single quote with a double quote, keeping everything
/// else; yields the characters of the normalized text.
fn normalize_quotes(raw: &str) -> (r: Vec<char>)
    ensures
        r@ == swap_quotes(raw@),
{
    let n = raw.unicode_len();
    let mut out: Vec<char> = Vec::new();
    let mut i: usize = 0;
    while i < n
        invariant
            i <= n,
            n == raw@.len(),
            out@ == swap_quotes(raw@.take(i as int)),
        decreases n - i,
    {
        let c = raw.get_char(i);
        if c == '\'' {
            out.push('"');
        } else {
            out.push(c);
        }
        i = i + 1;
        proof {
            assert(swap_quotes(raw@.take(i as int)) =~= swap_quotes(
                raw@.take(i - 1),
            ).push(if raw@[i - 1] == '\'' {
                '"'
            } else {
                raw@[i - 1]
            }));
        }
    }
    proof {
        assert(raw@.take(n as int) =~= raw@);
    }
    out
}

/// Decodes a raw hub response as a list of strings: normalizes the
/// quoting, then decodes strict JSON. Fails closed with a
/// `DecodeError` carrying the original raw text whenever the
/// normalized text is not a JSON list of strings.
pub fn decode_string_list(raw: &str) -> (r: Result<Vec<String>, HaclError>)
    ensures
        decoded_string_list(raw@) matches Some(items) ==> (r matches Ok(v) && v.deep_view()
            == items),
        decoded_string_list(raw@) is None ==> (r matches Err(e) && e matches
            HaclError::DecodeError(p) && p@ == raw@),
{
    let normalized = normalize_quotes(raw);
    match parse_json_string_list(&normalized) {
        Some(items) => Ok(items),
        None => Err(HaclError::DecodeError(raw.to_owned())),
    }
}

/// Quote normalization is the identity on text without single quotes,
/// so decoding such text is exactly strict JSON decoding of it.
pub proof fn lemma_decode_without_single_quotes(raw: Seq<char>)
    requires
        forall|i: int| 0 <= i < raw.len() ==> raw[i] != '\'',
    ensures
        decoded_string_list(raw) == json_string_list(raw),
{
    assert(swap_quotes(raw) =~= raw);
}

} // verus!
