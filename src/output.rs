use vstd::prelude::*;
use vstd::utf8::{decode_utf8, valid_utf8};

verus! {

/// The text that lossy UTF-8 decoding gives for `bytes`: invalid sequences
/// become replacement characters.
pub uninterp spec fn utf8_lossy(bytes: Seq<u8>) -> Seq<char>;

/// Relies on `String::from_utf8_lossy`: the text depends on the bytes alone,
/// and bytes that are valid UTF-8 are decoded as they stand.
#[verifier::external_body]
fn decode_lossy(bytes: &[u8]) -> (r: String)
    ensures
        r@ == utf8_lossy(bytes@),
        valid_utf8(bytes@) ==> r@ == decode_utf8(bytes@),
{
    String::from_utf8_lossy(bytes).into_owned()
}

/// The text shown for a finished process: its standard output followed by
/// its standard error.
pub fn merge_output(stdout: &str, stderr: &str) -> (r: String)
    ensures
        r@ == stdout@ + stderr@,
{
    let mut text = String::from_str(stdout);
    text.append(stderr);
    text
}

/// Decodes the captured standard output and standard error of a finished
/// process, replacing invalid UTF-8, and joins them in that order.
pub fn collect_output(stdout: &[u8], stderr: &[u8]) -> (r: String)
    ensures
        r@ == utf8_lossy(stdout@) + utf8_lossy(stderr@),
        valid_utf8(stdout@) && valid_utf8(stderr@) ==> r@ == decode_utf8(stdout@) + decode_utf8(
            stderr@,
        ),
{
    let out = decode_lossy(stdout);
    let err = decode_lossy(stderr);
    merge_output(out.as_str(), err.as_str())
}

} // verus!
