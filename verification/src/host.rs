//! What the library learns from the machine it runs on: whether a path exists, the
//! current time, and the text of a command's output.
use vstd::prelude::*;

verus! {

/// Whether a file or directory exists at `path`, as `std::path::Path::exists` reports
/// it. The answer depends on the file system at the time of the call, so nothing is
/// stated of it; callers state what holds for either answer.
#[verifier::external_body]
pub fn path_exists(path: &str) -> bool {
    std::path::Path::new(path).exists()
}

/// Whole seconds since the Unix epoch by the system clock (`SystemTime::now` and
/// `duration_since`), or `None` when the clock reads earlier than the epoch. The value
/// depends on the time of the call, so nothing is stated of it.
#[verifier::external_body]
pub fn now_unix_secs() -> Option<u64> {
    match std::time::SystemTime::now().duration_since(std::time::UNIX_EPOCH) {
        Ok(duration) => Some(duration.as_secs()),
        Err(_) => None,
    }
}

/// The time a new snapshot's name carries: seconds since the Unix epoch, or 0 when the
/// clock reads earlier than the epoch.
pub fn snapshot_time() -> u64 {
    match now_unix_secs() {
        Some(t) => t,
        None => 0,
    }
}

/// The text that `String::from_utf8_lossy` makes of `bytes`.
pub uninterp spec fn utf8_lossy(bytes: Seq<u8>) -> Seq<char>;

/// `String::from_utf8_lossy`: valid UTF-8 is decoded as is; each invalid sequence
/// becomes U+FFFD. The contract names the result and states the valid case, which the
/// documentation gives; the replacement rule is left to the name.
#[verifier::external_body]
pub fn decode_utf8_lossy(bytes: &[u8]) -> (r: String)
    ensures
        r@ == utf8_lossy(bytes@),
        vstd::utf8::valid_utf8(bytes@) ==> r@ == vstd::utf8::decode_utf8(bytes@),
{
    String::from_utf8_lossy(bytes).into_owned()
}

} // verus!
