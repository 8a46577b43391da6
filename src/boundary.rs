use vstd::prelude::*;
use vstd::utf8::{valid_utf8, decode_utf8};
use crate::text::{occurrences, count_occurrences};

verus! {

/// Why a boundary call could not produce its result.
#[derive(Debug, Clone, Copy, PartialEq, Eq, Structural)]
pub enum BoundaryError {
    /// The request is longer than the host's length parameter can express.
    RequestTooLong,
    /// The host reported a negative result length.
    NegativeLength,
    /// The received bytes are not well-formed UTF-8.
    InvalidUtf8,
}

/// The address fetched by the occurrence-counting entry point.
pub const GOOGLE_URL: &'static str = "https://www.google.com";

/// The text returned in place of a response that is not well-formed UTF-8.
pub const PARSE_FAILURE: &'static str = "Failed to parse response";

/// How many received bytes may be read: no more than the host claimed, nor
/// than it confirmed writing, nor than the buffer holds.
pub open spec fn readable(buffer_len: nat, claimed: nat, confirmed: nat) -> nat {
    let n = if claimed <= confirmed { claimed } else { confirmed };
    if n <= buffer_len { n } else { buffer_len }
}

/// The bytes of a response that the guest may interpret.
pub open spec fn received(buffer: Seq<u8>, claimed: nat, confirmed: nat) -> Seq<u8> {
    buffer.take(readable(buffer.len(), claimed, confirmed) as int)
}

/// The occurrence count as an `i32`, saturating at `i32::MAX`.
pub open spec fn capped_count(n: nat) -> i32 {
    if n <= i32::MAX { n as i32 } else { i32::MAX }
}

/// Relies on `String::from_utf8`: it succeeds exactly on well-formed UTF-8,
/// and the string then holds the characters that the bytes encode.
#[verifier::external_body]
fn string_from_utf8(bytes: Vec<u8>) -> (r: Option<String>)
    ensures
        r is Some <==> valid_utf8(bytes@),
        r is Some ==> r->0@ == decode_utf8(bytes@),
{
    String::from_utf8(bytes).ok()
}

/// The length to pass to the host together with `request`.
pub fn request_length(request: &Vec<u8>) -> (r: Result<i32, BoundaryError>)
    ensures
        request@.len() <= i32::MAX ==> r == Ok::<i32, BoundaryError>(request@.len() as i32),
        request@.len() > i32::MAX ==> r == Err::<i32, BoundaryError>(BoundaryError::RequestTooLong),
{
    if request.len() <= i32::MAX as usize {
        Ok(request.len() as i32)
    } else {
        Err(BoundaryError::RequestTooLong)
    }
}

/// The capacity of the receive buffer for a result length reported by the
/// host. Zero is a valid, empty result.
pub fn receive_capacity(result_length: i32) -> (r: Result<usize, BoundaryError>)
    ensures
        result_length >= 0 ==> r == Ok::<usize, BoundaryError>(result_length as usize),
        result_length < 0 ==> r == Err::<usize, BoundaryError>(BoundaryError::NegativeLength),
{
    if result_length >= 0 {
        Ok(result_length as usize)
    } else {
        Err(BoundaryError::NegativeLength)
    }
}

/// How many bytes of the receive buffer may be read.
pub fn readable_length(buffer_len: usize, claimed: usize, confirmed: usize) -> (r: usize)
    ensures
        r == readable(buffer_len as nat, claimed as nat, confirmed as nat),
{
    let n = if claimed <= confirmed { claimed } else { confirmed };
    if n <= buffer_len { n } else { buffer_len }
}

/// The bytes of `buffer` that the host both claimed and confirmed writing;
/// nothing beyond them is read.
pub fn finalize_bytes(buffer: &Vec<u8>, claimed: usize, confirmed: usize) -> (r: Vec<u8>)
    ensures
        r@ == received(buffer@, claimed as nat, confirmed as nat),
{
    let n = readable_length(buffer.len(), claimed, confirmed);
    let mut out: Vec<u8> = Vec::new();
    let mut i: usize = 0;
    while i < n
        invariant
            n <= buffer@.len(),
            i <= n,
            out@ == buffer@.take(i as int),
        decreases n - i,
    {
        out.push(buffer[i]);
        i = i + 1;
        assert(out@ =~= buffer@.take(i as int));
    }
    out
}

/// Interprets received bytes as UTF-8 text.
pub fn decode_text(bytes: Vec<u8>) -> (r: Result<String, BoundaryError>)
    ensures
        r is Ok <==> valid_utf8(bytes@),
        r is Ok ==> r->Ok_0@ == decode_utf8(bytes@),
        r is Err ==> r == Err::<String, BoundaryError>(BoundaryError::InvalidUtf8),
{
    match string_from_utf8(bytes) {
        Some(s) => Ok(s),
        None => Err(BoundaryError::InvalidUtf8),
    }
}

/// The text of a response: the readable bytes of `buffer`, decoded.
pub fn finalize_text(buffer: &Vec<u8>, claimed: usize, confirmed: usize) -> (r: Result<
    String,
    BoundaryError,
>)
    ensures
        r is Ok <==> valid_utf8(received(buffer@, claimed as nat, confirmed as nat)),
        r is Ok ==> r->Ok_0@ == decode_utf8(received(buffer@, claimed as nat, confirmed as nat)),
        r is Err ==> r == Err::<String, BoundaryError>(BoundaryError::InvalidUtf8),
{
    decode_text(finalize_bytes(buffer, claimed, confirmed))
}

/// The text of a response, or `"Failed to parse response"` where the
/// readable bytes are not well-formed UTF-8.
pub fn response_text(buffer: &Vec<u8>, claimed: usize, confirmed: usize) -> (r: String)
    ensures
        valid_utf8(received(buffer@, claimed as nat, confirmed as nat)) ==> r@ == decode_utf8(
            received(buffer@, claimed as nat, confirmed as nat),
        ),
        !valid_utf8(received(buffer@, claimed as nat, confirmed as nat)) ==> r@
            == PARSE_FAILURE@,
{
    match finalize_text(buffer, claimed, confirmed) {
        Ok(s) => s,
        Err(_) => String::from_str(PARSE_FAILURE),
    }
}

/// The number of case-sensitive, non-overlapping occurrences of `"google"`
/// in `text`, saturating at `i32::MAX`.
pub fn count_google(text: &str) -> (r: i32)
    ensures
        r == capped_count(occurrences(text@, "google"@)),
{
    let n = count_occurrences(text, "google");
    if n <= i32::MAX as usize {
        n as i32
    } else {
        i32::MAX
    }
}

/// The occurrences of `"google"` in a fetched page; a page that is not
/// well-formed UTF-8 counts none.
pub fn google_count(buffer: &Vec<u8>, claimed: usize, confirmed: usize) -> (r: i32)
    ensures
        valid_utf8(received(buffer@, claimed as nat, confirmed as nat)) ==> r == capped_count(
            occurrences(decode_utf8(received(buffer@, claimed as nat, confirmed as nat)), "google"@),
        ),
        !valid_utf8(received(buffer@, claimed as nat, confirmed as nat)) ==> r == 0,
{
    match finalize_text(buffer, claimed, confirmed) {
        Ok(s) => count_google(s.as_str()),
        Err(_) => 0,
    }
}

/// A host that reports an empty result yields empty bytes, which decode to
/// empty text rather than to an error.
pub proof fn lemma_empty_result(buffer: Seq<u8>, confirmed: nat)
    ensures
        received(buffer, 0, confirmed) == Seq::<u8>::empty(),
        valid_utf8(received(buffer, 0, confirmed)),
        decode_utf8(received(buffer, 0, confirmed)) == Seq::<char>::empty(),
{
    assert(received(buffer, 0, confirmed) =~= Seq::<u8>::empty());
}

/// Nothing past the bytes that the host confirmed writing is ever read, however
/// many it claimed.
pub proof fn lemma_reads_only_confirmed(buffer: Seq<u8>, claimed: nat, confirmed: nat)
    ensures
        received(buffer, claimed, confirmed).len() <= confirmed,
        received(buffer, claimed, confirmed).len() <= claimed,
        received(buffer, claimed, confirmed) == buffer.take(
            received(buffer, claimed, confirmed).len() as int,
        ),
{
}

} // verus!
