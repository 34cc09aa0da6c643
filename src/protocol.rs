use vstd::prelude::*;
use vstd::string::*;

use crate::error::RfidError;

verus! {

/// The text that `String::from_utf8_lossy` decodes from a byte sequence.
pub uninterp spec fn lossy_text_of(bytes: Seq<u8>) -> Seq<char>;

/// The text that `str::trim` leaves of a text.
pub uninterp spec fn trimmed_of(text: Seq<char>) -> Seq<char>;

/// Relies on `String::from_utf8_lossy`: the decoded text depends on the bytes
/// alone, no bytes decode to the empty text, and ASCII bytes (valid UTF-8)
/// decode to one character each.
#[verifier::external_body]
fn decode_lossy(bytes: &[u8]) -> (r: String)
    ensures
        r@ == lossy_text_of(bytes@),
        bytes@.len() == 0 ==> r@.len() == 0,
        (forall|i: int| 0 <= i < bytes@.len() ==> #[trigger] bytes@[i] < 128) ==> {
            &&& r@.len() == bytes@.len()
            &&& forall|i: int| 0 <= i < bytes@.len() ==> #[trigger] r@[i] as u32 == bytes@[i] as u32
        },
{
    String::from_utf8_lossy(bytes).into_owned()
}

/// Whether a code point is one of the ASCII blanks: tab, line feed, vertical
/// tab, form feed, carriage return and space (all Unicode White_Space).
pub open spec fn is_ascii_blank(code: u32) -> bool {
    code == 32 || (9 <= code && code <= 13)
}

/// Relies on `str::trim`, which removes leading and trailing Unicode
/// White_Space: the trimmed text depends on the text alone, and a text made
/// only of ASCII blanks (the empty text too) trims to the empty text.
#[verifier::external_body]
fn trim_text(text: &str) -> (r: String)
    ensures
        r@ == trimmed_of(text@),
        (forall|i: int| 0 <= i < text@.len() ==> is_ascii_blank(#[trigger] text@[i] as u32)) ==> r@.len() == 0,
{
    text.trim().to_string()
}

/// Whether a trimmed response names a card: it is neither empty nor the
/// reader's "no card" sentinel (compared exactly, case included).
pub open spec fn names_card(text: Seq<char>, sentinel: Seq<char>) -> bool {
    text.len() > 0 && text != sentinel
}

/// The first `max` bytes of a response (all of it when it is shorter).
pub open spec fn clipped(bytes: Seq<u8>, max: nat) -> Seq<u8> {
    if bytes.len() <= max {
        bytes
    } else {
        bytes.take(max as int)
    }
}

/// The request/response exchange spoken with a reader: the frame that asks
/// for a scan, the largest response read, and the reply meaning "no card".
pub struct ScanProtocol {
    pub scan_request: Vec<u8>,
    pub response_limit: usize,
    pub no_card_sentinel: String,
}

impl ScanProtocol {
    /// The exchange of the common serial readers: `SCAN\r\n` out, at most 32
    /// bytes back, `NO_CARD` when the field is empty.
    pub fn standard() -> (r: ScanProtocol)
        ensures
            r.scan_request@ == seq![83u8, 67u8, 65u8, 78u8, 13u8, 10u8],
            r.response_limit == 32,
            r.no_card_sentinel@ == "NO_CARD"@,
    {
        ScanProtocol {
            scan_request: vec![83u8, 67u8, 65u8, 78u8, 13u8, 10u8],
            response_limit: 32,
            no_card_sentinel: String::from_str("NO_CARD"),
        }
    }

    /// The trimmed text of a raw response, as far as it is read.
    pub open spec fn response_text(&self, bytes: Seq<u8>) -> Seq<char> {
        trimmed_of(lossy_text_of(clipped(bytes, self.response_limit as nat)))
    }

    /// Whether `r` is what a raw response `bytes` means: the card named by its
    /// trimmed text, or `NoCardDetected`; nothing read, or only blanks, is
    /// never a card.
    pub open spec fn parsed(&self, bytes: Seq<u8>, r: Result<String, RfidError>) -> bool {
        &&& r is Ok <==> names_card(self.response_text(bytes), self.no_card_sentinel@)
        &&& r is Ok ==> r->Ok_0@ == self.response_text(bytes)
        &&& r is Err ==> r->Err_0 == RfidError::NoCardDetected
        &&& bytes.len() == 0 || self.response_limit == 0 ==> r == Err::<String, RfidError>(RfidError::NoCardDetected)
        &&& (forall|i: int| 0 <= i < bytes.len() ==> is_ascii_blank(#[trigger] bytes[i] as u32)) ==> r
            == Err::<String, RfidError>(RfidError::NoCardDetected)
    }

    /// Classifies an already trimmed response: a card identifier, or
    /// `NoCardDetected` when it is empty or the sentinel.
    pub fn classify_trimmed(&self, text: String) -> (r: Result<String, RfidError>)
        ensures
            r is Ok <==> names_card(text@, self.no_card_sentinel@),
            r is Ok ==> r->Ok_0@ == text@,
            r is Err ==> r->Err_0 == RfidError::NoCardDetected,
    {
        if text.as_str().is_empty() || text == self.no_card_sentinel {
            Err(RfidError::NoCardDetected)
        } else {
            Ok(text)
        }
    }

    /// Parses a raw response: only its first `response_limit` bytes count;
    /// they are decoded (invalid UTF-8 replaced), trimmed, and classified.
    pub fn parse_response(&self, bytes: &[u8]) -> (r: Result<String, RfidError>)
        ensures
            self.parsed(bytes@, r),
    {
        let limit = self.response_limit;
        let mut kept: Vec<u8> = Vec::new();
        let mut i: usize = 0;
        while i < bytes.len() && i < limit
            invariant
                i <= bytes@.len(),
                i <= limit,
                kept@ == bytes@.take(i as int),
            decreases bytes@.len() - i,
        {
            kept.push(bytes[i]);
            i = i + 1;
            assert(kept@ =~= bytes@.take(i as int));
        }
        assert(kept@ =~= clipped(bytes@, limit as nat));
        let text = decode_lossy(kept.as_slice());
        proof {
            if forall|i: int| 0 <= i < bytes@.len() ==> is_ascii_blank(#[trigger] bytes@[i] as u32) {
                assert forall|i: int| 0 <= i < kept@.len() implies #[trigger] kept@[i] < 128 by {
                    assert(kept@[i] == bytes@[i]);
                }
                assert forall|i: int| 0 <= i < text@.len() implies is_ascii_blank(#[trigger] text@[i] as u32) by {
                    assert(kept@[i] == bytes@[i]);
                    assert(text@[i] as u32 == kept@[i] as u32);
                }
            }
        }
        let trimmed = trim_text(text.as_str());
        self.classify_trimmed(trimmed)
    }
}

} // verus!
