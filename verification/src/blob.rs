//! The snapshot store: at most one binary blob per tab identity, kept on
//! disk by the caller under a name that this module fixes.
//!
//! The module decides what is to be written and deleted; the caller does it.
//! The model of the store is a map from tab identity to bytes.

use crate::model::Text;
use crate::storage::Storage;
use vstd::prelude::*;
use vstd::string::StringExecFns;

verus! {

/// The blobs of the snapshot store, by tab identity.
pub type Blobs = Map<i64, Seq<u8>>;

/// A piece of work for the snapshot store.
#[derive(Debug, PartialEq, Eq)]
pub enum BlobOp {
    /// Replace the blob of `id` by `bytes`.
    Write { id: i64, bytes: Vec<u8> },
    /// Delete the blob of `id`, if there is one.
    Delete { id: i64 },
    /// Delete every blob.
    DeleteAll,
}

/// Model of a piece of work for the snapshot store.
pub enum BlobOpView {
    Write { id: i64, bytes: Seq<u8> },
    Delete { id: i64 },
    DeleteAll,
}

impl View for BlobOp {
    type V = BlobOpView;

    open spec fn view(&self) -> BlobOpView {
        match self {
            BlobOp::Write { id, bytes } => BlobOpView::Write { id: *id, bytes: bytes@ },
            BlobOp::Delete { id } => BlobOpView::Delete { id: *id },
            BlobOp::DeleteAll => BlobOpView::DeleteAll,
        }
    }
}

/// The snapshot store after one piece of work.
pub open spec fn blobs_after(blobs: Blobs, op: BlobOpView) -> Blobs {
    match op {
        BlobOpView::Write { id, bytes } => blobs.insert(id, bytes),
        BlobOpView::Delete { id } => blobs.remove(id),
        BlobOpView::DeleteAll => Map::empty(),
    }
}

/// The snapshot store after a piece of work that may be absent.
pub open spec fn blobs_after_maybe(blobs: Blobs, op: Option<BlobOpView>) -> Blobs {
    match op {
        Some(op) => blobs_after(blobs, op),
        None => blobs,
    }
}

/// The snapshot store after the blobs of `ids` have been deleted.
pub open spec fn blobs_without(blobs: Blobs, ids: Set<i64>) -> Blobs {
    blobs.remove_keys(ids)
}

/// The bytes that the standard base64 alphabet, with padding, decodes `text`
/// to; `None` where `text` is not such an encoding.
pub uninterp spec fn base64_decoded(text: Seq<char>) -> Option<Seq<u8>>;

/// `DecodeError` of the base64 crate: why a text is no encoding. It is
/// carried through unopened.
#[verifier::external_type_specification]
#[verifier::external_body]
pub struct ExDecodeError(base64::DecodeError);

/// `Engine::decode` of the base64 crate, on its `STANDARD` engine. The
/// contract names what it decodes `text` to, and says that it fails exactly
/// where there is no such decoding.
#[verifier::external_body]
fn decode_standard(text: &str) -> (r: Result<Vec<u8>, base64::DecodeError>)
    ensures
        match r {
            Ok(bytes) => base64_decoded(text@) == Some(bytes@),
            Err(_) => base64_decoded(text@) is None,
        },
{
    base64::Engine::decode(&base64::engine::general_purpose::STANDARD, text)
}

/// The text that the standard base64 alphabet, with padding, encodes `bytes`
/// to.
pub uninterp spec fn base64_encoded(bytes: Seq<u8>) -> Seq<char>;

/// `Engine::encode` of the base64 crate, on its `STANDARD` engine. The
/// contract names what it encodes `bytes` to. The call fails only where the
/// length of the encoding does not fit the machine, which no slice reaches.
#[verifier::external_body]
fn encode_standard(bytes: &[u8]) -> (r: String)
    ensures
        r@ == base64_encoded(bytes@),
{
    base64::Engine::encode(&base64::engine::general_purpose::STANDARD, bytes)
}

/// What stands before the encoded bytes of a snapshot in the address that
/// shows it to the classifier.
pub open spec fn data_url_head() -> Text {
    "data:image/jpeg;base64,"@
}

/// The address that carries a snapshot within a request to the classifier.
pub fn image_data_url(bytes: &[u8]) -> (r: String)
    ensures
        r@ == data_url_head() + base64_encoded(bytes@),
{
    let mut out = String::from_str("data:image/jpeg;base64,");
    out.append(encode_standard(bytes).as_str());
    out
}

/// Why a snapshot could not be stored.
#[derive(Debug, Clone, Copy, PartialEq, Eq, Structural)]
pub enum SnapshotError {
    /// The payload is not base64.
    Undecodable,
}

impl SnapshotError {
    /// What the caller is told of the error.
    pub open spec fn text(self) -> Text {
        "Screenshot payload is not valid base64"@
    }

    /// What the caller is told of the error.
    pub fn message(&self) -> (r: String)
        ensures
            r@ == self.text(),
    {
        String::from_str("Screenshot payload is not valid base64")
    }
}

/// The write that a decoded payload asks for.
pub open spec fn write_of(tab_id: i64, decoded: Option<Seq<u8>>) -> Option<BlobOpView> {
    match decoded {
        Some(bytes) => Some(BlobOpView::Write { id: tab_id, bytes }),
        None => None,
    }
}

/// The write that a capture with the given screenshot payload asks for: none
/// where there is no payload, or where it does not decode.
pub open spec fn capture_write(tab_id: i64, screenshot: Option<Text>) -> Option<BlobOpView> {
    match screenshot {
        Some(text) => write_of(tab_id, base64_decoded(text)),
        None => None,
    }
}

/// The model of an optional piece of work.
pub open spec fn op_of(op: Option<BlobOp>) -> Option<BlobOpView> {
    match op {
        Some(o) => Some(o@),
        None => None,
    }
}

/// Turns the outcome of decoding into the write it asks for.
pub fn write_from(tab_id: i64, decoded: Result<Vec<u8>, base64::DecodeError>) -> (r: Result<
    BlobOp,
    SnapshotError,
>)
    ensures
        match decoded {
            Ok(bytes) => r matches Ok(op) && op@ == (BlobOpView::Write { id: tab_id, bytes: bytes@ }),
            Err(_) => r == Err::<BlobOp, SnapshotError>(SnapshotError::Undecodable),
        },
{
    match decoded {
        Ok(bytes) => Ok(BlobOp::Write { id: tab_id, bytes }),
        Err(_) => Err(SnapshotError::Undecodable),
    }
}

/// The one digit `d`, as a character.
pub open spec fn digit_char(d: int) -> char {
    if d == 0 {
        '0'
    } else if d == 1 {
        '1'
    } else if d == 2 {
        '2'
    } else if d == 3 {
        '3'
    } else if d == 4 {
        '4'
    } else if d == 5 {
        '5'
    } else if d == 6 {
        '6'
    } else if d == 7 {
        '7'
    } else if d == 8 {
        '8'
    } else {
        '9'
    }
}

/// The decimal digits of `n`, most significant first.
pub open spec fn decimal_digits(n: nat) -> Seq<char>
    decreases n,
{
    if n < 10 {
        seq![digit_char(n as int)]
    } else {
        decimal_digits(n / 10).push(digit_char((n % 10) as int))
    }
}

/// `n` in decimal, with a minus sign where it is negative.
pub open spec fn decimal(n: int) -> Seq<char> {
    if n < 0 {
        seq!['-'] + decimal_digits((-n) as nat)
    } else {
        decimal_digits(n as nat)
    }
}

/// The name ends in this.
pub open spec fn blob_suffix() -> Text {
    ".jpg"@
}

/// The file name of the blob of tab `id`: the identity in decimal, and the
/// suffix. One name per identity, so a new blob overwrites the old one.
pub open spec fn blob_name(id: i64) -> Text {
    decimal(id as int) + blob_suffix()
}

/// The one digit `d`, as text.
fn digit_text(d: u8) -> (r: &'static str)
    requires
        d < 10,
    ensures
        r@ == seq![digit_char(d as int)],
{
    proof {
        reveal_strlit("0");
        reveal_strlit("1");
        reveal_strlit("2");
        reveal_strlit("3");
        reveal_strlit("4");
        reveal_strlit("5");
        reveal_strlit("6");
        reveal_strlit("7");
        reveal_strlit("8");
        reveal_strlit("9");
    }
    let r = if d == 0 {
        "0"
    } else if d == 1 {
        "1"
    } else if d == 2 {
        "2"
    } else if d == 3 {
        "3"
    } else if d == 4 {
        "4"
    } else if d == 5 {
        "5"
    } else if d == 6 {
        "6"
    } else if d == 7 {
        "7"
    } else if d == 8 {
        "8"
    } else {
        "9"
    };
    assert(r@ =~= seq![digit_char(d as int)]);
    r
}

/// Writes `n` in decimal.
pub fn decimal_text(n: i64) -> (r: String)
    ensures
        r@ == decimal(n as int),
{
    let negative = n < 0;
    let magnitude: u64 = if negative {
        (-(n as i128)) as u64
    } else {
        n as u64
    };
    // The digits, least significant first.
    let mut digits: Vec<u8> = Vec::new();
    let mut rest: u64 = magnitude;
    digits.push((rest % 10) as u8);
    rest = rest / 10;
    proof {
        lemma_high_first_push(Seq::<u8>::empty(), (magnitude % 10) as u8);
        assert(digits@ =~= Seq::<u8>::empty().push((magnitude % 10) as u8));
        assert(high_first(digits@) =~= seq![digit_char((magnitude % 10) as int)]);
        if magnitude >= 10 {
            assert(decimal_digits(magnitude as nat) =~= decimal_digits(rest as nat) + high_first(
                digits@,
            ));
        }
    }
    while rest > 0
        invariant
            digits@.len() >= 1,
            forall|j: int| 0 <= j < digits@.len() ==> (#[trigger] digits@[j]) < 10,
            rest > 0 ==> decimal_digits(magnitude as nat) == decimal_digits(rest as nat)
                + high_first(digits@),
            rest == 0 ==> decimal_digits(magnitude as nat) == high_first(digits@),
        decreases rest,
    {
        let ghost earlier = digits@;
        let ghost before = rest;
        digits.push((rest % 10) as u8);
        rest = rest / 10;
        proof {
            lemma_high_first_push(earlier, (before % 10) as u8);
            if before < 10 {
                assert(decimal_digits(before as nat) =~= seq![digit_char((before % 10) as int)]);
                assert(decimal_digits(magnitude as nat) =~= high_first(digits@));
            } else {
                assert(decimal_digits(before as nat) =~= decimal_digits(rest as nat) + seq![
                    digit_char((before % 10) as int),
                ]);
                assert(decimal_digits(magnitude as nat) =~= decimal_digits(rest as nat)
                    + high_first(digits@));
            }
        }
    }
    let mut out = String::from_str("");
    proof {
        reveal_strlit("");
        reveal_strlit("-");
    }
    if negative {
        out.append("-");
    }
    let ghost sign = out@;
    let mut i: usize = digits.len();
    assert(digits@.subrange(0, i as int) =~= digits@);
    while i > 0
        invariant
            i <= digits@.len(),
            forall|j: int| 0 <= j < digits@.len() ==> (#[trigger] digits@[j]) < 10,
            out@ + high_first(digits@.subrange(0, i as int)) == sign + high_first(digits@),
        decreases i,
    {
        i = i - 1;
        proof {
            let upto = digits@.subrange(0, i + 1);
            assert(upto.drop_last() =~= digits@.subrange(0, i as int));
            lemma_high_first_push(digits@.subrange(0, i as int), digits@[i as int]);
            assert(upto =~= digits@.subrange(0, i as int).push(digits@[i as int]));
            assert(out@ + (seq![digit_char(digits@[i as int] as int)] + high_first(
                digits@.subrange(0, i as int),
            )) =~= (out@ + seq![digit_char(digits@[i as int] as int)]) + high_first(
                digits@.subrange(0, i as int),
            ));
        }
        out.append(digit_text(digits[i]));
    }
    proof {
        assert(digits@.subrange(0, 0) =~= Seq::<u8>::empty());
        assert(out@ =~= sign + high_first(digits@));
        assert(sign =~= if negative {
            seq!['-']
        } else {
            Seq::<char>::empty()
        });
        assert(out@ =~= decimal(n as int));
    }
    out
}

/// The digits of a list that holds the least significant first, turned
/// round and written as characters.
pub open spec fn high_first(digits: Seq<u8>) -> Seq<char>
    decreases digits.len(),
{
    if digits.len() == 0 {
        Seq::empty()
    } else {
        seq![digit_char(digits.last() as int)] + high_first(digits.drop_last())
    }
}

/// One more digit at the low end comes out in front.
proof fn lemma_high_first_push(digits: Seq<u8>, d: u8)
    ensures
        high_first(digits.push(d)) == seq![digit_char(d as int)] + high_first(digits),
{
    assert(digits.push(d).drop_last() =~= digits);
}

/// The file name under which the blob of tab `id` is kept.
pub fn blob_file_name(id: i64) -> (r: String)
    ensures
        r@ == blob_name(id),
{
    let mut name = decimal_text(id);
    name.append(".jpg");
    name
}

impl Storage {
    /// Decodes a screenshot payload and asks for the blob of `tab_id` to be
    /// replaced by it. Fails where the payload is not base64; nothing is to
    /// be written then.
    pub fn save_screenshot(&self, tab_id: i64, base64_data: &str) -> (r: Result<
        BlobOp,
        SnapshotError,
    >)
        ensures
            match base64_decoded(base64_data@) {
                Some(bytes) => r matches Ok(op) && op@ == (BlobOpView::Write { id: tab_id, bytes }),
                None => r == Err::<BlobOp, SnapshotError>(SnapshotError::Undecodable),
            },
    {
        write_from(tab_id, decode_standard(base64_data))
    }

    /// Asks for the blob of `tab_id` to be deleted.
    pub fn delete_screenshot(&self, tab_id: i64) -> (r: BlobOp)
        ensures
            r@ == (BlobOpView::Delete { id: tab_id }),
    {
        BlobOp::Delete { id: tab_id }
    }
}

} // verus!
