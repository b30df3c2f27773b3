//! Height anchoring of queries: the chain's latest height versus an exact
//! historical height, and the conversions into the two encodings the
//! transport accepts (a native block height integer, and an ASCII metadata
//! value carrying the height in decimal).
//!
//! Both conversions follow the ledger's convention that the sentinel `0`
//! means "latest".

use vstd::prelude::*;

use crate::error::RequestError;
use crate::text::{ascii_bytes_to_string, dec_chars_of, lemma_dec_bytes_are_digits, u64_dec_bytes,
    u64_to_dec_string};
verus! {

/// A point in the ledger's possibly forked history: a revision number
/// (bumped on chain upgrades) and a block height within that revision.
#[derive(Clone, Copy, Debug, PartialEq, Eq, Structural)]
pub struct ChainHeight {
    pub revision_number: u64,
    pub revision_height: u64,
}

impl ChainHeight {
    pub fn new(revision_number: u64, revision_height: u64) -> (r: ChainHeight)
        ensures
            r.revision_number == revision_number,
            r.revision_height == revision_height,
    {
        ChainHeight { revision_number, revision_height }
    }

    pub fn revision_number(&self) -> (r: u64)
        ensures
            r == self.revision_number,
    {
        self.revision_number
    }

    pub fn revision_height(&self) -> (r: u64)
        ensures
            r == self.revision_height,
    {
        self.revision_height
    }

    /// Renders as `<revision_number>-<revision_height>`, the height's
    /// canonical display form.
    pub fn to_display_string(&self) -> (r: String)
        ensures
            r@ == dec_chars_of(self.revision_number as nat) + seq!['-'] + dec_chars_of(
                self.revision_height as nat,
            ),
    {
        let mut v = u64_dec_bytes(self.revision_number);
        let mut w = u64_dec_bytes(self.revision_height);
        v.push(45);
        v.append(&mut w);
        proof {
            lemma_dec_bytes_are_digits(self.revision_number as nat);
            lemma_dec_bytes_are_digits(self.revision_height as nat);
            assert(v@.map_values(|b: u8| b as char) =~= dec_chars_of(self.revision_number as nat)
                + seq!['-'] + dec_chars_of(self.revision_height as nat));
        }
        ascii_bytes_to_string(v)
    }
}

/// The height a query is anchored at: whatever the chain's latest height is,
/// or one exact historical height. The two are not interchangeable: proofs
/// verify only against the state root of a definite height.
#[derive(Clone, Copy, Debug, PartialEq, Eq, Structural)]
pub enum QueryHeight {
    Latest,
    Specific(ChainHeight),
}

impl QueryHeight {
    /// The non-negative integer the selector stands for on the wire:
    /// `Latest` is the sentinel `0`, `Specific` is its revision height.
    pub open spec fn wire_value(self) -> u64 {
        match self {
            QueryHeight::Latest => 0,
            QueryHeight::Specific(h) => h.revision_height,
        }
    }

    /// The transport height integer: `0` for `Latest`, the revision height
    /// for `Specific`, always.
    pub fn height_value(self) -> (r: u64)
        ensures
            r == self.wire_value(),
            self is Latest ==> r == 0,
            self matches QueryHeight::Specific(h) ==> r == h.revision_height,
    {
        match self {
            QueryHeight::Latest => 0u64,
            QueryHeight::Specific(height) => height.revision_height(),
        }
    }

    /// Human-readable form, for logging only: a literal phrase for `Latest`,
    /// the height's own display form for `Specific`.
    pub fn to_display_string(self) -> (r: String)
        ensures
            self is Latest ==> r@ == "latest height"@,
            self matches QueryHeight::Specific(h) ==> r@ == dec_chars_of(
                h.revision_number as nat,
            ) + seq!['-'] + dec_chars_of(h.revision_height as nat),
    {
        match self {
            QueryHeight::Latest => "latest height".to_owned(),
            QueryHeight::Specific(height) => height.to_display_string(),
        }
    }
}

#[verifier::external_type_specification]
#[verifier::external_body]
pub struct ExTmBlockHeight(tendermint::block::Height);

#[verifier::external_type_specification]
#[verifier::external_body]
pub struct ExTmError(tendermint::error::Error);

/// The block height tendermint parses from `h`: a function of `h` alone.
pub uninterp spec fn tm_height_of(h: u64) -> tendermint::block::Height;

/// Relies on tendermint's `block::Height: TryFrom<u64>`: it succeeds exactly
/// when the value also fits in an `i64`, and its result depends on the value
/// alone.
#[verifier::external_body]
fn tm_height_from_u64(h: u64) -> (r: Result<tendermint::block::Height, tendermint::error::Error>)
    ensures
        r is Ok <==> h <= i64::MAX as u64,
        r matches Ok(t) ==> t == tm_height_of(h),
{
    tendermint::block::Height::try_from(h)
}

/// Carries a `tonic::metadata::AsciiMetadataValue`. The tonic type cannot be
/// declared to the verifier (it is generic over a sealed encoding trait), so
/// this struct holds it opaquely; the field is public for the transport layer
/// to take the value out.
#[verifier::external_body]
pub struct AsciiMetadataValue {
    pub value: tonic::metadata::AsciiMetadataValue,
}

#[verifier::external_type_specification]
#[verifier::external_body]
pub struct ExInvalidMetadataValue(tonic::metadata::errors::InvalidMetadataValue);

/// A character the metadata encoder accepts: every byte of its UTF-8 form is
/// visible ASCII, a byte above the ASCII range, or a tab.
pub open spec fn is_metadata_value_char(c: char) -> bool {
    (32 <= c as u32 && c as u32 != 127) || c == '\t'
}

/// The metadata value tonic parses from the string `s`: a function of `s`
/// alone.
pub uninterp spec fn ascii_metadata_of(s: Seq<char>) -> AsciiMetadataValue;

/// Relies on tonic's ASCII metadata parsing: it accepts a string exactly when
/// every byte is visible ASCII, above the ASCII range, or a tab, which over
/// characters is `is_metadata_value_char` of each; its result depends on the
/// string alone.
#[verifier::external_body]
fn ascii_metadata_from_str(s: &str) -> (r: Result<
    AsciiMetadataValue,
    tonic::metadata::errors::InvalidMetadataValue,
>)
    ensures
        r is Ok <==> (forall|i: int| 0 <= i < s@.len() ==> is_metadata_value_char(#[trigger] s@[i])),
        r matches Ok(m) ==> m == ascii_metadata_of(s@),
{
    match str::parse::<tonic::metadata::AsciiMetadataValue>(s) {
        Ok(value) => Ok(AsciiMetadataValue { value }),
        Err(e) => Err(e),
    }
}

impl QueryHeight {
    /// Converts into the transport's native block height type, `Latest`
    /// mapping to the sentinel height `0`: the result is the block height
    /// parsed from exactly the selector's wire value.
    pub fn to_tm_height(self) -> (r: Result<tendermint::block::Height, RequestError>)
        ensures
            r is Ok <==> self.wire_value() <= i64::MAX as u64,
            r matches Ok(t) ==> t == tm_height_of(self.wire_value()),
            r matches Err(e) ==> e == RequestError::InvalidHeight,
    {
        let value = self.height_value();
        match tm_height_from_u64(value) {
            Ok(height) => Ok(height),
            Err(_) => Err(RequestError::InvalidHeight),
        }
    }

    /// The decimal string attached to a call's metadata: `Latest` always
    /// serializes as `"0"`.
    pub fn to_metadata_string(self) -> (r: String)
        ensures
            r@ == dec_chars_of(self.wire_value() as nat),
    {
        u64_to_dec_string(self.height_value())
    }

    /// Converts into the metadata value carrying the height in decimal: the
    /// result is the metadata value parsed from exactly the selector's
    /// decimal wire-value string. The encoder accepts every decimal digit,
    /// so the checked failure path is proved unreachable.
    pub fn to_ascii_metadata_value(self) -> (r: Result<AsciiMetadataValue, RequestError>)
        ensures
            r is Ok,
            r matches Ok(m) ==> m == ascii_metadata_of(dec_chars_of(self.wire_value() as nat)),
    {
        let s = self.to_metadata_string();
        proof {
            lemma_dec_bytes_are_digits(self.wire_value() as nat);
            assert(forall|i: int|
                0 <= i < s@.len() ==> is_metadata_value_char(#[trigger] s@[i]));
        }
        match ascii_metadata_from_str(s.as_str()) {
            Ok(value) => Ok(value),
            Err(_) => Err(RequestError::InvalidMetadata),
        }
    }
}

} // verus!
