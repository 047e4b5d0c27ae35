//! The DER values that the negotiation logic reads, and the decoder behind them.
//!
//! Decoding itself is the work of the `der_parser` crate. This module gives the
//! library a value type of its own, [`DerValue`], that holds what the logic
//! reads of a decoded value, and names what each decoding function returns so
//! that the contracts of the library can speak of it.

use vstd::prelude::*;

verus! {

/// A decoded DER value, as far as this library reads it.
#[derive(Debug, PartialEq, Eq)]
pub enum DerValue {
    /// A SEQUENCE, with its direct children in encoded order.
    Sequence(Vec<DerValue>),
    /// An OBJECT IDENTIFIER, in dotted-decimal text.
    Oid(String),
    /// An OCTET STRING, with its content.
    OctetString(Vec<u8>),
    /// Any other value whose content the decoder hands out as bytes; a value
    /// with a tag outside the universal class is one of them.
    Bytes(Vec<u8>),
    /// Any other value.
    Other,
}

/// The mathematical value of a [`DerValue`].
pub enum DerTree {
    Sequence(Seq<DerTree>),
    Oid(Seq<char>),
    OctetString(Seq<u8>),
    Bytes(Seq<u8>),
    Other,
}

impl DerTree {
    /// The content as a nested byte string, where the value has one.
    pub open spec fn nested_bytes(self) -> Option<Seq<u8>> {
        match self {
            DerTree::OctetString(bytes) => Some(bytes),
            DerTree::Bytes(bytes) => Some(bytes),
            _ => None,
        }
    }
}

impl View for DerValue {
    type V = DerTree;

    open spec fn view(&self) -> DerTree
        decreases self,
    {
        match self {
            DerValue::Sequence(items) => DerTree::Sequence(
                Seq::new(
                    items.len() as nat,
                    |i: int|
                        if 0 <= i < items.len() {
                            items[i].view()
                        } else {
                            DerTree::Other
                        },
                ),
            ),
            DerValue::Oid(text) => DerTree::Oid(text@),
            DerValue::OctetString(bytes) => DerTree::OctetString(bytes@),
            DerValue::Bytes(bytes) => DerTree::Bytes(bytes@),
            DerValue::Other => DerTree::Other,
        }
    }
}

/// The views of a sequence of DER values, in order.
pub open spec fn trees(values: Seq<DerValue>) -> Seq<DerTree> {
    Seq::new(values.len(), |i: int| values[i]@)
}

/// The view of a SEQUENCE holds the views of its children, in order.
pub proof fn sequence_view(children: Vec<DerValue>)
    ensures
        DerValue::Sequence(children)@ == DerTree::Sequence(trees(children@)),
{
    assert(DerValue::Sequence(children)@->Sequence_0 =~= trees(children@));
}

impl DerValue {
    /// The content as a nested byte string, where the value has one.
    pub fn as_slice(&self) -> (content: Option<&[u8]>)
        ensures
            match content {
                Some(bytes) => self@.nested_bytes() == Some(bytes@),
                None => self@.nested_bytes() is None,
            },
    {
        match self {
            DerValue::OctetString(bytes) => Some(bytes.as_slice()),
            DerValue::Bytes(bytes) => Some(bytes.as_slice()),
            _ => None,
        }
    }
}

/// The view of what a decoding function returns: the decoded value and the
/// bytes that follow it.
pub open spec fn parsed_view(parsed: Option<(DerValue, Vec<u8>)>) -> Option<(DerTree, Seq<u8>)> {
    match parsed {
        Some((value, rest)) => Some((value@, rest@)),
        None => None,
    }
}

/// Declares `der_parser::ber::BerObject`, the decoder's own value type, so that
/// it can be handed to [`lift`]. Nothing is known of what is inside.
#[verifier::external_type_specification]
#[verifier::external_body]
pub struct ExBerObject<'a>(der_parser::ber::BerObject<'a>);

/// What `der_parser::parse_der` makes of `input`: the first value and the
/// bytes that follow it, or nothing where it reports an error. It reports one
/// on fewer than two bytes.
pub uninterp spec fn der_parsed(input: Seq<u8>) -> Option<(DerTree, Seq<u8>)>;

/// What `der_parser::der::parse_der_oid` makes of `input`.
pub uninterp spec fn der_oid_parsed(input: Seq<u8>) -> Option<(DerTree, Seq<u8>)>;

/// What `der_parser::der::parse_der_sequence` makes of `input`.
pub uninterp spec fn der_sequence_parsed(input: Seq<u8>) -> Option<(DerTree, Seq<u8>)>;

/// Converts a decoded object of `der_parser` into a [`DerValue`], variant by
/// variant: a `Sequence` with its children converted in order, an `OID` with
/// the text that `to_string` gives, an `OctetString` with its bytes, any other
/// content with the bytes that `as_slice` gives, where it gives any. Nothing is
/// claimed of the result here; the decoding functions below name theirs.
#[verifier::external_body]
fn lift(object: &der_parser::ber::BerObject<'_>) -> DerValue {
    match &object.content {
        der_parser::ber::BerObjectContent::Sequence(items) => {
            DerValue::Sequence(items.iter().map(lift).collect())
        },
        der_parser::ber::BerObjectContent::OID(oid) => DerValue::Oid(oid.to_string()),
        der_parser::ber::BerObjectContent::OctetString(bytes) => {
            DerValue::OctetString(bytes.to_vec())
        },
        other => match other.as_slice() {
            Ok(bytes) => DerValue::Bytes(bytes.to_vec()),
            Err(_) => DerValue::Other,
        },
    }
}

/// Calls `der_parser::parse_der`, which decodes the first DER value of `input`
/// with everything nested in it. The result is the decoded value and the
/// bytes behind it, named by [`der_parsed`]; an error of the decoder is
/// `None`. The decoder reads an identifier octet and a length octet before
/// anything else, so it reports an error on fewer than two bytes.
#[verifier::external_body]
pub(crate) fn parse_der(input: &[u8]) -> (parsed: Option<(DerValue, Vec<u8>)>)
    ensures
        parsed_view(parsed) == der_parsed(input@),
        input@.len() < 2 ==> parsed is None,
{
    match der_parser::parse_der(input) {
        Ok((rest, object)) => Some((lift(&object), rest.to_vec())),
        Err(_) => None,
    }
}

/// Calls `der_parser::der::parse_der_oid`, which decodes the first DER value
/// of `input` and reports an error unless its tag is that of an OBJECT
/// IDENTIFIER. The result is named by [`der_oid_parsed`].
#[verifier::external_body]
pub(crate) fn parse_der_oid(input: &[u8]) -> (parsed: Option<(DerValue, Vec<u8>)>)
    ensures
        parsed_view(parsed) == der_oid_parsed(input@),
{
    match der_parser::der::parse_der_oid(input) {
        Ok((rest, object)) => Some((lift(&object), rest.to_vec())),
        Err(_) => None,
    }
}

/// Calls `der_parser::der::parse_der_sequence`, which decodes the first DER
/// value of `input` and reports an error unless its tag is that of a
/// SEQUENCE. The result is named by [`der_sequence_parsed`].
#[verifier::external_body]
pub(crate) fn parse_der_sequence(input: &[u8]) -> (parsed: Option<(DerValue, Vec<u8>)>)
    ensures
        parsed_view(parsed) == der_sequence_parsed(input@),
{
    match der_parser::der::parse_der_sequence(input) {
        Ok((rest, object)) => Some((lift(&object), rest.to_vec())),
        Err(_) => None,
    }
}

} // verus!
