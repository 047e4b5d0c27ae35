//! Authentication material in the security blob of an SMB Session Setup
//! request.
//!
//! The blob is a GSS-API token. It may wrap an SPNEGO negotiation, which
//! offers mechanisms by object identifier and carries a credential for one of
//! them, or it may be a bare NTLMSSP message. [`parse_secblob`] recovers a
//! Kerberos ticket or the identity fields of an NTLM AUTHENTICATE message,
//! whichever the blob holds, and reports absence for everything else.

use crate::der::{
    der_oid_parsed, der_parsed, der_sequence_parsed, parse_der, parse_der_oid,
    parse_der_sequence, sequence_view, trees, DerTree, DerValue,
};
use crate::kerberos::{
    kerberos5_ticket, parse_kerberos5_request, ticket_view, Kerberos5Ticket, TicketView,
};
use crate::mechanism::{
    classify, mechanism_of, registry_entries, Mechanism, OID_KERBEROS5, OID_NTLMSSP, OID_SPNEGO,
};
use crate::ntlmssp_records::{
    ntlm_auth_record, ntlmssp_record, parse_ntlm_auth_record, parse_ntlmssp, NTLMSSPVersion,
    NTLMSSP_AUTH, NTLMSSP_NEGOTIATE,
};
use crate::text::text_equal;
use vstd::prelude::*;

verus! {

/// Why a stage of the SPNEGO path gave up. None of these reaches the caller
/// of [`parse_secblob`]: each sends it on to the bare NTLMSSP path.
#[derive(Debug, Clone, Copy, PartialEq, Eq, Structural)]
pub enum SecblobError {
    /// The outermost value does not decode, or its content is no nested byte
    /// string.
    MalformedTag,
    /// The content of the outermost value does not start with an object
    /// identifier.
    MissingOid,
    /// The object identifier is not that of SPNEGO.
    NotSpnego,
    /// The value around the negotiation token does not decode, or its content
    /// is no nested byte string.
    MalformedWrapper,
    /// The negotiation token does not decode as a SEQUENCE.
    MalformedSequence,
}

/// The identity fields of an NTLM AUTHENTICATE message, free of zero bytes.
#[derive(Debug, Clone, PartialEq, Eq)]
pub struct NtlmsspData {
    pub host: Vec<u8>,
    pub user: Vec<u8>,
    pub domain: Vec<u8>,
    pub version: Option<NTLMSSPVersion>,
}

/// What a security blob held: a Kerberos ticket, NTLM identity fields, both or
/// neither.
#[derive(Debug, Clone, PartialEq, Eq)]
pub struct SpnegoRequest {
    pub krb: Option<Kerberos5Ticket>,
    pub ntlmssp: Option<NtlmsspData>,
}

/// What is known while the elements of a negotiation token are read.
#[derive(Debug, Clone, PartialEq, Eq)]
pub struct NegotiationState {
    /// The Kerberos 5 mechanism was offered.
    pub saw_kerberos: bool,
    /// The NTLMSSP mechanism was offered.
    pub saw_ntlmssp: bool,
    /// The first ticket that decoded.
    pub ticket: Option<Kerberos5Ticket>,
    /// The first NTLM identity fields that decoded.
    pub ntlmssp: Option<NtlmsspData>,
}

/// The mathematical value of an [`NtlmsspData`].
pub struct NtlmsspDataView {
    pub host: Seq<u8>,
    pub user: Seq<u8>,
    pub domain: Seq<u8>,
    pub version: Option<NTLMSSPVersion>,
}

/// The mathematical value of a [`SpnegoRequest`].
pub struct SpnegoRequestView {
    pub krb: Option<TicketView>,
    pub ntlmssp: Option<NtlmsspDataView>,
}

/// The mathematical value of a [`NegotiationState`].
pub struct NegotiationView {
    pub saw_kerberos: bool,
    pub saw_ntlmssp: bool,
    pub ticket: Option<TicketView>,
    pub ntlmssp: Option<NtlmsspDataView>,
}

impl View for NtlmsspData {
    type V = NtlmsspDataView;

    open spec fn view(&self) -> NtlmsspDataView {
        NtlmsspDataView {
            host: self.host@,
            user: self.user@,
            domain: self.domain@,
            version: self.version,
        }
    }
}

/// The view of optional NTLM identity fields.
pub open spec fn ntlmssp_view(data: Option<NtlmsspData>) -> Option<NtlmsspDataView> {
    match data {
        Some(d) => Some(d@),
        None => None,
    }
}

impl View for SpnegoRequest {
    type V = SpnegoRequestView;

    open spec fn view(&self) -> SpnegoRequestView {
        SpnegoRequestView { krb: ticket_view(self.krb), ntlmssp: ntlmssp_view(self.ntlmssp) }
    }
}

/// The view of an optional result.
pub open spec fn request_view(request: Option<SpnegoRequest>) -> Option<SpnegoRequestView> {
    match request {
        Some(r) => Some(r@),
        None => None,
    }
}

/// The view of a stage's outcome that is a result or an error.
pub open spec fn outcome_view(outcome: Result<SpnegoRequest, SecblobError>) -> Result<
    SpnegoRequestView,
    SecblobError,
> {
    match outcome {
        Ok(r) => Ok(r@),
        Err(e) => Err(e),
    }
}

/// The view of a stage's outcome that is bytes or an error.
pub open spec fn bytes_view(outcome: Result<Vec<u8>, SecblobError>) -> Result<
    Seq<u8>,
    SecblobError,
> {
    match outcome {
        Ok(bytes) => Ok(bytes@),
        Err(e) => Err(e),
    }
}

impl View for NegotiationState {
    type V = NegotiationView;

    open spec fn view(&self) -> NegotiationView {
        NegotiationView {
            saw_kerberos: self.saw_kerberos,
            saw_ntlmssp: self.saw_ntlmssp,
            ticket: ticket_view(self.ticket),
            ntlmssp: ntlmssp_view(self.ntlmssp),
        }
    }
}

// ----------------------------------------------------------------------
// NTLMSSP extraction
// ----------------------------------------------------------------------

/// A byte string with every zero byte taken out.
pub open spec fn without_nuls(bytes: Seq<u8>) -> Seq<u8> {
    bytes.filter(|b: u8| b != 0u8)
}

/// The identity fields that `blob` yields as an NTLMSSP message: those of an
/// AUTHENTICATE message whose body reads, each with its zero bytes taken out
/// and the version record as it stands. Any other message yields none.
pub open spec fn ntlmssp_data(blob: Seq<u8>) -> Option<NtlmsspDataView> {
    match ntlmssp_record(blob) {
        Some(record) => if record.msg_type == NTLMSSP_AUTH {
            match ntlm_auth_record(record.data) {
                Some(auth) => Some(
                    NtlmsspDataView {
                        host: without_nuls(auth.host),
                        user: without_nuls(auth.user),
                        domain: without_nuls(auth.domain),
                        version: auth.version,
                    },
                ),
                None => None,
            }
        } else {
            None
        },
        None => None,
    }
}

/// Copies `bytes` without its zero bytes.
pub fn strip_nuls(bytes: &[u8]) -> (stripped: Vec<u8>)
    ensures
        stripped@ == without_nuls(bytes@),
        forall|i: int| 0 <= i < stripped@.len() ==> stripped@[i] != 0,
{
    let ghost keep = |b: u8| b != 0u8;
    let mut stripped: Vec<u8> = Vec::new();
    let mut i: usize = 0;
    proof {
        reveal(Seq::filter);
        assert(bytes@.subrange(0, 0).filter(keep) == Seq::<u8>::empty());
    }
    while i < bytes.len()
        invariant
            i <= bytes@.len(),
            keep == (|b: u8| b != 0u8),
            stripped@ == bytes@.subrange(0, i as int).filter(keep),
            forall|k: int| 0 <= k < stripped@.len() ==> stripped@[k] != 0,
        decreases bytes@.len() - i,
    {
        let b = bytes[i];
        proof {
            reveal(Seq::filter);
            let longer = bytes@.subrange(0, i + 1);
            assert(longer.drop_last() == bytes@.subrange(0, i as int));
            assert(longer.last() == b);
        }
        if b != 0 {
            stripped.push(b);
        }
        i += 1;
    }
    assert(bytes@.subrange(0, i as int) == bytes@);
    stripped
}

/// Reads `blob` as an NTLMSSP message and extracts the identity fields of an
/// AUTHENTICATE message. A blob that is no message, a message of another
/// type, and an AUTHENTICATE message whose body does not read all give `None`.
pub fn parse_ntlmssp_blob(blob: &[u8]) -> (data: Option<NtlmsspData>)
    ensures
        ntlmssp_view(data) == ntlmssp_data(blob@),
        data matches Some(d) ==> {
            &&& forall|i: int| 0 <= i < d.host@.len() ==> d.host@[i] != 0
            &&& forall|i: int| 0 <= i < d.user@.len() ==> d.user@[i] != 0
            &&& forall|i: int| 0 <= i < d.domain@.len() ==> d.domain@[i] != 0
        },
{
    match parse_ntlmssp(blob) {
        Some(record) => {
            if record.msg_type == NTLMSSP_AUTH {
                match parse_ntlm_auth_record(record.data) {
                    Some(auth) => Some(
                        NtlmsspData {
                            host: strip_nuls(auth.host),
                            user: strip_nuls(auth.user),
                            domain: strip_nuls(auth.domain),
                            version: auth.version,
                        },
                    ),
                    None => None,
                }
            } else {
                None
            }
        },
        None => None,
    }
}

// ----------------------------------------------------------------------
// SPNEGO: locating the token
// ----------------------------------------------------------------------

/// The token content of an SPNEGO blob: the bytes behind the object
/// identifier inside the outermost value, where that identifier is SPNEGO's.
pub open spec fn spnego_token(blob: Seq<u8>) -> Result<Seq<u8>, SecblobError> {
    match der_parsed(blob) {
        Some((outer, _)) => match outer.nested_bytes() {
            Some(content) => match der_oid_parsed(content) {
                Some((DerTree::Oid(text), rest)) => if text == OID_SPNEGO@ {
                    Ok(rest)
                } else {
                    Err(SecblobError::NotSpnego)
                },
                _ => Err(SecblobError::MissingOid),
            },
            None => Err(SecblobError::MalformedTag),
        },
        None => Err(SecblobError::MalformedTag),
    }
}

/// The negotiation token inside the token content: the content of the value
/// that wraps it.
pub open spec fn negotiation_token(token: Seq<u8>) -> Result<Seq<u8>, SecblobError> {
    match der_parsed(token) {
        Some((wrapper, _)) => match wrapper.nested_bytes() {
            Some(content) => Ok(content),
            None => Err(SecblobError::MalformedWrapper),
        },
        None => Err(SecblobError::MalformedWrapper),
    }
}

/// Strips the outer value of a blob and checks that it announces SPNEGO.
pub fn parse_secblob_get_spnego(blob: &[u8]) -> (token: Result<Vec<u8>, SecblobError>)
    ensures
        bytes_view(token) == spnego_token(blob@),
        blob@.len() < 2 ==> token is Err,
{
    let outer = match parse_der(blob) {
        Some((outer, _)) => outer,
        None => {
            return Err(SecblobError::MalformedTag);
        },
    };
    let content = match outer.as_slice() {
        Some(content) => content,
        None => {
            return Err(SecblobError::MalformedTag);
        },
    };
    match parse_der_oid(content) {
        Some((DerValue::Oid(text), rest)) => {
            if text_equal(text.as_str(), OID_SPNEGO) {
                Ok(rest)
            } else {
                Err(SecblobError::NotSpnego)
            }
        },
        _ => Err(SecblobError::MissingOid),
    }
}

/// Removes the value that wraps the negotiation token.
pub fn parse_secblob_spnego_start(token: &[u8]) -> (inner: Result<Vec<u8>, SecblobError>)
    ensures
        bytes_view(inner) == negotiation_token(token@),
{
    match parse_der(token) {
        Some((DerValue::OctetString(content), _)) => Ok(content),
        Some((DerValue::Bytes(content), _)) => Ok(content),
        _ => Err(SecblobError::MalformedWrapper),
    }
}

// ----------------------------------------------------------------------
// SPNEGO: the negotiation
// ----------------------------------------------------------------------

/// The state before any element is read.
pub open spec fn initial_state() -> NegotiationView {
    NegotiationView { saw_kerberos: false, saw_ntlmssp: false, ticket: None, ntlmssp: None }
}

/// The child at `at` is an object identifier that the registry holds as
/// `mechanism`.
pub open spec fn offered_at(children: Seq<DerTree>, at: int, mechanism: Mechanism) -> bool {
    children[at] matches DerTree::Oid(text) && mechanism_of(text) == mechanism
}

/// One of the children offers `mechanism`.
pub open spec fn offers(children: Seq<DerTree>, mechanism: Mechanism) -> bool {
    exists|at: int| 0 <= at < children.len() && offered_at(children, at, mechanism)
}

/// The state after a mechanism-type list: a flag is set once its mechanism is
/// offered, and stays set. Children that are no object identifiers, and
/// identifiers of other mechanisms, change nothing.
pub open spec fn with_mechanisms(state: NegotiationView, children: Seq<DerTree>) -> NegotiationView {
    NegotiationView {
        saw_kerberos: state.saw_kerberos || offers(children, Mechanism::Kerberos5),
        saw_ntlmssp: state.saw_ntlmssp || offers(children, Mechanism::NTLMSSP),
        ..state
    }
}

/// The state after a credential payload, given what the Kerberos decoder made
/// of it (`None` where it was not asked or failed). A ticket is kept unless
/// one is held already. The payload is read as NTLMSSP only where NTLMSSP was
/// offered and no ticket is held after that; what it yields is kept unless
/// NTLM data is held already.
pub open spec fn with_credential(
    state: NegotiationView,
    decoded: Option<TicketView>,
    payload: Seq<u8>,
) -> NegotiationView {
    let ticket = if state.ticket is Some {
        state.ticket
    } else {
        decoded
    };
    let ntlmssp = if state.saw_ntlmssp && ticket is None && state.ntlmssp is None {
        ntlmssp_data(payload)
    } else {
        state.ntlmssp
    };
    NegotiationView { ticket, ntlmssp, ..state }
}

/// The state after a credential payload: the Kerberos decoder is asked only
/// where Kerberos 5 was offered.
pub open spec fn dispatched(state: NegotiationView, payload: Seq<u8>) -> NegotiationView {
    with_credential(
        state,
        if state.saw_kerberos {
            kerberos5_ticket(payload)
        } else {
            None
        },
        payload,
    )
}

/// The state after the value inside an element: a SEQUENCE is a
/// mechanism-type list, an OCTET STRING is a credential payload, anything
/// else changes nothing.
pub open spec fn absorbed(state: NegotiationView, value: DerTree) -> NegotiationView {
    match value {
        DerTree::Sequence(children) => with_mechanisms(state, children),
        DerTree::OctetString(payload) => dispatched(state, payload),
        _ => state,
    }
}

/// The state after one element of the negotiation token: the first value
/// inside its content is absorbed; an element without nested content, or
/// whose content does not decode, is passed over.
pub open spec fn after_element(state: NegotiationView, element: DerTree) -> NegotiationView {
    match element.nested_bytes() {
        Some(content) => match der_parsed(content) {
            Some((value, _)) => absorbed(state, value),
            None => state,
        },
        None => state,
    }
}

/// The state after all `elements`, read in order.
pub open spec fn after_elements(state: NegotiationView, elements: Seq<DerTree>) -> NegotiationView
    decreases elements.len(),
{
    if elements.len() == 0 {
        state
    } else {
        after_element(after_elements(state, elements.drop_last()), elements.last())
    }
}

/// What the negotiation token `inner` yields: it decodes as a SEQUENCE, and
/// its elements are read in order from the initial state.
pub open spec fn negotiated(inner: Seq<u8>) -> Result<SpnegoRequestView, SecblobError> {
    match der_sequence_parsed(inner) {
        Some((DerTree::Sequence(elements), _)) => {
            let state = after_elements(initial_state(), elements);
            Ok(SpnegoRequestView { krb: state.ticket, ntlmssp: state.ntlmssp })
        },
        _ => Err(SecblobError::MalformedSequence),
    }
}

impl NegotiationState {
    /// The state before any element is read.
    pub fn new() -> (state: NegotiationState)
        ensures
            state@ == initial_state(),
    {
        NegotiationState { saw_kerberos: false, saw_ntlmssp: false, ticket: None, ntlmssp: None }
    }

    /// Reads a mechanism-type list: classifies each child that is an object
    /// identifier and sets the flag of a mechanism that is offered.
    pub fn note_mechanisms(self, children: &Vec<DerValue>) -> (next: NegotiationState)
        ensures
            next@ == with_mechanisms(self@, trees(children@)),
    {
        let ghost list = trees(children@);
        let mut saw_kerberos = self.saw_kerberos;
        let mut saw_ntlmssp = self.saw_ntlmssp;
        let mut i: usize = 0;
        while i < children.len()
            invariant
                i <= children@.len(),
                list == trees(children@),
                saw_kerberos == (self.saw_kerberos || exists|at: int|
                    0 <= at < i && offered_at(list, at, Mechanism::Kerberos5)),
                saw_ntlmssp == (self.saw_ntlmssp || exists|at: int|
                    0 <= at < i && offered_at(list, at, Mechanism::NTLMSSP)),
            decreases children@.len() - i,
        {
            assert(list[i as int] == children@[i as int]@);
            match &children[i] {
                DerValue::Oid(text) => {
                    let mechanism = classify(text.as_str());
                    if mechanism.offers_kerberos() {
                        saw_kerberos = true;
                    }
                    if mechanism.offers_ntlmssp() {
                        saw_ntlmssp = true;
                    }
                    assert(mechanism == Mechanism::Kerberos5 <==> offered_at(
                        list,
                        i as int,
                        Mechanism::Kerberos5,
                    ));
                    assert(mechanism == Mechanism::NTLMSSP <==> offered_at(
                        list,
                        i as int,
                        Mechanism::NTLMSSP,
                    ));
                },
                _ => {
                    assert(!offered_at(list, i as int, Mechanism::Kerberos5));
                    assert(!offered_at(list, i as int, Mechanism::NTLMSSP));
                },
            }
            i += 1;
        }
        NegotiationState { saw_kerberos, saw_ntlmssp, ticket: self.ticket, ntlmssp: self.ntlmssp }
    }

    /// Stores what a credential payload yields, given what the Kerberos
    /// decoder made of it.
    pub fn store_credential(self, decoded: Option<Kerberos5Ticket>, payload: &[u8]) -> (next:
        NegotiationState)
        ensures
            next@ == with_credential(self@, ticket_view(decoded), payload@),
    {
        let ticket = if self.ticket.is_some() {
            self.ticket
        } else {
            decoded
        };
        let ntlmssp = if self.saw_ntlmssp && ticket.is_none() && self.ntlmssp.is_none() {
            parse_ntlmssp_blob(payload)
        } else {
            self.ntlmssp
        };
        NegotiationState {
            saw_kerberos: self.saw_kerberos,
            saw_ntlmssp: self.saw_ntlmssp,
            ticket,
            ntlmssp,
        }
    }

    /// Hands a credential payload to the decoders that the offers call for.
    pub fn dispatch_credential(self, payload: &[u8]) -> (next: NegotiationState)
        ensures
            next@ == dispatched(self@, payload@),
    {
        let decoded = if self.saw_kerberos {
            parse_kerberos5_request(payload)
        } else {
            None
        };
        self.store_credential(decoded, payload)
    }

    /// Takes in the value found inside an element of the negotiation token.
    pub fn absorb(self, value: &DerValue) -> (next: NegotiationState)
        ensures
            next@ == absorbed(self@, value@),
    {
        match value {
            DerValue::Sequence(children) => {
                proof {
                    sequence_view(*children);
                }
                self.note_mechanisms(children)
            },
            DerValue::OctetString(payload) => self.dispatch_credential(payload.as_slice()),
            _ => self,
        }
    }

    /// Reads one element of the negotiation token.
    pub fn read_element(self, element: &DerValue) -> (next: NegotiationState)
        ensures
            next@ == after_element(self@, element@),
    {
        match element.as_slice() {
            Some(content) => match parse_der(content) {
                Some((value, _)) => self.absorb(&value),
                None => self,
            },
            None => self,
        }
    }

    /// The result that the state amounts to.
    pub fn into_request(self) -> (request: SpnegoRequest)
        ensures
            request@ == (SpnegoRequestView { krb: self@.ticket, ntlmssp: self@.ntlmssp }),
    {
        SpnegoRequest { krb: self.ticket, ntlmssp: self.ntlmssp }
    }
}

/// Reads a negotiation token: decodes it as a SEQUENCE and reads its elements
/// in order. Once the SEQUENCE has decoded this does not fail: an element
/// that does not read is passed over.
pub fn parse_secblob_spnego(inner: &[u8]) -> (outcome: Result<SpnegoRequest, SecblobError>)
    ensures
        outcome_view(outcome) == negotiated(inner@),
{
    let elements = match parse_der_sequence(inner) {
        Some((DerValue::Sequence(elements), _)) => elements,
        _ => {
            return Err(SecblobError::MalformedSequence);
        },
    };
    let ghost list = trees(elements@);
    proof {
        sequence_view(elements);
    }
    let mut state = NegotiationState::new();
    let mut i: usize = 0;
    assert(list.take(0) == Seq::<DerTree>::empty());
    while i < elements.len()
        invariant
            i <= elements@.len(),
            list == trees(elements@),
            state@ == after_elements(initial_state(), list.take(i as int)),
        decreases elements@.len() - i,
    {
        proof {
            let longer = list.take(i + 1);
            assert(longer.drop_last() == list.take(i as int));
            assert(longer.last() == elements@[i as int]@);
        }
        state = state.read_element(&elements[i]);
        i += 1;
    }
    assert(list.take(i as int) == list);
    Ok(state.into_request())
}

// ----------------------------------------------------------------------
// The whole
// ----------------------------------------------------------------------

/// What the SPNEGO path makes of a blob: the three stages in order, each
/// working on what the one before it found.
pub open spec fn spnego_request(blob: Seq<u8>) -> Result<SpnegoRequestView, SecblobError> {
    match spnego_token(blob) {
        Ok(token) => match negotiation_token(token) {
            Ok(inner) => negotiated(inner),
            Err(e) => Err(e),
        },
        Err(e) => Err(e),
    }
}

/// What the bare NTLMSSP path makes of a blob: a result without a ticket
/// where the blob yields identity fields, absence where it does not.
pub open spec fn bare_ntlmssp(blob: Seq<u8>) -> Option<SpnegoRequestView> {
    match ntlmssp_data(blob) {
        Some(data) => Some(SpnegoRequestView { krb: None, ntlmssp: Some(data) }),
        None => None,
    }
}

/// What a security blob holds: the result of the SPNEGO path where every
/// stage of it succeeds, and that of the bare NTLMSSP path on the whole blob
/// where one fails.
pub open spec fn secblob(blob: Seq<u8>) -> Option<SpnegoRequestView> {
    match spnego_request(blob) {
        Ok(request) => Some(request),
        Err(_) => bare_ntlmssp(blob),
    }
}

/// Runs the SPNEGO path on a blob.
pub fn parse_spnego(blob: &[u8]) -> (outcome: Result<SpnegoRequest, SecblobError>)
    ensures
        outcome_view(outcome) == spnego_request(blob@),
        blob@.len() < 2 ==> outcome is Err,
{
    let token = match parse_secblob_get_spnego(blob) {
        Ok(token) => token,
        Err(e) => {
            return Err(e);
        },
    };
    let inner = match parse_secblob_spnego_start(token.as_slice()) {
        Ok(inner) => inner,
        Err(e) => {
            return Err(e);
        },
    };
    parse_secblob_spnego(inner.as_slice())
}

/// Runs the bare NTLMSSP path on a blob.
pub fn parse_bare_ntlmssp(blob: &[u8]) -> (request: Option<SpnegoRequest>)
    ensures
        request_view(request) == bare_ntlmssp(blob@),
{
    match parse_ntlmssp_blob(blob) {
        Some(data) => Some(SpnegoRequest { krb: None, ntlmssp: Some(data) }),
        None => None,
    }
}

/// Extracts the authentication material of a security blob: the SPNEGO path
/// first, and the bare NTLMSSP path on the whole blob where that fails. A
/// blob of fewer than two bytes holds nothing.
pub fn parse_secblob(blob: &[u8]) -> (request: Option<SpnegoRequest>)
    ensures
        request_view(request) == secblob(blob@),
        blob@.len() < 2 ==> request is None,
{
    match parse_spnego(blob) {
        Ok(request) => Some(request),
        Err(_) => parse_bare_ntlmssp(blob),
    }
}

// ----------------------------------------------------------------------
// What holds of every blob
// ----------------------------------------------------------------------

/// `blob` is an SPNEGO blob whose negotiation token has two elements: a
/// mechanism-type list with the children `offer`, and after it a credential
/// with the content `payload`.
pub open spec fn offers_with_credential(blob: Seq<u8>, offer: Seq<DerTree>, payload: Seq<u8>) -> bool {
    &&& spnego_token(blob) matches Ok(token)
    &&& negotiation_token(token) matches Ok(inner)
    &&& der_sequence_parsed(inner) matches Some((DerTree::Sequence(elements), _))
    &&& elements.len() == 2
    &&& holds(elements[0], DerTree::Sequence(offer))
    &&& holds(elements[1], DerTree::OctetString(payload))
}

/// The content of `element` is a nested byte string whose first value is
/// `value`.
pub open spec fn holds(element: DerTree, value: DerTree) -> bool {
    element.nested_bytes() matches Some(content) && der_parsed(content) matches Some((v, _)) && v
        == value
}

/// A blob that offers mechanisms and then carries a credential yields what the
/// credential dispatch makes of the payload under those offers.
pub proof fn offer_then_credential(blob: Seq<u8>, offer: Seq<DerTree>, payload: Seq<u8>)
    requires
        offers_with_credential(blob, offer, payload),
    ensures
        secblob(blob) == Some(
            {
                let state = dispatched(with_mechanisms(initial_state(), offer), payload);
                SpnegoRequestView { krb: state.ticket, ntlmssp: state.ntlmssp }
            },
        ),
{
    let token = spnego_token(blob)->Ok_0;
    let inner = negotiation_token(token)->Ok_0;
    let (sequence, _) = der_sequence_parsed(inner)->0;
    let elements = sequence->Sequence_0;
    let first = elements[0];
    let second = elements[1];
    let one = elements.drop_last();
    assert(one.len() == 1 && one.last() == first);
    assert(one.drop_last().len() == 0);
    assert(after_elements(initial_state(), one.drop_last()) == initial_state());
    assert(after_elements(initial_state(), one) == with_mechanisms(initial_state(), offer));
    assert(elements.last() == second);
    assert(after_elements(initial_state(), elements) == dispatched(
        with_mechanisms(initial_state(), offer),
        payload,
    ));
}

/// A blob that offers Kerberos 5 alone, followed by a credential that decodes
/// as a Kerberos ticket, yields that ticket and no NTLM data.
pub proof fn kerberos_offer_yields_ticket(blob: Seq<u8>, payload: Seq<u8>)
    requires
        offers_with_credential(blob, seq![DerTree::Oid(OID_KERBEROS5@)], payload),
        kerberos5_ticket(payload) is Some,
    ensures
        secblob(blob) == Some(
            SpnegoRequestView { krb: kerberos5_ticket(payload), ntlmssp: None },
        ),
{
    let offer = seq![DerTree::Oid(OID_KERBEROS5@)];
    registry_entries();
    offer_then_credential(blob, offer, payload);
    assert(offered_at(offer, 0, Mechanism::Kerberos5));
    assert(!offers(offer, Mechanism::NTLMSSP));
}

/// A blob that offers NTLMSSP alone, followed by a credential that reads as
/// an NTLM AUTHENTICATE message, yields its identity fields and no ticket;
/// none of host, user and domain holds a zero byte.
pub proof fn ntlmssp_offer_yields_identity(blob: Seq<u8>, payload: Seq<u8>)
    requires
        offers_with_credential(blob, seq![DerTree::Oid(OID_NTLMSSP@)], payload),
        ntlmssp_data(payload) is Some,
    ensures
        secblob(blob) == Some(SpnegoRequestView { krb: None, ntlmssp: ntlmssp_data(payload) }),
        !ntlmssp_data(payload)->0.host.contains(0u8),
        !ntlmssp_data(payload)->0.user.contains(0u8),
        !ntlmssp_data(payload)->0.domain.contains(0u8),
{
    let offer = seq![DerTree::Oid(OID_NTLMSSP@)];
    registry_entries();
    offer_then_credential(blob, offer, payload);
    assert(offered_at(offer, 0, Mechanism::NTLMSSP));
    assert(!offers(offer, Mechanism::Kerberos5));
    identity_is_free_of_nuls(payload);
}

/// A blob that offers both Kerberos 5 and NTLMSSP, followed by a credential
/// that does not decode as a Kerberos ticket, yields no ticket, and of NTLM
/// data what the credential yields as an NTLMSSP message: none where it
/// yields none.
pub proof fn failed_ticket_leaves_ntlmssp(blob: Seq<u8>, offer: Seq<DerTree>, payload: Seq<u8>)
    requires
        offers_with_credential(blob, offer, payload),
        offers(offer, Mechanism::Kerberos5),
        offers(offer, Mechanism::NTLMSSP),
        kerberos5_ticket(payload) is None,
    ensures
        secblob(blob) == Some(SpnegoRequestView { krb: None, ntlmssp: ntlmssp_data(payload) }),
        ntlmssp_data(payload) is None ==> secblob(blob) == Some(
            SpnegoRequestView { krb: None, ntlmssp: None },
        ),
{
    offer_then_credential(blob, offer, payload);
}

/// A credential that decodes as a Kerberos ticket under an offer of Kerberos 5
/// is not read as NTLMSSP: the NTLM data stay as they were, whatever else was
/// offered.
pub proof fn ticket_suppresses_ntlmssp(state: NegotiationView, payload: Seq<u8>)
    requires
        state.saw_kerberos,
        kerberos5_ticket(payload) is Some,
    ensures
        dispatched(state, payload).ntlmssp == state.ntlmssp,
        dispatched(state, payload).ticket is Some,
{
}

/// A credential under no offer of Kerberos 5 or NTLMSSP is ignored.
pub proof fn credential_without_offer_is_ignored(state: NegotiationView, payload: Seq<u8>)
    requires
        !state.saw_kerberos,
        !state.saw_ntlmssp,
    ensures
        dispatched(state, payload) == state,
{
}

/// Reading an element never takes back what is known: a flag that is set
/// stays set, and a ticket or NTLM data that are held stay as they are, so
/// that the first credential of each kind is the one that is kept.
pub proof fn element_keeps_what_is_held(state: NegotiationView, element: DerTree)
    ensures
        state.saw_kerberos ==> after_element(state, element).saw_kerberos,
        state.saw_ntlmssp ==> after_element(state, element).saw_ntlmssp,
        state.ticket is Some ==> after_element(state, element).ticket == state.ticket,
        state.ntlmssp is Some ==> after_element(state, element).ntlmssp == state.ntlmssp,
{
}

/// A negotiation token that decodes as a SEQUENCE yields a result, whatever
/// its elements are.
pub proof fn sequence_always_yields_a_result(inner: Seq<u8>)
    requires
        der_sequence_parsed(inner) matches Some((DerTree::Sequence(_), _)),
    ensures
        negotiated(inner) is Ok,
{
}

/// Only an AUTHENTICATE message yields identity fields.
pub proof fn only_authenticate_yields_identity(blob: Seq<u8>)
    requires
        ntlmssp_data(blob) is Some,
    ensures
        ntlmssp_record(blob) matches Some(record) && record.msg_type == NTLMSSP_AUTH,
{
}

/// A blob on which the SPNEGO path fails yields what it yields as a bare
/// NTLMSSP message: the identity fields of an AUTHENTICATE message, and
/// absence for a NEGOTIATE message.
pub proof fn fallback_reads_bare_ntlmssp(blob: Seq<u8>)
    requires
        spnego_request(blob) is Err,
    ensures
        secblob(blob) == bare_ntlmssp(blob),
        ntlmssp_data(blob) matches Some(data) ==> secblob(blob) == Some(
            SpnegoRequestView { krb: None, ntlmssp: Some(data) },
        ),
        ntlmssp_record(blob) matches Some(record) && record.msg_type == NTLMSSP_NEGOTIATE
            ==> secblob(blob) is None,
{
}

/// The identity fields that a blob yields hold no zero byte.
pub proof fn identity_is_free_of_nuls(blob: Seq<u8>)
    requires
        ntlmssp_data(blob) is Some,
    ensures
        !ntlmssp_data(blob)->0.host.contains(0u8),
        !ntlmssp_data(blob)->0.user.contains(0u8),
        !ntlmssp_data(blob)->0.domain.contains(0u8),
{
    let auth = ntlm_auth_record(ntlmssp_record(blob)->0.data)->0;
    without_nuls_has_none(auth.host);
    without_nuls_has_none(auth.user);
    without_nuls_has_none(auth.domain);
}

/// What is left of a byte string without its zero bytes holds none.
pub proof fn without_nuls_has_none(bytes: Seq<u8>)
    ensures
        !without_nuls(bytes).contains(0u8),
{
    let keep = |b: u8| b != 0u8;
    if bytes.filter(keep).contains(0u8) {
        let i = choose|i: int| 0 <= i < bytes.filter(keep).len() && bytes.filter(keep)[i] == 0u8;
        bytes.lemma_filter_pred(keep, i);
    }
}

/// Reading a blob is a function of its bytes: two results for the same bytes
/// are equal in every field.
pub proof fn same_blob_same_result(
    blob: Seq<u8>,
    first: Option<SpnegoRequest>,
    second: Option<SpnegoRequest>,
)
    requires
        request_view(first) == secblob(blob),
        request_view(second) == secblob(blob),
    ensures
        request_view(first) == request_view(second),
        first is Some <==> second is Some,
{
}

} // verus!
