use secblob::auth::{
    parse_ntlmssp_blob, parse_secblob, parse_secblob_get_spnego, parse_secblob_spnego,
    parse_secblob_spnego_start, parse_spnego, NegotiationState, NtlmsspData, SecblobError,
    SpnegoRequest,
};
use secblob::der::DerValue;
use secblob::kerberos::{parse_kerberos5_request, Kerberos5Ticket, PrincipalName};
use secblob::ntlmssp_records::NTLMSSPVersion;

const OID_SPNEGO: [u8; 6] = [0x2b, 0x06, 0x01, 0x05, 0x05, 0x02];
const OID_KERBEROS5: [u8; 9] = [0x2a, 0x86, 0x48, 0x86, 0xf7, 0x12, 0x01, 0x02, 0x02];
const OID_MS_KERBEROS5: [u8; 9] = [0x2a, 0x86, 0x48, 0x82, 0xf7, 0x12, 0x01, 0x02, 0x02];
const OID_NTLMSSP: [u8; 10] = [0x2b, 0x06, 0x01, 0x04, 0x01, 0x82, 0x37, 0x02, 0x02, 0x0a];
const OID_NEGOEX: [u8; 10] = [0x2b, 0x06, 0x01, 0x04, 0x01, 0x82, 0x37, 0x02, 0x02, 0x1e];

/// One DER value: tag, length, content.
fn tlv(tag: u8, content: &[u8]) -> Vec<u8> {
    let mut out = vec![tag];
    let len = content.len();
    if len < 0x80 {
        out.push(len as u8);
    } else if len < 0x100 {
        out.push(0x81);
        out.push(len as u8);
    } else {
        out.push(0x82);
        out.push((len >> 8) as u8);
        out.push(len as u8);
    }
    out.extend_from_slice(content);
    out
}

fn cat(parts: &[Vec<u8>]) -> Vec<u8> {
    parts.concat()
}

fn small_int(tag: u8, value: u8) -> Vec<u8> {
    tlv(tag, &tlv(0x02, &[value]))
}

fn encrypted_data(with_kvno: bool) -> Vec<u8> {
    let mut fields = vec![small_int(0xa0, 18)];
    if with_kvno {
        fields.push(small_int(0xa1, 1));
    }
    fields.push(tlv(0xa2, &tlv(0x04, &[0xde, 0xad, 0xbe, 0xef])));
    tlv(0x30, &cat(&fields))
}

/// An AP-REQ with a ticket of the realm EXAMPLE.COM for cifs/files.example.com.
fn ap_req() -> Vec<u8> {
    let sname = tlv(
        0x30,
        &cat(&[
            small_int(0xa0, 2),
            tlv(
                0xa1,
                &tlv(0x30, &cat(&[tlv(0x1b, b"cifs"), tlv(0x1b, b"files.example.com")])),
            ),
        ]),
    );
    let ticket = tlv(
        0x61,
        &tlv(
            0x30,
            &cat(&[
                small_int(0xa0, 5),
                tlv(0xa1, &tlv(0x1b, b"EXAMPLE.COM")),
                tlv(0xa2, &sname),
                tlv(0xa3, &encrypted_data(true)),
            ]),
        ),
    );
    tlv(
        0x6e,
        &tlv(
            0x30,
            &cat(&[
                small_int(0xa0, 5),
                small_int(0xa1, 14),
                tlv(0xa2, &tlv(0x03, &[0x00, 0x20, 0x00, 0x00, 0x00])),
                tlv(0xa3, &ticket),
                tlv(0xa4, &encrypted_data(false)),
            ]),
        ),
    )
}

/// A Kerberos credential: the GSS-API token around an AP-REQ.
fn kerberos_credential() -> Vec<u8> {
    tlv(0x60, &cat(&[tlv(0x06, &OID_KERBEROS5), vec![0x01, 0x00], ap_req()]))
}

fn expected_ticket() -> Kerberos5Ticket {
    Kerberos5Ticket {
        realm: "EXAMPLE.COM".to_string(),
        sname: PrincipalName {
            name_type: 2,
            name_string: vec!["cifs".to_string(), "files.example.com".to_string()],
        },
    }
}

fn descriptor(len: u16, offset: u32) -> Vec<u8> {
    let mut out = Vec::new();
    out.extend_from_slice(&len.to_le_bytes());
    out.extend_from_slice(&len.to_le_bytes());
    out.extend_from_slice(&offset.to_le_bytes());
    out
}

/// An NTLMSSP AUTHENTICATE message with the three identity fields.
fn ntlm_authenticate(domain: &[u8], user: &[u8], host: &[u8], version: Option<[u8; 8]>) -> Vec<u8> {
    let header: u32 = if version.is_some() { 72 } else { 64 };
    let mut out = b"NTLMSSP\0".to_vec();
    out.extend_from_slice(&3u32.to_le_bytes());
    let end = header + (domain.len() + user.len() + host.len()) as u32;
    out.extend(descriptor(0, end));
    out.extend(descriptor(0, end));
    out.extend(descriptor(domain.len() as u16, header));
    out.extend(descriptor(user.len() as u16, header + domain.len() as u32));
    out.extend(descriptor(host.len() as u16, header + (domain.len() + user.len()) as u32));
    out.extend(descriptor(0, end));
    match version {
        Some(v) => {
            out.extend_from_slice(&[0x02, 0x00, 0x00, 0x00]);
            out.extend_from_slice(&v);
        }
        None => out.extend_from_slice(&[0x00, 0x00, 0x00, 0x00]),
    }
    out.extend_from_slice(domain);
    out.extend_from_slice(user);
    out.extend_from_slice(host);
    out
}

fn ntlm_negotiate() -> Vec<u8> {
    let mut out = b"NTLMSSP\0".to_vec();
    out.extend_from_slice(&1u32.to_le_bytes());
    out.extend_from_slice(&[0x97, 0x82, 0x08, 0xe2]);
    out.extend_from_slice(&[0u8; 16]);
    out
}

fn sample_authenticate() -> Vec<u8> {
    ntlm_authenticate(b"W\0O\0R\0K\0", b"b\0o\0b\0", b"H\0O\0S\0T\0", None)
}

fn sample_identity() -> NtlmsspData {
    NtlmsspData {
        host: b"HOST".to_vec(),
        user: b"bob".to_vec(),
        domain: b"WORK".to_vec(),
        version: None,
    }
}

/// The negotiation token: a SEQUENCE of a mechanism-type list and a credential.
fn negotiation(oids: &[&[u8]], credential: Option<&[u8]>) -> Vec<u8> {
    let list: Vec<Vec<u8>> = oids.iter().map(|oid| tlv(0x06, oid)).collect();
    let mut elements = vec![tlv(0xa0, &tlv(0x30, &cat(&list)))];
    if let Some(payload) = credential {
        elements.push(tlv(0xa2, &tlv(0x04, payload)));
    }
    tlv(0x30, &cat(&elements))
}

/// An SPNEGO blob around a negotiation token.
fn spnego_blob(oids: &[&[u8]], credential: Option<&[u8]>) -> Vec<u8> {
    tlv(0x60, &cat(&[tlv(0x06, &OID_SPNEGO), tlv(0xa0, &negotiation(oids, credential))]))
}

#[test]
fn short_blobs_hold_nothing() {
    assert_eq!(parse_secblob(&[]), None);
    assert_eq!(parse_secblob(&[0x60]), None);
    assert_eq!(parse_secblob(&[0x30]), None);
    assert_eq!(parse_secblob(&[0x00]), None);
    assert_eq!(parse_secblob(&[0xff]), None);
}

#[test]
fn kerberos_offer_with_ticket() {
    let blob = spnego_blob(&[&OID_KERBEROS5], Some(&kerberos_credential()));
    let request = parse_secblob(&blob).expect("an SPNEGO blob");
    assert_eq!(request.krb, Some(expected_ticket()));
    assert_eq!(request.ntlmssp, None);
}

#[test]
fn ntlmssp_offer_with_authenticate() {
    let blob = spnego_blob(&[&OID_NTLMSSP], Some(&sample_authenticate()));
    let request = parse_secblob(&blob).expect("an SPNEGO blob");
    assert_eq!(request.krb, None);
    let identity = request.ntlmssp.expect("identity fields");
    assert!(!identity.host.contains(&0));
    assert!(!identity.user.contains(&0));
    assert!(!identity.domain.contains(&0));
    assert_eq!(identity, sample_identity());
}

#[test]
fn both_offers_with_ticket_keep_the_ticket_only() {
    let blob = spnego_blob(&[&OID_KERBEROS5, &OID_NTLMSSP], Some(&kerberos_credential()));
    let request = parse_secblob(&blob).expect("an SPNEGO blob");
    assert_eq!(request.krb, Some(expected_ticket()));
    assert_eq!(request.ntlmssp, None);
}

#[test]
fn both_offers_with_failed_ticket_read_the_payload_as_ntlmssp() {
    let blob = spnego_blob(&[&OID_KERBEROS5, &OID_NTLMSSP], Some(&sample_authenticate()));
    let request = parse_secblob(&blob).expect("an SPNEGO blob");
    assert_eq!(request.krb, None);
    assert_eq!(request.ntlmssp, Some(sample_identity()));
}

#[test]
fn both_offers_with_failed_ticket_and_negotiate_message_hold_nothing() {
    let blob = spnego_blob(&[&OID_KERBEROS5, &OID_NTLMSSP], Some(&ntlm_negotiate()));
    assert_eq!(parse_secblob(&blob), Some(SpnegoRequest { krb: None, ntlmssp: None }));
}

#[test]
fn kerberos_offer_alone_does_not_read_ntlmssp() {
    let blob = spnego_blob(&[&OID_KERBEROS5], Some(&sample_authenticate()));
    assert_eq!(parse_secblob(&blob), Some(SpnegoRequest { krb: None, ntlmssp: None }));
}

#[test]
fn ntlmssp_offer_alone_does_not_decode_a_ticket() {
    let blob = spnego_blob(&[&OID_NTLMSSP], Some(&kerberos_credential()));
    assert_eq!(parse_secblob(&blob), Some(SpnegoRequest { krb: None, ntlmssp: None }));
}

#[test]
fn offers_without_flag_ignore_the_credential() {
    let blob = spnego_blob(&[&OID_MS_KERBEROS5, &OID_NEGOEX], Some(&kerberos_credential()));
    assert_eq!(parse_secblob(&blob), Some(SpnegoRequest { krb: None, ntlmssp: None }));
    let blob = spnego_blob(&[&OID_MS_KERBEROS5, &OID_NEGOEX], Some(&sample_authenticate()));
    assert_eq!(parse_secblob(&blob), Some(SpnegoRequest { krb: None, ntlmssp: None }));
}

#[test]
fn negotiation_without_credential_is_still_a_result() {
    let blob = spnego_blob(&[&OID_KERBEROS5, &OID_NTLMSSP], None);
    assert_eq!(parse_secblob(&blob), Some(SpnegoRequest { krb: None, ntlmssp: None }));
}

#[test]
fn credential_before_the_offer_is_ignored() {
    let elements = cat(&[
        tlv(0xa2, &tlv(0x04, &sample_authenticate())),
        tlv(0xa0, &tlv(0x30, &tlv(0x06, &OID_NTLMSSP))),
    ]);
    let inner = tlv(0x30, &elements);
    let request = parse_secblob_spnego(&inner).expect("a sequence");
    assert_eq!(request, SpnegoRequest { krb: None, ntlmssp: None });
}

#[test]
fn first_credential_of_each_kind_is_kept() {
    let other = ntlm_authenticate(b"L\0A\0B\0", b"e\0v\0e\0", b"P\0C\0", None);
    let elements = cat(&[
        tlv(0xa0, &tlv(0x30, &tlv(0x06, &OID_NTLMSSP))),
        tlv(0xa2, &tlv(0x04, &sample_authenticate())),
        tlv(0xa2, &tlv(0x04, &other)),
        tlv(0xa0, &tlv(0x30, &tlv(0x06, &OID_KERBEROS5))),
        tlv(0xa2, &tlv(0x04, &kerberos_credential())),
    ]);
    let inner = tlv(0x30, &elements);
    let request = parse_secblob_spnego(&inner).expect("a sequence");
    assert_eq!(request.ntlmssp, Some(sample_identity()));
    assert_eq!(request.krb, Some(expected_ticket()));
}

#[test]
fn malformed_elements_are_passed_over() {
    let elements = cat(&[
        tlv(0x30, &[]),
        tlv(0xa1, &[0x30, 0x7f]),
        tlv(0x05, &[]),
        tlv(0xa0, &tlv(0x30, &cat(&[tlv(0x02, &[0x01]), tlv(0x06, &OID_NTLMSSP)]))),
        tlv(0xa3, &tlv(0x02, &[0x05])),
        tlv(0xa2, &tlv(0x04, &sample_authenticate())),
    ]);
    let inner = tlv(0x30, &elements);
    let request = parse_secblob_spnego(&inner).expect("a sequence");
    assert_eq!(request, SpnegoRequest { krb: None, ntlmssp: Some(sample_identity()) });
}

#[test]
fn bare_authenticate_is_read_by_the_fallback() {
    let blob = sample_authenticate();
    assert!(parse_spnego(&blob).is_err());
    assert_eq!(
        parse_secblob(&blob),
        Some(SpnegoRequest { krb: None, ntlmssp: Some(sample_identity()) })
    );
}

#[test]
fn bare_negotiate_holds_nothing() {
    let blob = ntlm_negotiate();
    assert!(parse_spnego(&blob).is_err());
    assert_eq!(parse_secblob(&blob), None);
}

#[test]
fn parsing_twice_gives_the_same() {
    let blobs = vec![
        spnego_blob(&[&OID_KERBEROS5], Some(&kerberos_credential())),
        spnego_blob(&[&OID_NTLMSSP], Some(&sample_authenticate())),
        sample_authenticate(),
        ntlm_negotiate(),
        vec![0x60, 0x03, 0x01, 0x02],
        vec![],
    ];
    for blob in &blobs {
        assert_eq!(parse_secblob(blob), parse_secblob(blob));
    }
}

#[test]
fn authenticate_fields_lose_their_nul_bytes() {
    let message = ntlm_authenticate(b"W\0O\0R\0K\0", b"b\0o\0b\0", b"H\0O\0S\0T\0", None);
    let identity = parse_ntlmssp_blob(&message).expect("identity fields");
    assert_eq!(identity.host, b"HOST".to_vec());
    assert_eq!(identity.user, b"bob".to_vec());
    assert_eq!(identity.domain, b"WORK".to_vec());
    assert_eq!(identity.version, None);
}

#[test]
fn authenticate_fields_with_trailing_nul() {
    let message = ntlm_authenticate(b"WORK\0", b"bob\0", b"HOST\0", None);
    let identity = parse_ntlmssp_blob(&message).expect("identity fields");
    assert_eq!(identity.host, b"HOST".to_vec());
    assert_eq!(identity.user, b"bob".to_vec());
    assert_eq!(identity.domain, b"WORK".to_vec());
}

#[test]
fn authenticate_version_is_carried_over() {
    let version = [0x0a, 0x00, 0x61, 0x4a, 0x00, 0x00, 0x00, 0x0f];
    let message = ntlm_authenticate(b"D\0", b"u\0", b"h\0", Some(version));
    let identity = parse_ntlmssp_blob(&message).expect("identity fields");
    assert_eq!(
        identity,
        NtlmsspData {
            host: b"h".to_vec(),
            user: b"u".to_vec(),
            domain: b"D".to_vec(),
            version: Some(NTLMSSPVersion {
                ver_major: 10,
                ver_minor: 0,
                ver_build: 19041,
                ver_ntlm_rev: 15,
            }),
        }
    );
}

#[test]
fn blobs_that_are_no_authenticate_message_yield_no_identity() {
    assert_eq!(parse_ntlmssp_blob(&[]), None);
    assert_eq!(parse_ntlmssp_blob(b"NTLMSSP\0"), None);
    assert_eq!(parse_ntlmssp_blob(&ntlm_negotiate()), None);
    let mut challenge = sample_authenticate();
    challenge[8] = 2;
    assert_eq!(parse_ntlmssp_blob(&challenge), None);
    let mut cut = sample_authenticate();
    cut.pop();
    assert_eq!(parse_ntlmssp_blob(&cut), None);
}

#[test]
fn locator_returns_the_token_content() {
    let token = tlv(0xa0, &negotiation(&[&OID_NTLMSSP], None));
    let blob = tlv(0x60, &cat(&[tlv(0x06, &OID_SPNEGO), token.clone()]));
    assert_eq!(parse_secblob_get_spnego(&blob), Ok(token));
}

#[test]
fn locator_rejects_what_is_not_spnego() {
    assert_eq!(parse_secblob_get_spnego(&[]), Err(SecblobError::MalformedTag));
    assert_eq!(parse_secblob_get_spnego(&[0x60, 0x05, 0x06]), Err(SecblobError::MalformedTag));
    let sequence = tlv(0x30, &tlv(0x06, &OID_SPNEGO));
    assert_eq!(parse_secblob_get_spnego(&sequence), Err(SecblobError::MalformedTag));
    let no_oid = tlv(0x60, &tlv(0x02, &[0x01]));
    assert_eq!(parse_secblob_get_spnego(&no_oid), Err(SecblobError::MissingOid));
    let empty = tlv(0x60, &[]);
    assert_eq!(parse_secblob_get_spnego(&empty), Err(SecblobError::MissingOid));
    let kerberos = kerberos_credential();
    assert_eq!(parse_secblob_get_spnego(&kerberos), Err(SecblobError::NotSpnego));
}

#[test]
fn unwrapper_returns_the_wrapped_bytes() {
    let inner = negotiation(&[&OID_KERBEROS5], None);
    assert_eq!(parse_secblob_spnego_start(&tlv(0xa0, &inner)), Ok(inner.clone()));
    assert_eq!(parse_secblob_spnego_start(&tlv(0xa1, &inner)), Ok(inner));
}

#[test]
fn unwrapper_rejects_what_has_no_nested_bytes() {
    assert_eq!(parse_secblob_spnego_start(&[]), Err(SecblobError::MalformedWrapper));
    assert_eq!(parse_secblob_spnego_start(&[0xa0, 0x04, 0x30]), Err(SecblobError::MalformedWrapper));
    let sequence = tlv(0x30, &tlv(0x04, &[0x01]));
    assert_eq!(parse_secblob_spnego_start(&sequence), Err(SecblobError::MalformedWrapper));
    assert_eq!(parse_secblob_spnego_start(&tlv(0x05, &[])), Err(SecblobError::MalformedWrapper));
}

#[test]
fn negotiation_rejects_what_is_no_sequence() {
    assert_eq!(parse_secblob_spnego(&[]), Err(SecblobError::MalformedSequence));
    assert_eq!(parse_secblob_spnego(&tlv(0x04, &[0x01])), Err(SecblobError::MalformedSequence));
    assert_eq!(parse_secblob_spnego(&tlv(0x31, &[])), Err(SecblobError::MalformedSequence));
    assert_eq!(parse_secblob_spnego(&[0x30, 0x05, 0x02]), Err(SecblobError::MalformedSequence));
}

#[test]
fn empty_negotiation_is_an_empty_result() {
    assert_eq!(parse_secblob_spnego(&tlv(0x30, &[])), Ok(SpnegoRequest { krb: None, ntlmssp: None }));
}

#[test]
fn failed_negotiation_falls_back_to_bare_ntlmssp() {
    let mut content = tlv(0x04, &[0x01]);
    content.extend(sample_authenticate());
    let blob = tlv(0x60, &cat(&[tlv(0x06, &OID_SPNEGO), tlv(0xa0, &content)]));
    assert_eq!(parse_spnego(&blob), Err(SecblobError::MalformedSequence));
    assert_eq!(
        parse_secblob(&blob),
        Some(SpnegoRequest { krb: None, ntlmssp: Some(sample_identity()) })
    );
}

#[test]
fn failed_unwrapping_falls_back_to_bare_ntlmssp() {
    let mut content = tlv(0x06, &OID_SPNEGO);
    content.extend(tlv(0x30, &[]));
    content.extend(sample_authenticate());
    let blob = tlv(0x60, &content);
    assert_eq!(parse_spnego(&blob), Err(SecblobError::MalformedWrapper));
    assert_eq!(
        parse_secblob(&blob),
        Some(SpnegoRequest { krb: None, ntlmssp: Some(sample_identity()) })
    );
}

#[test]
fn kerberos_credential_decodes_to_its_ticket() {
    assert_eq!(parse_kerberos5_request(&kerberos_credential()), Some(expected_ticket()));
}

#[test]
fn kerberos_credential_that_does_not_decode() {
    assert_eq!(parse_kerberos5_request(&[]), None);
    assert_eq!(parse_kerberos5_request(&tlv(0x30, &[])), None);
    assert_eq!(parse_kerberos5_request(&tlv(0x60, &tlv(0x02, &[0x01]))), None);
    assert_eq!(parse_kerberos5_request(&tlv(0x60, &cat(&[tlv(0x06, &OID_KERBEROS5), vec![0x01]]))), None);
    let no_request = tlv(0x60, &cat(&[tlv(0x06, &OID_KERBEROS5), vec![0x01, 0x00]]));
    assert_eq!(parse_kerberos5_request(&no_request), None);
    assert_eq!(parse_kerberos5_request(&sample_authenticate()), None);
}

#[test]
fn state_sets_a_flag_for_each_offer() {
    let list = vec![
        DerValue::Oid("1.2.840.48018.1.2.2".to_string()),
        DerValue::Other,
        DerValue::Oid("1.3.6.1.4.1.311.2.2.10".to_string()),
    ];
    let state = NegotiationState::new().note_mechanisms(&list);
    assert!(!state.saw_kerberos);
    assert!(state.saw_ntlmssp);
    let state = state.note_mechanisms(&vec![DerValue::Oid("1.2.840.113554.1.2.2".to_string())]);
    assert!(state.saw_kerberos);
    assert!(state.saw_ntlmssp);
    let state = state.note_mechanisms(&vec![]);
    assert!(state.saw_kerberos && state.saw_ntlmssp);
    assert_eq!(state.ticket, None);
    assert_eq!(state.ntlmssp, None);
}

#[test]
fn state_stores_credentials_by_priority() {
    let payload = sample_authenticate();
    let both = NegotiationState { saw_kerberos: true, saw_ntlmssp: true, ticket: None, ntlmssp: None };
    let next = both.clone().store_credential(Some(expected_ticket()), &payload);
    assert_eq!(next.ticket, Some(expected_ticket()));
    assert_eq!(next.ntlmssp, None);
    let next = both.clone().store_credential(None, &payload);
    assert_eq!(next.ticket, None);
    assert_eq!(next.ntlmssp, Some(sample_identity()));
    let held = NegotiationState { ticket: Some(expected_ticket()), ..both.clone() };
    let next = held.clone().store_credential(None, &payload);
    assert_eq!(next, held);
    let neither = NegotiationState::new();
    assert_eq!(neither.clone().dispatch_credential(&payload), neither);
    assert_eq!(neither.clone().absorb(&DerValue::OctetString(payload.clone())), neither);
    assert_eq!(neither.clone().absorb(&DerValue::Bytes(payload.clone())), neither);
    assert_eq!(neither.clone().read_element(&DerValue::Other), neither);
}

/// A small generator of repeatable pseudo-random numbers.
fn next_random(state: &mut u64) -> u64 {
    *state = state.wrapping_mul(6364136223846793005).wrapping_add(1442695040888963407);
    *state >> 33
}

#[test]
fn arbitrary_bytes_are_read_without_failure() {
    let mut state: u64 = 0x5eed;
    for round in 0..4000 {
        let len = (next_random(&mut state) % 96) as usize;
        let blob: Vec<u8> = (0..len).map(|_| next_random(&mut state) as u8).collect();
        let first = parse_secblob(&blob);
        assert_eq!(first, parse_secblob(&blob), "round {}", round);
        if blob.len() < 2 {
            assert_eq!(first, None);
        }
    }
}

#[test]
fn damaged_blobs_are_read_without_failure() {
    let samples = vec![
        spnego_blob(&[&OID_KERBEROS5, &OID_NTLMSSP], Some(&kerberos_credential())),
        spnego_blob(&[&OID_NTLMSSP], Some(&sample_authenticate())),
        kerberos_credential(),
        sample_authenticate(),
    ];
    let mut state: u64 = 0xb10b;
    for sample in &samples {
        for _ in 0..1500 {
            let mut blob = sample.clone();
            let hits = 1 + next_random(&mut state) % 3;
            for _ in 0..hits {
                let at = (next_random(&mut state) as usize) % blob.len();
                blob[at] = next_random(&mut state) as u8;
            }
            if next_random(&mut state) % 4 == 0 {
                let keep = (next_random(&mut state) as usize) % blob.len();
                blob.truncate(keep);
            }
            let first = parse_secblob(&blob);
            assert_eq!(first, parse_secblob(&blob));
            if let Some(SpnegoRequest { ntlmssp: Some(identity), .. }) = first {
                assert!(!identity.host.contains(&0));
                assert!(!identity.user.contains(&0));
                assert!(!identity.domain.contains(&0));
            }
            let _ = parse_kerberos5_request(&blob);
        }
    }
}

#[test]
fn deeply_nested_values_are_read_without_failure() {
    let mut nested = tlv(0x04, &[0x01]);
    for _ in 0..200 {
        nested = tlv(0x30, &nested);
    }
    assert_eq!(parse_secblob_spnego(&nested), Err(SecblobError::MalformedSequence));
    let blob = tlv(0x60, &cat(&[tlv(0x06, &OID_SPNEGO), tlv(0xa0, &nested)]));
    assert_eq!(parse_secblob(&blob), None);
    let mut wrapped = tlv(0x04, &sample_authenticate());
    for _ in 0..40 {
        wrapped = tlv(0xa0, &wrapped);
    }
    assert_eq!(
        parse_secblob_spnego(&tlv(0x30, &wrapped)),
        Ok(SpnegoRequest { krb: None, ntlmssp: None })
    );
}
