//! The Kerberos ticket that a security blob may carry.
//!
//! The credential of a Kerberos negotiation is a GSS-API token: an outer DER
//! value whose content holds the mechanism's object identifier, a token
//! identifier of two bytes, and an AP-REQ message. Decoding the AP-REQ is the
//! work of the `kerberos_parser` crate.

use crate::der::{der_oid_parsed, der_parsed, parse_der, parse_der_oid};
use vstd::prelude::*;
use vstd::slice::slice_subrange;

verus! {

/// The name of a principal: its type and its components.
#[derive(Debug, Clone, PartialEq, Eq)]
pub struct PrincipalName {
    pub name_type: i32,
    pub name_string: Vec<String>,
}

/// What is kept of a ticket: the realm that issued it, and the server's name.
#[derive(Debug, Clone, PartialEq, Eq)]
pub struct Kerberos5Ticket {
    pub realm: String,
    pub sname: PrincipalName,
}

/// The mathematical value of a [`Kerberos5Ticket`].
pub struct TicketView {
    pub realm: Seq<char>,
    pub name_type: i32,
    pub name_string: Seq<Seq<char>>,
}

impl View for Kerberos5Ticket {
    type V = TicketView;

    open spec fn view(&self) -> TicketView {
        TicketView {
            realm: self.realm@,
            name_type: self.sname.name_type,
            name_string: Seq::new(
                self.sname.name_string@.len(),
                |i: int| self.sname.name_string@[i]@,
            ),
        }
    }
}

/// The view of an optional ticket.
pub open spec fn ticket_view(ticket: Option<Kerberos5Ticket>) -> Option<TicketView> {
    match ticket {
        Some(t) => Some(t@),
        None => None,
    }
}

/// The realm and server name of the ticket in what
/// `kerberos_parser::krb5_parser::parse_ap_req` makes of `input`, or nothing
/// where it reports an error.
pub uninterp spec fn ap_req_ticket(input: Seq<u8>) -> Option<TicketView>;

/// Calls `kerberos_parser::krb5_parser::parse_ap_req`, which decodes an AP-REQ
/// message at the start of `input`, and keeps the realm and the server name of
/// its ticket. The result is named by [`ap_req_ticket`]; an error of the
/// decoder is `None`.
#[allow(deprecated)]
#[verifier::external_body]
pub(crate) fn parse_ap_req(input: &[u8]) -> (ticket: Option<Kerberos5Ticket>)
    ensures
        ticket_view(ticket) == ap_req_ticket(input@),
{
    match kerberos_parser::krb5_parser::parse_ap_req(input) {
        Ok((_, request)) => Some(
            Kerberos5Ticket {
                realm: request.ticket.realm.0,
                sname: PrincipalName {
                    name_type: request.ticket.sname.name_type.0,
                    name_string: request.ticket.sname.name_string,
                },
            },
        ),
        Err(_) => None,
    }
}

/// The AP-REQ bytes inside a GSS-API token `blob`: behind the mechanism's
/// object identifier and the two bytes of the token identifier, inside the
/// content of the outer value.
pub open spec fn ap_req_bytes(blob: Seq<u8>) -> Option<Seq<u8>> {
    match der_parsed(blob) {
        Some((outer, _)) => match outer.nested_bytes() {
            Some(content) => match der_oid_parsed(content) {
                Some((_, rest)) => if rest.len() >= 2 {
                    Some(rest.skip(2))
                } else {
                    None
                },
                None => None,
            },
            None => None,
        },
        None => None,
    }
}

/// The ticket that the Kerberos credential `blob` carries, if it decodes.
pub open spec fn kerberos5_ticket(blob: Seq<u8>) -> Option<TicketView> {
    match ap_req_bytes(blob) {
        Some(bytes) => ap_req_ticket(bytes),
        None => None,
    }
}

/// Decodes the Kerberos credential `blob` down to its ticket.
pub fn parse_kerberos5_request(blob: &[u8]) -> (ticket: Option<Kerberos5Ticket>)
    ensures
        ticket_view(ticket) == kerberos5_ticket(blob@),
{
    let outer = match parse_der(blob) {
        Some((outer, _)) => outer,
        None => {
            return None;
        },
    };
    let content = match outer.as_slice() {
        Some(content) => content,
        None => {
            return None;
        },
    };
    let rest = match parse_der_oid(content) {
        Some((_, rest)) => rest,
        None => {
            return None;
        },
    };
    if rest.len() < 2 {
        return None;
    }
    parse_ap_req(slice_subrange(rest.as_slice(), 2, rest.len()))
}

} // verus!
