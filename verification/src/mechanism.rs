//! The registry of security mechanisms that a negotiation may offer, keyed by
//! object identifier.

use crate::text::text_equal;
use vstd::prelude::*;

verus! {

/// The object identifier of SPNEGO itself.
pub const OID_SPNEGO: &'static str = "1.3.6.1.5.5.2";

/// Kerberos 5 as older Microsoft clients spell it.
pub const OID_MS_KERBEROS5: &'static str = "1.2.840.48018.1.2.2";

/// Kerberos 5.
pub const OID_KERBEROS5: &'static str = "1.2.840.113554.1.2.2";

/// The Kerberos 5 name form.
pub const OID_KRB5_NAME: &'static str = "1.2.840.113554.1.2.2.1";

/// The Kerberos 5 principal name form.
pub const OID_KRB5_PRINCIPAL: &'static str = "1.2.840.113554.1.2.2.2";

/// Kerberos 5 user-to-user.
pub const OID_KRB5_USER_TO_USER: &'static str = "1.2.840.113554.1.2.2.3";

/// NTLMSSP.
pub const OID_NTLMSSP: &'static str = "1.3.6.1.4.1.311.2.2.10";

/// NegoEx.
pub const OID_NEGOEX: &'static str = "1.3.6.1.4.1.311.2.2.30";

/// A security mechanism that the registry knows, or `Unknown`.
#[derive(Debug, Clone, Copy, PartialEq, Eq, Structural)]
pub enum Mechanism {
    MicrosoftKerberos5,
    Kerberos5,
    Krb5Name,
    Krb5Principal,
    Krb5UserToUser,
    NTLMSSP,
    NegoEx,
    Unknown,
}

/// The mechanism that the registry holds for an object identifier in
/// dotted-decimal text. The text is compared as it stands.
pub open spec fn mechanism_of(oid: Seq<char>) -> Mechanism {
    if oid == OID_MS_KERBEROS5@ {
        Mechanism::MicrosoftKerberos5
    } else if oid == OID_KERBEROS5@ {
        Mechanism::Kerberos5
    } else if oid == OID_KRB5_NAME@ {
        Mechanism::Krb5Name
    } else if oid == OID_KRB5_PRINCIPAL@ {
        Mechanism::Krb5Principal
    } else if oid == OID_KRB5_USER_TO_USER@ {
        Mechanism::Krb5UserToUser
    } else if oid == OID_NTLMSSP@ {
        Mechanism::NTLMSSP
    } else if oid == OID_NEGOEX@ {
        Mechanism::NegoEx
    } else {
        Mechanism::Unknown
    }
}

impl Mechanism {
    /// Whether an offer of this mechanism announces a Kerberos ticket.
    pub open spec fn spec_offers_kerberos(self) -> bool {
        self == Mechanism::Kerberos5
    }

    /// Whether an offer of this mechanism announces an NTLM message.
    pub open spec fn spec_offers_ntlmssp(self) -> bool {
        self == Mechanism::NTLMSSP
    }

    #[verifier::when_used_as_spec(spec_offers_kerberos)]
    pub fn offers_kerberos(self) -> (yes: bool)
        ensures
            yes == self.spec_offers_kerberos(),
    {
        matches!(self, Mechanism::Kerberos5)
    }

    #[verifier::when_used_as_spec(spec_offers_ntlmssp)]
    pub fn offers_ntlmssp(self) -> (yes: bool)
        ensures
            yes == self.spec_offers_ntlmssp(),
    {
        matches!(self, Mechanism::NTLMSSP)
    }
}

/// Looks an object identifier up in the registry.
pub fn classify(oid: &str) -> (mechanism: Mechanism)
    ensures
        mechanism == mechanism_of(oid@),
{
    if text_equal(oid, OID_MS_KERBEROS5) {
        Mechanism::MicrosoftKerberos5
    } else if text_equal(oid, OID_KERBEROS5) {
        Mechanism::Kerberos5
    } else if text_equal(oid, OID_KRB5_NAME) {
        Mechanism::Krb5Name
    } else if text_equal(oid, OID_KRB5_PRINCIPAL) {
        Mechanism::Krb5Principal
    } else if text_equal(oid, OID_KRB5_USER_TO_USER) {
        Mechanism::Krb5UserToUser
    } else if text_equal(oid, OID_NTLMSSP) {
        Mechanism::NTLMSSP
    } else if text_equal(oid, OID_NEGOEX) {
        Mechanism::NegoEx
    } else {
        Mechanism::Unknown
    }
}

/// The entries of the registry are distinct, so each identifier in it is
/// classified as its own mechanism.
pub proof fn registry_entries()
    ensures
        mechanism_of(OID_MS_KERBEROS5@) == Mechanism::MicrosoftKerberos5,
        mechanism_of(OID_KERBEROS5@) == Mechanism::Kerberos5,
        mechanism_of(OID_KRB5_NAME@) == Mechanism::Krb5Name,
        mechanism_of(OID_KRB5_PRINCIPAL@) == Mechanism::Krb5Principal,
        mechanism_of(OID_KRB5_USER_TO_USER@) == Mechanism::Krb5UserToUser,
        mechanism_of(OID_NTLMSSP@) == Mechanism::NTLMSSP,
        mechanism_of(OID_NEGOEX@) == Mechanism::NegoEx,
        mechanism_of(OID_SPNEGO@) == Mechanism::Unknown,
{
    reveal_strlit("1.3.6.1.5.5.2");
    reveal_strlit("1.2.840.48018.1.2.2");
    reveal_strlit("1.2.840.113554.1.2.2");
    reveal_strlit("1.2.840.113554.1.2.2.1");
    reveal_strlit("1.2.840.113554.1.2.2.2");
    reveal_strlit("1.2.840.113554.1.2.2.3");
    reveal_strlit("1.3.6.1.4.1.311.2.2.10");
    reveal_strlit("1.3.6.1.4.1.311.2.2.30");
    assert(OID_SPNEGO@.len() == 13);
    assert(OID_MS_KERBEROS5@.len() == 19);
    assert(OID_KERBEROS5@.len() == 20);
    assert(OID_KRB5_NAME@.len() == 22 && OID_KRB5_NAME@[21] == '1');
    assert(OID_KRB5_PRINCIPAL@.len() == 22 && OID_KRB5_PRINCIPAL@[21] == '2');
    assert(OID_KRB5_USER_TO_USER@.len() == 22 && OID_KRB5_USER_TO_USER@[21] == '3');
    assert(OID_NTLMSSP@.len() == 22 && OID_NTLMSSP@[2] == '3' && OID_NTLMSSP@[20] == '1');
    assert(OID_NEGOEX@.len() == 22 && OID_NEGOEX@[2] == '3' && OID_NEGOEX@[20] == '3');
    assert(OID_KRB5_NAME@[2] == '2' && OID_KRB5_PRINCIPAL@[2] == '2' && OID_KRB5_USER_TO_USER@[2]
        == '2');
}

} // verus!
