//! FIX-over-TLS (FIXS): the TLS settings that the FIXS guidelines recommend.

use crate::fixs::iana2openssl::{iana_to_openssl, spec_iana_to_openssl};
use vstd::prelude::*;

pub mod iana2openssl;

verus! {

/// Which version of FIX-over-TLS (FIXS) to use.
#[derive(Debug, Copy, Clone, PartialEq, Eq, Structural)]
pub enum Version {
    V1Draft,
}

/// A version of the TLS protocol.
#[derive(Debug, Copy, Clone, PartialEq, Eq, Structural)]
pub enum TlsVersion {
    Tls1_1,
    Tls1_2,
}

/// The settings of a TLS context, for a connector or for an acceptor.
#[derive(Debug, Clone, PartialEq, Eq)]
pub struct TlsSettings {
    /// The oldest version of TLS that is accepted.
    pub min_proto_version: TlsVersion,
    /// The newest version of TLS that is accepted.
    pub max_proto_version: TlsVersion,
    /// Whether sessions are cached on the side of the server.
    pub server_session_cache: bool,
    /// Whether the order of the server decides among the ciphersuites that
    /// both sides have.
    pub cipher_server_preference: bool,
    /// Whether compression is switched off.
    pub no_compression: bool,
    /// Whether a session is never resumed when the connection is negotiated
    /// anew.
    pub no_session_resumption_on_renegotiation: bool,
    /// Whether TLS 1.3 is switched off.
    pub no_tlsv1_3: bool,
    /// The ciphersuites that are accepted, by the names that OpenSSL gives
    /// them, most preferred first.
    pub cipher_list: Vec<&'static str>,
}

/// The texts of `names`, in their order.
pub open spec fn texts(names: Seq<&'static str>) -> Seq<Seq<char>> {
    Seq::new(names.len(), |i: int| names[i]@)
}

/// The ciphersuites that FIXS recommends where no pre-shared key is used, by
/// the names that IANA gives them.
pub open spec fn spec_cs_without_psk() -> Seq<Seq<char>> {
    seq![
        "TLS_ECDHE_ECDSA_WITH_AES_128_GCM_SHA256"@,
        "TLS_ECDHE_ECDSA_WITH_AES_256_GCM_SHA384"@,
        "TLS_ECDHE_ECDSA_WITH_AES_128_CBC_SHA"@,
        "TLS_ECDHE_ECDSA_WITH_AES_256_CBC_SHA"@,
        "TLS_ECDHE_ECDSA_WITH_AES_128_CBC_SHA256"@,
        "TLS_ECDHE_ECDSA_WITH_AES_256_CBC_SHA384"@,
        "TLS_ECDHE_RSA_WITH_AES_128_GCM_SHA256"@,
        "TLS_DHE_RSA_WITH_AES_128_GCM_SHA256"@,
        "TLS_ECDHE_RSA_WITH_AES_256_GCM_SHA384"@,
        "TLS_DHE_RSA_WITH_AES_256_GCM_SHA384"@,
        "TLS_ECDHE_RSA_WITH_AES_128_CBC_SHA"@,
        "TLS_DHE_RSA_WITH_AES_128_CBC_SHA"@,
        "TLS_ECDHE_RSA_WITH_AES_256_CBC_SHA"@,
        "TLS_DHE_RSA_WITH_AES_256_CBC_SHA"@,
        "TLS_ECDHE_RSA_WITH_AES_128_CBC_SHA256"@,
        "TLS_DHE_RSA_WITH_AES_128_CBC_SHA256"@,
        "TLS_DHE_RSA_WITH_AES_256_CBC_SHA256"@,
        "TLS_ECDHE_RSA_WITH_AES_256_CBC_SHA384"@,
    ]
}

/// The ciphersuites that FIXS recommends only where a pre-shared key is used,
/// by the names that IANA gives them.
pub open spec fn spec_cs_psk_only() -> Seq<Seq<char>> {
    seq![
        "TLS_DHE_PSK_WITH_AES_128_GCM_SHA256"@,
        "TLS_DHE_PSK_WITH_AES_256_GCM_SHA384"@,
        "TLS_ECDHE_PSK_WITH_AES_128_CBC_SHA"@,
        "TLS_DHE_PSK_WITH_AES_128_CBC_SHA"@,
        "TLS_ECDHE_PSK_WITH_AES_256_CBC_SHA"@,
        "TLS_DHE_PSK_WITH_AES_256_CBC_SHA"@,
        "TLS_ECDHE_PSK_WITH_AES_128_CBC_SHA256"@,
        "TLS_DHE_PSK_WITH_AES_128_CBC_SHA256"@,
        "TLS_ECDHE_PSK_WITH_AES_256_CBC_SHA384"@,
        "TLS_DHE_PSK_WITH_AES_256_CBC_SHA384"@,
    ]
}

/// The ciphersuites that `version` recommends, by the names that IANA gives
/// them: with `psk`, those for pre-shared keys come behind the others.
pub open spec fn spec_cs_iana(version: Version, psk: bool) -> Seq<Seq<char>> {
    if psk {
        spec_cs_without_psk() + spec_cs_psk_only()
    } else {
        spec_cs_without_psk()
    }
}

/// The ciphersuites that `version` recommends, by the names that OpenSSL
/// gives them: the names of IANA, each turned into that of OpenSSL.
pub open spec fn spec_cs_openssl(version: Version, psk: bool) -> Seq<Seq<char>> {
    Seq::new(
        spec_cs_iana(version, psk).len(),
        |i: int| spec_iana_to_openssl(spec_cs_iana(version, psk)[i])->0,
    )
}

/// OpenSSL has a name for every ciphersuite that FIXS recommends.
pub proof fn lemma_recommended_are_known(version: Version, psk: bool, i: int)
    requires
        0 <= i < spec_cs_iana(version, psk).len(),
    ensures
        spec_iana_to_openssl(spec_cs_iana(version, psk)[i]) is Some,
{
    reveal_strlit("TLS_ECDHE_ECDSA_WITH_AES_128_GCM_SHA256");
    reveal_strlit("TLS_ECDHE_ECDSA_WITH_AES_256_GCM_SHA384");
    reveal_strlit("TLS_ECDHE_ECDSA_WITH_AES_128_CBC_SHA");
    reveal_strlit("TLS_ECDHE_ECDSA_WITH_AES_256_CBC_SHA");
    reveal_strlit("TLS_ECDHE_ECDSA_WITH_AES_128_CBC_SHA256");
    reveal_strlit("TLS_ECDHE_ECDSA_WITH_AES_256_CBC_SHA384");
    reveal_strlit("TLS_ECDHE_RSA_WITH_AES_128_GCM_SHA256");
    reveal_strlit("TLS_DHE_RSA_WITH_AES_128_GCM_SHA256");
    reveal_strlit("TLS_ECDHE_RSA_WITH_AES_256_GCM_SHA384");
    reveal_strlit("TLS_DHE_RSA_WITH_AES_256_GCM_SHA384");
    reveal_strlit("TLS_ECDHE_RSA_WITH_AES_128_CBC_SHA");
    reveal_strlit("TLS_DHE_RSA_WITH_AES_128_CBC_SHA");
    reveal_strlit("TLS_ECDHE_RSA_WITH_AES_256_CBC_SHA");
    reveal_strlit("TLS_DHE_RSA_WITH_AES_256_CBC_SHA");
    reveal_strlit("TLS_ECDHE_RSA_WITH_AES_128_CBC_SHA256");
    reveal_strlit("TLS_DHE_RSA_WITH_AES_128_CBC_SHA256");
    reveal_strlit("TLS_DHE_RSA_WITH_AES_256_CBC_SHA256");
    reveal_strlit("TLS_ECDHE_RSA_WITH_AES_256_CBC_SHA384");
    reveal_strlit("TLS_DHE_PSK_WITH_AES_128_GCM_SHA256");
    reveal_strlit("TLS_DHE_PSK_WITH_AES_256_GCM_SHA384");
    reveal_strlit("TLS_ECDHE_PSK_WITH_AES_128_CBC_SHA");
    reveal_strlit("TLS_DHE_PSK_WITH_AES_128_CBC_SHA");
    reveal_strlit("TLS_ECDHE_PSK_WITH_AES_256_CBC_SHA");
    reveal_strlit("TLS_DHE_PSK_WITH_AES_256_CBC_SHA");
    reveal_strlit("TLS_ECDHE_PSK_WITH_AES_128_CBC_SHA256");
    reveal_strlit("TLS_DHE_PSK_WITH_AES_128_CBC_SHA256");
    reveal_strlit("TLS_ECDHE_PSK_WITH_AES_256_CBC_SHA384");
    reveal_strlit("TLS_DHE_PSK_WITH_AES_256_CBC_SHA384");
}

impl Version {
    /// Returns the ciphersuites that `self` recommends for TLS, by the names
    /// that IANA gives them. With `psk`, those for pre-shared keys are
    /// included, behind the others.
    pub fn recommended_cs_iana(&self, psk: bool) -> (names: Vec<&'static str>)
        ensures
            texts(names@) == spec_cs_iana(*self, psk),
    {
        let mut names: Vec<&'static str> = vec![
            "TLS_ECDHE_ECDSA_WITH_AES_128_GCM_SHA256",
            "TLS_ECDHE_ECDSA_WITH_AES_256_GCM_SHA384",
            "TLS_ECDHE_ECDSA_WITH_AES_128_CBC_SHA",
            "TLS_ECDHE_ECDSA_WITH_AES_256_CBC_SHA",
            "TLS_ECDHE_ECDSA_WITH_AES_128_CBC_SHA256",
            "TLS_ECDHE_ECDSA_WITH_AES_256_CBC_SHA384",
            "TLS_ECDHE_RSA_WITH_AES_128_GCM_SHA256",
            "TLS_DHE_RSA_WITH_AES_128_GCM_SHA256",
            "TLS_ECDHE_RSA_WITH_AES_256_GCM_SHA384",
            "TLS_DHE_RSA_WITH_AES_256_GCM_SHA384",
            "TLS_ECDHE_RSA_WITH_AES_128_CBC_SHA",
            "TLS_DHE_RSA_WITH_AES_128_CBC_SHA",
            "TLS_ECDHE_RSA_WITH_AES_256_CBC_SHA",
            "TLS_DHE_RSA_WITH_AES_256_CBC_SHA",
            "TLS_ECDHE_RSA_WITH_AES_128_CBC_SHA256",
            "TLS_DHE_RSA_WITH_AES_128_CBC_SHA256",
            "TLS_DHE_RSA_WITH_AES_256_CBC_SHA256",
            "TLS_ECDHE_RSA_WITH_AES_256_CBC_SHA384",
        ];
        proof {
            assert(texts(names@) =~= spec_cs_without_psk());
        }
        if psk {
            let mut psk_only: Vec<&'static str> = vec![
                "TLS_DHE_PSK_WITH_AES_128_GCM_SHA256",
                "TLS_DHE_PSK_WITH_AES_256_GCM_SHA384",
                "TLS_ECDHE_PSK_WITH_AES_128_CBC_SHA",
                "TLS_DHE_PSK_WITH_AES_128_CBC_SHA",
                "TLS_ECDHE_PSK_WITH_AES_256_CBC_SHA",
                "TLS_DHE_PSK_WITH_AES_256_CBC_SHA",
                "TLS_ECDHE_PSK_WITH_AES_128_CBC_SHA256",
                "TLS_DHE_PSK_WITH_AES_128_CBC_SHA256",
                "TLS_ECDHE_PSK_WITH_AES_256_CBC_SHA384",
                "TLS_DHE_PSK_WITH_AES_256_CBC_SHA384",
            ];
            proof {
                assert(texts(psk_only@) =~= spec_cs_psk_only());
            }
            let ghost without = names@;
            let ghost only = psk_only@;
            names.append(&mut psk_only);
            proof {
                assert(texts(names@) =~= texts(without) + texts(only));
            }
        }
        names
    }

    /// Returns the ciphersuites that `self` recommends for TLS, by the names
    /// that OpenSSL gives them, as in a list for `openssl-ciphers`.
    pub fn recommended_cs_openssl(&self, psk: bool) -> (names: Vec<&'static str>)
        ensures
            texts(names@) == spec_cs_openssl(*self, psk),
    {
        let iana: Vec<&'static str> = self.recommended_cs_iana(psk);
        let mut names: Vec<&'static str> = Vec::new();
        let mut i: usize = 0;
        while i < iana.len()
            invariant
                i <= iana@.len(),
                texts(iana@) == spec_cs_iana(*self, psk),
                names@.len() == i,
                forall|k: int|
                    0 <= k < i ==> spec_iana_to_openssl(spec_cs_iana(*self, psk)[k]) == Some(
                        (#[trigger] names@[k])@,
                    ),
            decreases iana@.len() - i,
        {
            proof {
                assert(texts(iana@)[i as int] == iana@[i as int]@);
                lemma_recommended_are_known(*self, psk, i as int);
            }
            match iana_to_openssl(iana[i]) {
                Some(name) => {
                    names.push(name);
                },
                None => {},
            }
            i += 1;
        }
        proof {
            assert(texts(names@) =~= spec_cs_openssl(*self, psk));
        }
        names
    }

    /// Returns the settings that `self` recommends for the TLS context of the
    /// side that connects: TLS 1.1 or 1.2, the recommended ciphersuites for
    /// use without pre-shared keys, no compression, and no resumption of a
    /// session on renegotiation.
    pub fn recommended_connector_builder(&self) -> (settings: TlsSettings)
        ensures
            settings.min_proto_version == TlsVersion::Tls1_1,
            settings.max_proto_version == TlsVersion::Tls1_2,
            settings.server_session_cache,
            !settings.cipher_server_preference,
            settings.no_compression,
            settings.no_session_resumption_on_renegotiation,
            settings.no_tlsv1_3,
            texts(settings.cipher_list@) == spec_cs_openssl(*self, false),
    {
        TlsSettings {
            min_proto_version: TlsVersion::Tls1_1,
            max_proto_version: TlsVersion::Tls1_2,
            server_session_cache: true,
            cipher_server_preference: false,
            no_compression: true,
            no_session_resumption_on_renegotiation: true,
            no_tlsv1_3: true,
            cipher_list: self.recommended_cs_openssl(false),
        }
    }

    /// Returns the settings that `self` recommends for the TLS context of the
    /// side that accepts connections: those of the connector, and the order
    /// of the server decides among the ciphersuites.
    pub fn recommended_acceptor_builder(&self) -> (settings: TlsSettings)
        ensures
            settings.min_proto_version == TlsVersion::Tls1_1,
            settings.max_proto_version == TlsVersion::Tls1_2,
            settings.server_session_cache,
            settings.cipher_server_preference,
            settings.no_compression,
            settings.no_session_resumption_on_renegotiation,
            settings.no_tlsv1_3,
            texts(settings.cipher_list@) == spec_cs_openssl(*self, false),
    {
        TlsSettings {
            min_proto_version: TlsVersion::Tls1_1,
            max_proto_version: TlsVersion::Tls1_2,
            server_session_cache: true,
            cipher_server_preference: true,
            no_compression: true,
            no_session_resumption_on_renegotiation: true,
            no_tlsv1_3: true,
            cipher_list: self.recommended_cs_openssl(false),
        }
    }
}

} // verus!
