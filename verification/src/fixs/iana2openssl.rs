//! The names that OpenSSL gives to the ciphersuites that FIXS recommends.

use crate::dt::same_text;
use vstd::prelude::*;

verus! {

/// The name that OpenSSL gives to the ciphersuite that IANA calls `name`,
/// for the ciphersuites listed here.
pub open spec fn spec_iana_to_openssl(name: Seq<char>) -> Option<Seq<char>> {
    if name == "TLS_ECDHE_ECDSA_WITH_AES_128_GCM_SHA256"@ {
        Some("ECDHE-ECDSA-AES128-GCM-SHA256"@)
    } else if name == "TLS_ECDHE_ECDSA_WITH_AES_256_GCM_SHA384"@ {
        Some("ECDHE-ECDSA-AES256-GCM-SHA384"@)
    } else if name == "TLS_ECDHE_ECDSA_WITH_AES_128_CBC_SHA"@ {
        Some("ECDHE-ECDSA-AES128-SHA"@)
    } else if name == "TLS_ECDHE_ECDSA_WITH_AES_256_CBC_SHA"@ {
        Some("ECDHE-ECDSA-AES256-SHA"@)
    } else if name == "TLS_ECDHE_ECDSA_WITH_AES_128_CBC_SHA256"@ {
        Some("ECDHE-ECDSA-AES128-SHA256"@)
    } else if name == "TLS_ECDHE_ECDSA_WITH_AES_256_CBC_SHA384"@ {
        Some("ECDHE-ECDSA-AES256-SHA384"@)
    } else if name == "TLS_ECDHE_RSA_WITH_AES_128_GCM_SHA256"@ {
        Some("ECDHE-RSA-AES128-GCM-SHA256"@)
    } else if name == "TLS_DHE_RSA_WITH_AES_128_GCM_SHA256"@ {
        Some("DHE-RSA-AES128-GCM-SHA256"@)
    } else if name == "TLS_ECDHE_RSA_WITH_AES_256_GCM_SHA384"@ {
        Some("ECDHE-RSA-AES256-GCM-SHA384"@)
    } else if name == "TLS_DHE_RSA_WITH_AES_256_GCM_SHA384"@ {
        Some("DHE-RSA-AES256-GCM-SHA384"@)
    } else if name == "TLS_ECDHE_RSA_WITH_AES_128_CBC_SHA"@ {
        Some("ECDHE-RSA-AES128-SHA"@)
    } else if name == "TLS_DHE_RSA_WITH_AES_128_CBC_SHA"@ {
        Some("DHE-RSA-AES128-SHA"@)
    } else if name == "TLS_ECDHE_RSA_WITH_AES_256_CBC_SHA"@ {
        Some("ECDHE-RSA-AES256-SHA"@)
    } else if name == "TLS_DHE_RSA_WITH_AES_256_CBC_SHA"@ {
        Some("DHE-RSA-AES256-SHA"@)
    } else if name == "TLS_ECDHE_RSA_WITH_AES_128_CBC_SHA256"@ {
        Some("ECDHE-RSA-AES128-SHA256"@)
    } else if name == "TLS_DHE_RSA_WITH_AES_128_CBC_SHA256"@ {
        Some("DHE-RSA-AES128-SHA256"@)
    } else if name == "TLS_DHE_RSA_WITH_AES_256_CBC_SHA256"@ {
        Some("DHE-RSA-AES256-SHA256"@)
    } else if name == "TLS_ECDHE_RSA_WITH_AES_256_CBC_SHA384"@ {
        Some("ECDHE-RSA-AES256-SHA384"@)
    } else if name == "TLS_DHE_PSK_WITH_AES_128_GCM_SHA256"@ {
        Some("DHE-PSK-AES128-GCM-SHA256"@)
    } else if name == "TLS_DHE_PSK_WITH_AES_256_GCM_SHA384"@ {
        Some("DHE-PSK-AES256-GCM-SHA384"@)
    } else if name == "TLS_ECDHE_PSK_WITH_AES_128_CBC_SHA"@ {
        Some("ECDHE-PSK-AES128-CBC-SHA"@)
    } else if name == "TLS_DHE_PSK_WITH_AES_128_CBC_SHA"@ {
        Some("DHE-PSK-AES128-CBC-SHA"@)
    } else if name == "TLS_ECDHE_PSK_WITH_AES_256_CBC_SHA"@ {
        Some("ECDHE-PSK-AES256-CBC-SHA"@)
    } else if name == "TLS_DHE_PSK_WITH_AES_256_CBC_SHA"@ {
        Some("DHE-PSK-AES256-CBC-SHA"@)
    } else if name == "TLS_ECDHE_PSK_WITH_AES_128_CBC_SHA256"@ {
        Some("ECDHE-PSK-AES128-CBC-SHA256"@)
    } else if name == "TLS_DHE_PSK_WITH_AES_128_CBC_SHA256"@ {
        Some("DHE-PSK-AES128-CBC-SHA256"@)
    } else if name == "TLS_ECDHE_PSK_WITH_AES_256_CBC_SHA384"@ {
        Some("ECDHE-PSK-AES256-CBC-SHA384"@)
    } else if name == "TLS_DHE_PSK_WITH_AES_256_CBC_SHA384"@ {
        Some("DHE-PSK-AES256-CBC-SHA384"@)
    } else {
        None
    }
}

/// Returns the name that OpenSSL gives to the ciphersuite that IANA calls
/// `name`, or `None` if the ciphersuite is not listed here.
pub fn iana_to_openssl(name: &str) -> (openssl: Option<&'static str>)
    ensures
        match spec_iana_to_openssl(name@) {
            Some(expected) => openssl is Some && openssl->0@ == expected,
            None => openssl is None,
        },
{
    if same_text(name, "TLS_ECDHE_ECDSA_WITH_AES_128_GCM_SHA256") {
        Some("ECDHE-ECDSA-AES128-GCM-SHA256")
    } else if same_text(name, "TLS_ECDHE_ECDSA_WITH_AES_256_GCM_SHA384") {
        Some("ECDHE-ECDSA-AES256-GCM-SHA384")
    } else if same_text(name, "TLS_ECDHE_ECDSA_WITH_AES_128_CBC_SHA") {
        Some("ECDHE-ECDSA-AES128-SHA")
    } else if same_text(name, "TLS_ECDHE_ECDSA_WITH_AES_256_CBC_SHA") {
        Some("ECDHE-ECDSA-AES256-SHA")
    } else if same_text(name, "TLS_ECDHE_ECDSA_WITH_AES_128_CBC_SHA256") {
        Some("ECDHE-ECDSA-AES128-SHA256")
    } else if same_text(name, "TLS_ECDHE_ECDSA_WITH_AES_256_CBC_SHA384") {
        Some("ECDHE-ECDSA-AES256-SHA384")
    } else if same_text(name, "TLS_ECDHE_RSA_WITH_AES_128_GCM_SHA256") {
        Some("ECDHE-RSA-AES128-GCM-SHA256")
    } else if same_text(name, "TLS_DHE_RSA_WITH_AES_128_GCM_SHA256") {
        Some("DHE-RSA-AES128-GCM-SHA256")
    } else if same_text(name, "TLS_ECDHE_RSA_WITH_AES_256_GCM_SHA384") {
        Some("ECDHE-RSA-AES256-GCM-SHA384")
    } else if same_text(name, "TLS_DHE_RSA_WITH_AES_256_GCM_SHA384") {
        Some("DHE-RSA-AES256-GCM-SHA384")
    } else if same_text(name, "TLS_ECDHE_RSA_WITH_AES_128_CBC_SHA") {
        Some("ECDHE-RSA-AES128-SHA")
    } else if same_text(name, "TLS_DHE_RSA_WITH_AES_128_CBC_SHA") {
        Some("DHE-RSA-AES128-SHA")
    } else if same_text(name, "TLS_ECDHE_RSA_WITH_AES_256_CBC_SHA") {
        Some("ECDHE-RSA-AES256-SHA")
    } else if same_text(name, "TLS_DHE_RSA_WITH_AES_256_CBC_SHA") {
        Some("DHE-RSA-AES256-SHA")
    } else if same_text(name, "TLS_ECDHE_RSA_WITH_AES_128_CBC_SHA256") {
        Some("ECDHE-RSA-AES128-SHA256")
    } else if same_text(name, "TLS_DHE_RSA_WITH_AES_128_CBC_SHA256") {
        Some("DHE-RSA-AES128-SHA256")
    } else if same_text(name, "TLS_DHE_RSA_WITH_AES_256_CBC_SHA256") {
        Some("DHE-RSA-AES256-SHA256")
    } else if same_text(name, "TLS_ECDHE_RSA_WITH_AES_256_CBC_SHA384") {
        Some("ECDHE-RSA-AES256-SHA384")
    } else if same_text(name, "TLS_DHE_PSK_WITH_AES_128_GCM_SHA256") {
        Some("DHE-PSK-AES128-GCM-SHA256")
    } else if same_text(name, "TLS_DHE_PSK_WITH_AES_256_GCM_SHA384") {
        Some("DHE-PSK-AES256-GCM-SHA384")
    } else if same_text(name, "TLS_ECDHE_PSK_WITH_AES_128_CBC_SHA") {
        Some("ECDHE-PSK-AES128-CBC-SHA")
    } else if same_text(name, "TLS_DHE_PSK_WITH_AES_128_CBC_SHA") {
        Some("DHE-PSK-AES128-CBC-SHA")
    } else if same_text(name, "TLS_ECDHE_PSK_WITH_AES_256_CBC_SHA") {
        Some("ECDHE-PSK-AES256-CBC-SHA")
    } else if same_text(name, "TLS_DHE_PSK_WITH_AES_256_CBC_SHA") {
        Some("DHE-PSK-AES256-CBC-SHA")
    } else if same_text(name, "TLS_ECDHE_PSK_WITH_AES_128_CBC_SHA256") {
        Some("ECDHE-PSK-AES128-CBC-SHA256")
    } else if same_text(name, "TLS_DHE_PSK_WITH_AES_128_CBC_SHA256") {
        Some("DHE-PSK-AES128-CBC-SHA256")
    } else if same_text(name, "TLS_ECDHE_PSK_WITH_AES_256_CBC_SHA384") {
        Some("ECDHE-PSK-AES256-CBC-SHA384")
    } else if same_text(name, "TLS_DHE_PSK_WITH_AES_256_CBC_SHA384") {
        Some("DHE-PSK-AES256-CBC-SHA384")
    } else {
        None
    }
}

} // verus!
