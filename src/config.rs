use vstd::prelude::*;
use vstd::string::*;

verus! {

/// Settings of the DNS provider's REST API.
pub struct CloudflareConfig {
    pub api_token: String,
    pub zone_id: String,
    /// URL of the zone's record collection, with `{zone_id}` where the zone id goes.
    pub api_base_url: String,
    pub dns_record_ttl: u32,
}

/// Where issued certificates and keys are written.
pub struct StorageConfig {
    pub certs_base_path: String,
    pub cert_file_name: String,
    pub key_file_name: String,
}

/// External Account Binding credentials handed out by the CA.
pub struct EabConfig {
    pub key_id: String,
    /// The MAC key, base64url without padding.
    pub mac_key: String,
}

/// Settings of the ACME side of issuance.
pub struct AcmeConfig {
    pub ca_url: String,
    pub email: String,
    pub eab: EabConfig,
    pub domains: Vec<String>,
    pub renewal_interval_days: u64,
}

pub const SECONDS_PER_DAY: u64 = 86400;

pub open spec fn renewal_period_spec(days: u64) -> int {
    days as int * SECONDS_PER_DAY as int
}

/// The renewal period in seconds, or `None` when it does not fit in a `u64`.
pub fn renewal_period_secs(days: u64) -> (r: Option<u64>)
    ensures
        renewal_period_spec(days) <= u64::MAX ==> r == Some(renewal_period_spec(days) as u64),
        renewal_period_spec(days) > u64::MAX ==> r is None,
{
    days.checked_mul(SECONDS_PER_DAY)
}

pub open spec fn contact_spec(email: Seq<char>) -> Seq<char> {
    "mailto:"@ + email
}

/// The account contact URI for an e-mail address.
pub fn contact_uri(email: &str) -> (r: String)
    ensures
        r@ == contact_spec(email@),
{
    let mut r = String::from_str("mailto:");
    r.append(email);
    r
}

} // verus!
