use vstd::prelude::*;
use vstd::string::*;
use crate::config::CloudflareConfig;

verus! {

/// Failures of the DNS provider's API.
pub enum DnsError {
    /// The provider answered with a non-success HTTP status.
    Provider { status: u16, body: String },
    /// The record listing did not hold a list of records.
    MalformedListing,
}

pub open spec fn challenge_name(domain: Seq<char>) -> Seq<char> {
    "_acme-challenge."@ + domain
}

/// Name of the TXT record that carries the DNS-01 proof for `domain`.
pub fn challenge_record_name(domain: &str) -> (r: String)
    ensures
        r@ == challenge_name(domain@),
{
    let mut r = String::from_str("_acme-challenge.");
    r.append(domain);
    r
}

pub open spec fn bearer_spec(token: Seq<char>) -> Seq<char> {
    "Bearer "@ + token
}

/// Value of the `Authorization` header for an API token.
pub fn bearer_header(token: &str) -> (r: String)
    ensures
        r@ == bearer_spec(token@),
{
    let mut r = String::from_str("Bearer ");
    r.append(token);
    r
}

/// `s` with every match of a non-empty `from` replaced by `to`, matches taken
/// left to right without overlap.
pub open spec fn replace_all_of(s: Seq<char>, from: Seq<char>, to: Seq<char>) -> Seq<char>
    decreases s.len(),
{
    if from.len() == 0 || s.len() < from.len() {
        s
    } else if s.subrange(0, from.len() as int) == from {
        to + replace_all_of(s.subrange(from.len() as int, s.len() as int), from, to)
    } else {
        seq![s[0]] + replace_all_of(s.subrange(1, s.len() as int), from, to)
    }
}

/// Relies on str::replace: every non-overlapping match of `from`, from the
/// left, replaced by `to`.
#[verifier::external_body]
fn replace_all(s: &str, from: &str, to: &str) -> (r: String)
    requires
        from@.len() > 0,
    ensures
        r@ == replace_all_of(s@, from@, to@),
{
    s.replace(from, to)
}

/// A create request for a TXT record, ready to be sent.
pub struct CreateRecordRequest {
    pub url: String,
    pub authorization: String,
    pub name: String,
    pub content: String,
    pub ttl: u32,
}

/// The request that publishes `txt_value` as the challenge record of `domain`.
pub fn create_record_request(domain: &str, txt_value: &str, cfg: &CloudflareConfig) -> (r:
    CreateRecordRequest)
    ensures
        r.url@ == replace_all_of(cfg.api_base_url@, "{zone_id}"@, cfg.zone_id@),
        r.authorization@ == bearer_spec(cfg.api_token@),
        r.name@ == challenge_name(domain@),
        r.content@ == txt_value@,
        r.ttl == cfg.dns_record_ttl,
{
    proof {
        reveal_strlit("{zone_id}");
    }
    CreateRecordRequest {
        url: replace_all(cfg.api_base_url.as_str(), "{zone_id}", cfg.zone_id.as_str()),
        authorization: bearer_header(cfg.api_token.as_str()),
        name: challenge_record_name(domain),
        content: String::from_str(txt_value),
        ttl: cfg.dns_record_ttl,
    }
}

pub open spec fn is_success_status(status: u16) -> bool {
    200 <= status <= 299
}

/// Outcome of a create call from the provider's HTTP status and body.
pub fn create_outcome(status: u16, body: String) -> (r: Result<(), DnsError>)
    ensures
        is_success_status(status) ==> r is Ok,
        !is_success_status(status) ==> r == Err::<(), DnsError>(
            DnsError::Provider { status, body },
        ),
{
    if 200 <= status && status <= 299 {
        Ok(())
    } else {
        Err(DnsError::Provider { status, body })
    }
}

pub open spec fn zones_prefix() -> Seq<char> {
    "https://api.cloudflare.com/client/v4/zones/"@
}

pub open spec fn list_url_spec(zone_id: Seq<char>, record_name: Seq<char>) -> Seq<char> {
    zones_prefix() + zone_id + "/dns_records?type=TXT&name="@ + record_name
}

/// URL that lists the TXT records named `record_name` in a zone.
pub fn list_records_url(zone_id: &str, record_name: &str) -> (r: String)
    ensures
        r@ == list_url_spec(zone_id@, record_name@),
{
    let mut r = String::from_str("https://api.cloudflare.com/client/v4/zones/");
    r.append(zone_id);
    r.append("/dns_records?type=TXT&name=");
    r.append(record_name);
    r
}

pub open spec fn delete_url_spec(zone_id: Seq<char>, id: Seq<char>) -> Seq<char> {
    zones_prefix() + zone_id + "/dns_records/"@ + id
}

/// URL that deletes the record with provider id `id`.
pub fn delete_record_url(zone_id: &str, id: &str) -> (r: String)
    ensures
        r@ == delete_url_spec(zone_id@, id@),
{
    let mut r = String::from_str("https://api.cloudflare.com/client/v4/zones/");
    r.append(zone_id);
    r.append("/dns_records/");
    r.append(id);
    r
}

/// One entry of a record listing; a field is `None` where the entry lacks it
/// or holds something other than a string.
pub struct ListedRecord {
    pub id: Option<String>,
    pub content: Option<String>,
}

pub open spec fn deletes(r: ListedRecord, value: Seq<char>) -> bool {
    &&& r.content is Some
    &&& r.content->0@ == value
    &&& r.id is Some
}

/// Ids of the listed records whose content is exactly `value`, in listing order.
pub open spec fn matching_ids(recs: Seq<ListedRecord>, value: Seq<char>) -> Seq<Seq<char>>
    decreases recs.len(),
{
    if recs.len() == 0 {
        seq![]
    } else {
        let rest = matching_ids(recs.drop_last(), value);
        if deletes(recs.last(), value) {
            rest.push(recs.last().id->0@)
        } else {
            rest
        }
    }
}

pub open spec fn views(v: Seq<String>) -> Seq<Seq<char>> {
    v.map_values(|s: String| s@)
}

/// The ids to delete when cleaning up the record with content `txt_value`:
/// every listed record whose content equals it, and no other. A listing that
/// is absent is an error; one with no match gives no ids.
pub fn records_to_delete(listing: &Option<Vec<ListedRecord>>, txt_value: &str) -> (r: Result<
    Vec<String>,
    DnsError,
>)
    ensures
        listing is None ==> r == Err::<Vec<String>, DnsError>(DnsError::MalformedListing),
        listing is Some ==> r is Ok && views(r->Ok_0@) == matching_ids(listing->0@, txt_value@),
{
    match listing {
        None => Err(DnsError::MalformedListing),
        Some(recs) => {
            let value = String::from_str(txt_value);
            let mut ids: Vec<String> = Vec::new();
            let mut i: usize = 0;
            while i < recs.len()
                invariant
                    i <= recs@.len(),
                    value@ == txt_value@,
                    views(ids@) == matching_ids(recs@.subrange(0, i as int), txt_value@),
                decreases recs@.len() - i,
            {
                let rec = &recs[i];
                proof {
                    assert(recs@.subrange(0, i + 1).drop_last() =~= recs@.subrange(0, i as int));
                }
                match (&rec.content, &rec.id) {
                    (Some(c), Some(id)) => {
                        if *c == value {
                            ids.push(id.clone());
                            assert(views(ids@) =~= views(ids@.drop_last()).push(id@));
                        }
                    },
                    _ => {},
                }
                i = i + 1;
            }
            assert(recs@.subrange(0, recs@.len() as int) =~= recs@);
            Ok(ids)
        },
    }
}

} // verus!
