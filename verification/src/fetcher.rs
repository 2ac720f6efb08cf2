//! How the archive is fetched: through which proxies.
//!
//! The request itself is the caller's work. What is decided here is which
//! proxies it goes through: one for each of the two schemes whose address is
//! configured and well-formed. A malformed address is passed over and never
//! fails the fetch.

use crate::cache::Cache;
use crate::text::optional_text;
use vstd::prelude::*;

verus! {

/// `reqwest::Proxy`: where the traffic of one scheme is sent instead of to
/// its destination. The library hands such a value on and never looks
/// inside.
#[verifier::external_type_specification]
#[verifier::external_body]
pub struct ExProxy(reqwest::Proxy);

/// The proxy for plain HTTP traffic that `reqwest::Proxy::http` makes of an
/// address, or `None` where it refuses the address.
pub uninterp spec fn http_proxy(address: Seq<char>) -> Option<reqwest::Proxy>;

/// The proxy for HTTPS traffic that `reqwest::Proxy::https` makes of an
/// address, or `None` where it refuses the address.
pub uninterp spec fn https_proxy(address: Seq<char>) -> Option<reqwest::Proxy>;

/// Calls `reqwest::Proxy::http`, which parses the address as a URL and
/// builds the proxy from it. Believed without proof: the outcome depends on
/// the address alone, and an address that is refused gives `None`.
#[verifier::external_body]
fn parse_http_proxy(address: &str) -> (proxy: Option<reqwest::Proxy>)
    ensures
        proxy == http_proxy(address@),
{
    reqwest::Proxy::http(address).ok()
}

/// Calls `reqwest::Proxy::https`, which parses the address as a URL and
/// builds the proxy from it. Believed without proof: the outcome depends on
/// the address alone, and an address that is refused gives `None`.
#[verifier::external_body]
fn parse_https_proxy(address: &str) -> (proxy: Option<reqwest::Proxy>)
    ensures
        proxy == https_proxy(address@),
{
    reqwest::Proxy::https(address).ok()
}

/// The proxies once the outcome of parsing one more address is known: the
/// proxy is added behind the others, and a refused address adds nothing.
pub open spec fn attached(proxies: Seq<reqwest::Proxy>, parsed: Option<reqwest::Proxy>) -> Seq<
    reqwest::Proxy,
> {
    match parsed {
        Some(proxy) => proxies.push(proxy),
        None => proxies,
    }
}

/// What parsing a configured address gives; nothing where none is
/// configured.
pub open spec fn configured_http_proxy(address: Option<Seq<char>>) -> Option<reqwest::Proxy> {
    match address {
        Some(a) => http_proxy(a),
        None => None,
    }
}

/// What parsing a configured address gives; nothing where none is
/// configured.
pub open spec fn configured_https_proxy(address: Option<Seq<char>>) -> Option<reqwest::Proxy> {
    match address {
        Some(a) => https_proxy(a),
        None => None,
    }
}

/// The proxies of a fetch: that for HTTP, then that for HTTPS.
pub open spec fn fetch_proxies(http: Option<Seq<char>>, https: Option<Seq<char>>) -> Seq<
    reqwest::Proxy,
> {
    attached(attached(Seq::empty(), configured_http_proxy(http)), configured_https_proxy(https))
}

/// A fetch goes through at most one proxy for each scheme, and through
/// none where no address is configured.
pub proof fn lemma_fetch_proxies_count(http: Option<Seq<char>>, https: Option<Seq<char>>)
    ensures
        fetch_proxies(http, https).len() <= 2,
        fetch_proxies(None, None).len() == 0,
        fetch_proxies(http, https).len() == (if configured_http_proxy(http) is Some {
            1nat
        } else {
            0nat
        }) + (if configured_https_proxy(https) is Some {
            1nat
        } else {
            0nat
        }),
{
}

/// Adds the proxy that parsing an address gave, if it gave one.
pub fn attach_proxy(proxies: &mut Vec<reqwest::Proxy>, parsed: Option<reqwest::Proxy>)
    ensures
        final(proxies)@ == attached(old(proxies)@, parsed),
{
    if let Some(proxy) = parsed {
        proxies.push(proxy);
    }
}

impl Cache {
    /// The proxies through which the archive is fetched, given the
    /// addresses configured for HTTP and for HTTPS traffic.
    pub fn proxies(http: Option<&str>, https: Option<&str>) -> (proxies: Vec<reqwest::Proxy>)
        ensures
            proxies@ == fetch_proxies(optional_text(http), optional_text(https)),
    {
        let mut proxies: Vec<reqwest::Proxy> = Vec::new();
        let parsed = match http {
            Some(address) => parse_http_proxy(address),
            None => None,
        };
        attach_proxy(&mut proxies, parsed);
        let parsed = match https {
            Some(address) => parse_https_proxy(address),
            None => None,
        };
        attach_proxy(&mut proxies, parsed);
        proxies
    }
}

} // verus!
