//! WebFinger discovery: mapping `acct:<user>@<host>` to the actor
//! document URL, by a simple equality check against the configured
//! identity.

use vstd::prelude::*;

use crate::config::{Config, url_host};
use crate::error::Error;

verus! {

/// One link of a discovery document.
#[derive(Debug, Clone, PartialEq)]
pub struct Link {
    pub rel: String,
    pub mime_type: Option<String>,
    pub href: String,
}

/// A WebFinger discovery document.
#[derive(Debug, Clone, PartialEq)]
pub struct Webfinger {
    pub subject: String,
    pub aliases: Vec<String>,
    pub links: Vec<Link>,
}

/// The account identifier this server answers for: `acct:<user>@<host>`.
pub open spec fn acct_of(username: Seq<char>, host: Seq<char>) -> Seq<char> {
    "acct:"@ + username + "@"@ + host
}

/// The host the configured root URL names, or empty where it has none.
pub open spec fn config_host(c: &Config) -> Seq<char> {
    match url_host(c.root_url@) {
        Some(h) => h,
        None => Seq::empty(),
    }
}

/// Answers a WebFinger query: only the configured identity resolves,
/// to a document whose single link points at the actor URL.
pub fn find(config: &Config, resource: &str) -> (r: Result<Webfinger, Error>)
    ensures
        resource@ != acct_of(config.actor_username@, config_host(config)) ==> r == Err::<
            Webfinger,
            _,
        >(Error::NotFound),
        resource@ == acct_of(config.actor_username@, config_host(config)) ==> (r matches Ok(w)
            && w.subject@ == acct_of(config.actor_username@, config_host(config))
            && w.aliases@.len() == 1 && w.aliases@[0]@ == config.root_url@ && w.links@.len() == 1
            && w.links@[0].rel@ == "self"@ && (w.links@[0].mime_type matches Some(m) && m@
            == "application/activity+json"@) && w.links@[0].href@ == config.root_url@),
{
    let host = match config.host_str() {
        Some(host) => host,
        None => String::new(),
    };
    let mut acct = String::from_str("acct:");
    acct.append(config.actor_username.as_str());
    acct.append("@");
    acct.append(host.as_str());
    if !crate::text::str_eq(resource, acct.as_str()) {
        return Err(Error::NotFound);
    }
    let mut aliases: Vec<String> = Vec::new();
    aliases.push(config.actor_url());
    let mut links: Vec<Link> = Vec::new();
    links.push(Link {
        rel: String::from_str("self"),
        mime_type: Some(String::from_str("application/activity+json")),
        href: config.actor_url(),
    });
    Ok(Webfinger { subject: acct, aliases, links })
}

} // verus!
