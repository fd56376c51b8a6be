//! Server configuration, and the URLs derived from the configured
//! root.
//!
//! A raw configuration is plain text from the environment; validation
//! parses the root URL once and keeps it in its normalized form. Every
//! derived URL is the root joined with an absolute path, exactly as
//! the `url` crate resolves it.

use vstd::prelude::*;

verus! {

/// What `url::Url::parse` makes of a text: the parsed URL written back
/// out (`Url::as_str`), or `None` where the text is not a valid URL.
pub uninterp spec fn url_normalized(s: Seq<char>) -> Option<Seq<char>>;

/// What joining `path` onto the URL `base` yields (`Url::join`, then
/// `Url::as_str`): `None` where `base` does not parse or cannot be a
/// join base.
pub uninterp spec fn url_joined(base: Seq<char>, path: Seq<char>) -> Option<Seq<char>>;

/// The host part of the URL `s` (`Url::host_str`): `None` where `s`
/// does not parse or has no host.
pub uninterp spec fn url_host(s: Seq<char>) -> Option<Seq<char>>;

/// Relies on `url::Url::parse` and `Url::as_str`: whether and how a
/// text normalizes depends on the text alone.
#[verifier::external_body]
fn url_normalize(s: &str) -> (r: Result<String, url::ParseError>)
    ensures
        match r {
            Ok(u) => url_normalized(s@) == Some(u@),
            Err(_) => url_normalized(s@) is None,
        },
{
    url::Url::parse(s).map(|u| u.as_str().to_owned())
}

/// Relies on `url::Url::parse`, `Url::join` and `Url::as_str`: the
/// resolved URL depends on the base and the path alone.
#[verifier::external_body]
fn url_join(base: &str, path: &str) -> (r: Option<String>)
    ensures
        match r {
            Some(u) => url_joined(base@, path@) == Some(u@),
            None => url_joined(base@, path@) is None,
        },
{
    match url::Url::parse(base) {
        Ok(u) => u.join(path).ok().map(|j| j.as_str().to_owned()),
        Err(_) => None,
    }
}

/// Relies on `url::Url::parse` and `Url::host_str`: the host of a URL
/// depends on the text alone.
#[verifier::external_body]
fn url_host_str(s: &str) -> (r: Option<String>)
    ensures
        match r {
            Some(h) => url_host(s@) == Some(h@),
            None => url_host(s@) is None,
        },
{
    match url::Url::parse(s) {
        Ok(u) => u.host_str().map(|h| h.to_owned()),
        Err(_) => None,
    }
}

#[verifier::external_type_specification]
#[verifier::external_body]
pub struct ExUrlParseError(url::ParseError);

/// Configuration as read from the environment, not yet validated.
#[derive(Debug)]
pub struct RawConfig {
    pub db_url: String,
    pub pub_key: String,
    pub root_url: String,
    pub actor_username: String,
    pub actor_name: String,
    pub media_dir: String,
}

/// Validated configuration; the root URL is in normalized form.
#[derive(Debug)]
pub struct Config {
    pub db_url: String,
    pub pub_key: String,
    pub root_url: String,
    pub actor_username: String,
    pub actor_name: String,
    pub media_dir: String,
}

impl RawConfig {
    /// Checks that the configured root is a valid URL; everything else
    /// is carried over as given.
    pub fn validate(self) -> (r: Result<Config, url::ParseError>)
        ensures
            url_normalized(self.root_url@) is None <==> r is Err,
            r matches Ok(c) ==> url_normalized(self.root_url@) == Some(c.root_url@)
                && c.db_url == self.db_url && c.pub_key == self.pub_key && c.actor_username
                == self.actor_username && c.actor_name == self.actor_name && c.media_dir
                == self.media_dir,
    {
        let root_url = match url_normalize(self.root_url.as_str()) {
            Ok(root_url) => root_url,
            Err(e) => {
                return Err(e);
            },
        };
        Ok(Config {
            db_url: self.db_url,
            pub_key: self.pub_key,
            root_url,
            actor_username: self.actor_username,
            actor_name: self.actor_name,
            media_dir: self.media_dir,
        })
    }
}

impl Config {
    /// The actor's canonical URL: the normalized root itself.
    pub fn actor_url(&self) -> (r: String)
        ensures
            r@ == self.root_url@,
    {
        String::from_str(self.root_url.as_str())
    }

    /// The inbox endpoint under the root.
    pub fn inbox_url(&self) -> (r: Option<String>)
        ensures
            match r {
                Some(u) => url_joined(self.root_url@, "/_inbox"@) == Some(u@),
                None => url_joined(self.root_url@, "/_inbox"@) is None,
            },
    {
        url_join(self.root_url.as_str(), "/_inbox")
    }

    /// The outbox endpoint under the root.
    pub fn outbox_url(&self) -> (r: Option<String>)
        ensures
            match r {
                Some(u) => url_joined(self.root_url@, "/_outbox"@) == Some(u@),
                None => url_joined(self.root_url@, "/_outbox"@) is None,
            },
    {
        url_join(self.root_url.as_str(), "/_outbox")
    }

    /// The URL of a post, by its URI name.
    pub fn post_url(&self, uri_name: &str) -> (r: Option<String>)
        ensures
            match r {
                Some(u) => url_joined(self.root_url@, "/"@ + uri_name@) == Some(u@),
                None => url_joined(self.root_url@, "/"@ + uri_name@) is None,
            },
    {
        let mut path = String::from_str("/");
        path.append(uri_name);
        url_join(self.root_url.as_str(), path.as_str())
    }

    /// The URL of a post's Create activity, by the post's URI name.
    pub fn activity_url(&self, uri_name: &str) -> (r: Option<String>)
        ensures
            match r {
                Some(u) => url_joined(self.root_url@, "/_activity/"@ + uri_name@) == Some(u@),
                None => url_joined(self.root_url@, "/_activity/"@ + uri_name@) is None,
            },
    {
        let mut path = String::from_str("/_activity/");
        path.append(uri_name);
        url_join(self.root_url.as_str(), path.as_str())
    }

    /// The URL of a media file under the media endpoint.
    pub fn media_url(&self, file: &str) -> (r: Option<String>)
        ensures
            match r {
                Some(u) => url_joined(self.root_url@, "/_media/"@ + file@) == Some(u@),
                None => url_joined(self.root_url@, "/_media/"@ + file@) is None,
            },
    {
        let mut path = String::from_str("/_media/");
        path.append(file);
        url_join(self.root_url.as_str(), path.as_str())
    }

    /// The host part of the configured root.
    pub fn host_str(&self) -> (r: Option<String>)
        ensures
            match r {
                Some(h) => url_host(self.root_url@) == Some(h@),
                None => url_host(self.root_url@) is None,
            },
    {
        url_host_str(self.root_url.as_str())
    }
}

} // verus!
