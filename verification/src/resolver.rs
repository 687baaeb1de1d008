//! Where the configuration comes from.
use vstd::prelude::*;
use crate::error::AgentError;
use crate::text::{chars_of, has_prefix, starts_with, suffix_from};

verus! {

/// Where the configuration is read from.
#[derive(Debug)]
pub enum ConfigLocation {
    /// Not set.
    Unknown,
    /// A file path.
    File(String),
    /// An HTTP or HTTPS URL.
    Url(String),
}

/// What a location holds.
pub enum LocationView {
    Unknown,
    File(Seq<char>),
    Url(Seq<char>),
}

impl View for ConfigLocation {
    type V = LocationView;

    open spec fn view(&self) -> LocationView {
        match self {
            ConfigLocation::Unknown => LocationView::Unknown,
            ConfigLocation::File(p) => LocationView::File(p@),
            ConfigLocation::Url(u) => LocationView::Url(u@),
        }
    }
}

/// The location a configuration URL names: `http://` and `https://` URLs
/// as they are, a `file:` URL as the path after the prefix, anything else
/// as a file path.
pub open spec fn location_of(url: Seq<char>) -> LocationView {
    if has_prefix(url, "http://"@) || has_prefix(url, "https://"@) {
        LocationView::Url(url)
    } else if has_prefix(url, "file:"@) {
        LocationView::File(url.skip("file:"@.len() as int))
    } else {
        LocationView::File(url)
    }
}

/// Finds the agent's configuration.
pub struct ConfigResolver {
    location: ConfigLocation,
}

impl View for ConfigResolver {
    type V = LocationView;

    closed spec fn view(&self) -> LocationView {
        self.location@
    }
}

impl ConfigResolver {
    /// A builder with no URL and no certificate validation.
    pub fn builder() -> (r: ConfigResolverBuilder)
        ensures
            r.url.is_none(),
            !r.cert_validation,
    {
        ConfigResolverBuilder::default()
    }

    /// Sets the location from a URL (see `location_of`).
    pub fn set_url(&mut self, url: String) -> (r: &mut Self)
        ensures
            r@ == location_of(url@),
            *final(self) == *final(r),
    {
        if starts_with(url.as_str(), "http://") || starts_with(url.as_str(), "https://") {
            self.location = ConfigLocation::Url(url);
            return self;
        }
        if starts_with(url.as_str(), "file:") {
            proof { reveal_strlit("file:"); }
            let cs = chars_of(url.as_str());
            let path = suffix_from(cs.as_slice(), 5);
            self.location = ConfigLocation::File(path);
            return self;
        }
        self.location = ConfigLocation::File(url);
        self
    }

    /// Where the configuration is to be read from: the path of a file.
    /// An unset location is a `BootstrapError`, and a URL is not supported
    /// yet (`NotImplementedError`).
    pub fn config_path(&self) -> (r: Result<String, AgentError>)
        ensures
            match self@ {
                LocationView::Unknown => r matches Err(AgentError::BootstrapError(m)) && m@ == "Config location is not set"@,
                LocationView::File(p) => r matches Ok(q) && q@ == p,
                LocationView::Url(_) => r == Err::<String, AgentError>(AgentError::NotImplementedError),
            },
    {
        match &self.location {
            ConfigLocation::Unknown => Err(AgentError::BootstrapError("Config location is not set".to_owned())),
            ConfigLocation::File(path) => Ok(path.clone()),
            ConfigLocation::Url(_) => Err(AgentError::NotImplementedError),
        }
    }
}

/// Builds a `ConfigResolver`.
pub struct ConfigResolverBuilder {
    pub url: Option<String>,
    pub cert_validation: bool,
}

impl Default for ConfigResolverBuilder {
    fn default() -> (r: ConfigResolverBuilder)
        ensures
            r.url.is_none(),
            !r.cert_validation,
    {
        ConfigResolverBuilder { url: None, cert_validation: false }
    }
}

impl ConfigResolverBuilder {
    /// The resolver: its location set from the URL when there is one,
    /// unknown otherwise.
    pub fn build(&self) -> (r: ConfigResolver)
        ensures
            r@ == (match self.url {
                Some(u) => location_of(u@),
                None => LocationView::Unknown,
            }),
    {
        let mut resolver = ConfigResolver { location: ConfigLocation::Unknown };
        if let Some(url) = &self.url {
            resolver.set_url(url.clone());
        }
        resolver
    }

    /// Sets whether certificates are validated.
    pub fn set_cert_validation(&mut self, status: bool) -> (r: &mut Self)
        ensures
            r.cert_validation == status,
            r.url == old(self).url,
            *final(self) == *final(r),
    {
        self.cert_validation = status;
        self
    }

    /// Sets the configuration URL.
    pub fn set_url(&mut self, url: Option<String>) -> (r: &mut Self)
        ensures
            r.url == url,
            r.cert_validation == old(self).cert_validation,
            *final(self) == *final(r),
    {
        self.url = url;
        self
    }
}

} // verus!
