//! Immutable HTTP policy configuration and its fluent builder.
//!
//! A configuration carries an optional timeout in milliseconds, an optional
//! redirect cap, and whether cookies persist across redirects within one
//! fetch.  All fields are optional with library-defined defaults when unset.

use vstd::prelude::*;

verus! {

/// Immutable HTTP configuration: timeout (milliseconds), redirect cap and
/// cookie persistence.
#[derive(Clone, Copy)]
pub struct HttpConfig {
    timeout: Option<u64>,
    max_redirect: Option<usize>,
    cookie_store: bool,
}

/// Fluent builder for [`HttpConfig`]; every field starts unset.
pub struct HttpConfigBuilder {
    timeout: Option<u64>,
    max_redirect: Option<usize>,
    cookie_store: bool,
}

impl HttpConfigBuilder {
    pub closed spec fn spec_timeout(&self) -> Option<u64> {
        self.timeout
    }

    pub closed spec fn spec_max_redirect(&self) -> Option<usize> {
        self.max_redirect
    }

    pub closed spec fn spec_cookie_store(&self) -> bool {
        self.cookie_store
    }

    /// A fresh builder: no timeout, no redirect cap, no cookie store.
    pub fn new() -> (r: Self)
        ensures
            r.spec_timeout() is None,
            r.spec_max_redirect() is None,
            !r.spec_cookie_store(),
    {
        Self { timeout: None, max_redirect: None, cookie_store: false }
    }

    /// Sets the request timeout in milliseconds, replacing any earlier value.
    pub fn timeout(self, ms: u64) -> (r: Self)
        ensures
            r.spec_timeout() == Some(ms),
            r.spec_max_redirect() == self.spec_max_redirect(),
            r.spec_cookie_store() == self.spec_cookie_store(),
    {
        Self { timeout: Some(ms), ..self }
    }

    /// Sets the redirect cap, replacing any earlier value.
    pub fn max_redirect(self, max_redirect: usize) -> (r: Self)
        ensures
            r.spec_timeout() == self.spec_timeout(),
            r.spec_max_redirect() == Some(max_redirect),
            r.spec_cookie_store() == self.spec_cookie_store(),
    {
        Self { max_redirect: Some(max_redirect), ..self }
    }

    /// Sets whether cookies persist across redirects within one fetch.
    pub fn cookie_store(self, cookie_store: bool) -> (r: Self)
        ensures
            r.spec_timeout() == self.spec_timeout(),
            r.spec_max_redirect() == self.spec_max_redirect(),
            r.spec_cookie_store() == cookie_store,
    {
        Self { cookie_store, ..self }
    }

    /// Freezes the builder into an immutable configuration carrying exactly
    /// the fields set so far.
    pub fn build(self) -> (r: HttpConfig)
        ensures
            r.spec_timeout() == self.spec_timeout(),
            r.spec_max_redirect() == self.spec_max_redirect(),
            r.spec_cookie_store() == self.spec_cookie_store(),
    {
        HttpConfig {
            timeout: self.timeout,
            max_redirect: self.max_redirect,
            cookie_store: self.cookie_store,
        }
    }
}

impl Default for HttpConfigBuilder {
    /// Same as [`HttpConfigBuilder::new`]: every field unset.
    fn default() -> (r: Self)
        ensures
            r.spec_timeout() is None,
            r.spec_max_redirect() is None,
            !r.spec_cookie_store(),
    {
        Self::new()
    }
}

impl HttpConfig {
    pub closed spec fn spec_timeout(&self) -> Option<u64> {
        self.timeout
    }

    pub closed spec fn spec_max_redirect(&self) -> Option<usize> {
        self.max_redirect
    }

    pub closed spec fn spec_cookie_store(&self) -> bool {
        self.cookie_store
    }

    /// A fresh builder, as a convenience entry point.
    pub fn builder() -> (r: HttpConfigBuilder)
        ensures
            r.spec_timeout() is None,
            r.spec_max_redirect() is None,
            !r.spec_cookie_store(),
    {
        HttpConfigBuilder::new()
    }

    /// The configured timeout in milliseconds, if any.
    pub fn timeout(&self) -> (r: Option<u64>)
        ensures
            r == self.spec_timeout(),
    {
        self.timeout
    }

    /// The configured redirect cap, if any.
    pub fn max_redirect(&self) -> (r: Option<usize>)
        ensures
            r == self.spec_max_redirect(),
    {
        self.max_redirect
    }

    /// Whether cookies persist across redirects within one fetch.
    pub fn cookie_store(&self) -> (r: bool)
        ensures
            r == self.spec_cookie_store(),
    {
        self.cookie_store
    }
}

impl Default for HttpConfig {
    /// The default policy: no timeout, no redirect cap, no cookie store.
    fn default() -> (r: Self)
        ensures
            r.spec_timeout() is None,
            r.spec_max_redirect() is None,
            !r.spec_cookie_store(),
    {
        Self { timeout: None, max_redirect: None, cookie_store: false }
    }
}

} // verus!
