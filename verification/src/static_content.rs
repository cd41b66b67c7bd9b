//! Locations that answer every request with a configured response.
use vstd::prelude::*;
use std::sync::Arc;
use crate::proxy_pass::StaticContentConfig;

verus! {

/// The response a request executor produced.
#[derive(Debug)]
pub struct RequestExecutorResult {
    pub status_code: u16,
    /// The `Content-Type` to send as written, when one is configured.
    pub content_type: Option<String>,
    pub body: Vec<u8>,
}

/// Answers requests with one configured response.
#[derive(Debug)]
pub struct StaticContentExecutor {
    config: Arc<StaticContentConfig>,
}

impl StaticContentExecutor {
    pub closed spec fn config(&self) -> StaticContentConfig {
        *self.config
    }

    /// The configured status, content type and body.
    pub fn execute_request(&self) -> (r: RequestExecutorResult)
        ensures
            r.status_code == self.config().status_code,
            match self.config().content_type {
                Some(ct) => r.content_type matches Some(x) && x@ == ct@,
                None => r.content_type is None,
            },
            r.body@ == self.config().body@,
    {
        let content_type = match &self.config.content_type {
            Some(ct) => Some(ct.clone()),
            None => None,
        };
        RequestExecutorResult {
            status_code: self.config.status_code,
            content_type,
            body: self.config.body.clone(),
        }
    }
}

/// The content source of a static location.
pub struct StaticContentSrc {
    pub inner: Arc<StaticContentExecutor>,
}

impl StaticContentSrc {
    pub fn new(config: Arc<StaticContentConfig>) -> (r: Self)
        ensures
            r.inner.config() == *config,
    {
        StaticContentSrc { inner: Arc::new(StaticContentExecutor { config }) }
    }

    /// The executor that answers this location's requests.
    pub fn get_request_executor(&self) -> (r: Arc<StaticContentExecutor>)
        ensures
            *r == *self.inner,
    {
        self.inner.clone()
    }
}

} // verus!
