//! Request-level failures and what the proxy does about each of them.
use vstd::prelude::*;
use core::time::Duration;
use crate::templates::{explicit_status_page, ErrorTemplates};

verus! {

/// A failure of a transport (client or upstream socket).
#[derive(Debug)]
pub enum NetworkError {
    Disconnected,
    IoError(std::io::Error),
    Timeout(Duration),
    OtherStr(&'static str),
}

impl NetworkError {
    pub fn is_timeout(&self) -> (r: bool)
        ensures
            r == (self is Timeout),
    {
        match self {
            NetworkError::Timeout(_) => true,
            _ => false,
        }
    }

    /// The timeout that expired, when this is a timeout.
    pub fn as_timeout(&self) -> (r: Option<&Duration>)
        ensures
            r is Some == (self is Timeout),
            self is Timeout ==> r == Some(&self->Timeout_0),
    {
        match self {
            NetworkError::Timeout(d) => Some(d),
            _ => None,
        }
    }
}

#[derive(Debug)]
pub enum ProxyServerError {
    NetworkError(NetworkError),
    ParsingPayloadError(&'static str),
    BufferAllocationFail,
    ChunkHeaderParseError,
    HeadersParseError(&'static str),
    CanNotConnectToRemoteResource { remote_resource: String, err: NetworkError },
    CanNotWriteContentToRemoteConnection(NetworkError),
    HttpConfigurationIsNotFound,
    LocationIsNotFound,
    NotAuthorized,
    DropConnection,
    HttpResponse(Vec<u8>),
    ProxyToHeaderMissing,
    ProxyToHeaderInvalid,
    ProxyToHostNotAllowed,
}

/// A transport failure of the request.
impl From<NetworkError> for ProxyServerError {
    fn from(value: NetworkError) -> (r: Self) {
        ProxyServerError::NetworkError(value)
    }
}

impl vstd::std_specs::convert::FromSpecImpl<NetworkError> for ProxyServerError {
    open spec fn obeys_from_spec() -> bool {
        true
    }

    open spec fn from_spec(value: NetworkError) -> Self {
        ProxyServerError::NetworkError(value)
    }
}

/// A request head that could not be parsed, with the parser's reason.
impl From<&'static str> for ProxyServerError {
    fn from(value: &'static str) -> (r: Self) {
        ProxyServerError::ParsingPayloadError(value)
    }
}

impl vstd::std_specs::convert::FromSpecImpl<&'static str> for ProxyServerError {
    open spec fn obeys_from_spec() -> bool {
        true
    }

    open spec fn from_spec(value: &'static str) -> Self {
        ProxyServerError::ParsingPayloadError(value)
    }
}

/// Everything the request loop does with a failed request: the bytes to
/// write back before closing (`None`: close silently), the 5xx status to
/// record in the logs, and whether the source address is penalised.
pub struct ErrorHandling<'a> {
    pub page: Option<&'a [u8]>,
    pub status_5xx: Option<u16>,
    pub register_ip_failure: bool,
}

/// The page a failure is answered with (`None`: the connection is closed
/// without a word).
pub open spec fn handling_page(e: ProxyServerError, tpl: ErrorTemplates) -> Option<Seq<u8>> {
    match e {
        ProxyServerError::NetworkError(_) | ProxyServerError::DropConnection => None,
        ProxyServerError::HttpConfigurationIsNotFound | ProxyServerError::ParsingPayloadError(_)
        | ProxyServerError::ChunkHeaderParseError | ProxyServerError::HeadersParseError(_) => None,
        ProxyServerError::BufferAllocationFail => Some(tpl.remote_resource_is_not_available@),
        ProxyServerError::CanNotConnectToRemoteResource { err, .. } => {
            if err is Timeout {
                Some(tpl.error_timeout@)
            } else {
                Some(tpl.remote_resource_is_not_available@)
            }
        },
        ProxyServerError::CanNotWriteContentToRemoteConnection(_) => Some(tpl.remote_resource_is_not_available@),
        ProxyServerError::LocationIsNotFound => Some(tpl.location_is_not_found@),
        ProxyServerError::NotAuthorized => Some(tpl.not_authorized_page@),
        ProxyServerError::ProxyToHeaderMissing | ProxyServerError::ProxyToHeaderInvalid => Some(tpl.proxy_to_header_missing@),
        ProxyServerError::ProxyToHostNotAllowed => Some(tpl.proxy_to_host_not_allowed@),
        ProxyServerError::HttpResponse(payload) => Some(payload@),
    }
}

/// The failures answered with a 5xx page, which are always logged.
pub open spec fn handling_status_5xx(e: ProxyServerError) -> Option<u16> {
    match e {
        ProxyServerError::BufferAllocationFail | ProxyServerError::CanNotConnectToRemoteResource { .. }
        | ProxyServerError::CanNotWriteContentToRemoteConnection(_) | ProxyServerError::LocationIsNotFound => Some(503),
        _ => None,
    }
}

/// Malformed or unroutable requests penalise their source.
pub open spec fn handling_registers_ip_failure(e: ProxyServerError) -> bool {
    match e {
        ProxyServerError::HttpConfigurationIsNotFound | ProxyServerError::ParsingPayloadError(_)
        | ProxyServerError::ChunkHeaderParseError | ProxyServerError::HeadersParseError(_) => true,
        _ => false,
    }
}

pub open spec fn page_view(p: Option<&[u8]>) -> Option<Seq<u8>> {
    match p {
        Some(s) => Some(s@),
        None => None,
    }
}

impl ProxyServerError {
    /// Maps this failure to the response and side effects; the connection is
    /// closed afterwards in every case.
    pub fn error_handling<'a>(&'a self, tpl: &'a ErrorTemplates) -> (r: ErrorHandling<'a>)
        ensures
            page_view(r.page) == handling_page(*self, *tpl),
            r.status_5xx == handling_status_5xx(*self),
            r.register_ip_failure == handling_registers_ip_failure(*self),
    {
        match self {
            ProxyServerError::NetworkError(_) | ProxyServerError::DropConnection => ErrorHandling {
                page: None,
                status_5xx: None,
                register_ip_failure: false,
            },
            ProxyServerError::HttpConfigurationIsNotFound | ProxyServerError::ParsingPayloadError(_)
            | ProxyServerError::ChunkHeaderParseError | ProxyServerError::HeadersParseError(_) => ErrorHandling {
                page: None,
                status_5xx: None,
                register_ip_failure: true,
            },
            ProxyServerError::BufferAllocationFail => ErrorHandling {
                page: Some(tpl.remote_resource_is_not_available.as_slice()),
                status_5xx: Some(503),
                register_ip_failure: false,
            },
            ProxyServerError::CanNotConnectToRemoteResource { err, .. } => {
                let page = if err.as_timeout().is_some() {
                    tpl.error_timeout.as_slice()
                } else {
                    tpl.remote_resource_is_not_available.as_slice()
                };
                ErrorHandling { page: Some(page), status_5xx: Some(503), register_ip_failure: false }
            },
            ProxyServerError::CanNotWriteContentToRemoteConnection(_) => ErrorHandling {
                page: Some(tpl.remote_resource_is_not_available.as_slice()),
                status_5xx: Some(503),
                register_ip_failure: false,
            },
            ProxyServerError::LocationIsNotFound => ErrorHandling {
                page: Some(tpl.location_is_not_found.as_slice()),
                status_5xx: Some(503),
                register_ip_failure: false,
            },
            ProxyServerError::NotAuthorized => ErrorHandling {
                page: Some(tpl.not_authorized_page.as_slice()),
                status_5xx: None,
                register_ip_failure: false,
            },
            ProxyServerError::ProxyToHeaderMissing | ProxyServerError::ProxyToHeaderInvalid => ErrorHandling {
                page: Some(tpl.proxy_to_header_missing.as_slice()),
                status_5xx: None,
                register_ip_failure: false,
            },
            ProxyServerError::ProxyToHostNotAllowed => ErrorHandling {
                page: Some(tpl.proxy_to_host_not_allowed.as_slice()),
                status_5xx: None,
                register_ip_failure: false,
            },
            ProxyServerError::HttpResponse(payload) => ErrorHandling {
                page: Some(payload.as_slice()),
                status_5xx: None,
                register_ip_failure: false,
            },
        }
    }

    /// Whether the failure may be written to the console in its debug form
    /// (pages produced by the proxy itself and authorization refusals are not).
    pub fn can_be_printed_as_debug(&self) -> (r: bool)
        ensures
            r == !(self is HttpResponse || self is LocationIsNotFound || self is NotAuthorized),
    {
        match self {
            ProxyServerError::HttpResponse(_) => false,
            ProxyServerError::LocationIsNotFound => false,
            ProxyServerError::NotAuthorized => false,
            _ => true,
        }
    }
}

/// A request that penalises its source is never answered with a page: the
/// connection is simply closed.
pub proof fn lemma_penalised_requests_get_no_page(e: ProxyServerError, tpl: ErrorTemplates)
    requires
        handling_registers_ip_failure(e),
    ensures
        handling_page(e, tpl) is None,
        handling_status_5xx(e) is None,
{
}

/// Every 5xx the proxy returns is a page that reaches the client, and the
/// source of such a request is not penalised.
pub proof fn lemma_logged_5xx_is_answered(e: ProxyServerError, tpl: ErrorTemplates)
    requires
        handling_status_5xx(e) is Some,
    ensures
        handling_status_5xx(e) == Some(503u16),
        handling_page(e, tpl) is Some,
        !handling_registers_ip_failure(e),
{
}

/// Only a dropped transport, a dropped connection and a penalised malformed
/// request are closed without a word: every other failure is answered with
/// a page.
pub proof fn lemma_unpenalised_failures_get_a_page(e: ProxyServerError, tpl: ErrorTemplates)
    requires
        !handling_registers_ip_failure(e),
        !(e is NetworkError),
        !(e is DropConnection),
    ensures
        handling_page(e, tpl) is Some,
{
}

/// A dynamic location's request whose `proxy-to` header is missing, like one
/// whose header is invalid, is answered with the 421 "Misdirected Request /
/// Missing or invalid proxy-to header" page; it is not a logged 5xx and does
/// not penalise its source.
pub proof fn lemma_proxy_to_header_failures_get_421(tpl: ErrorTemplates, app_version: Seq<char>)
    requires
        tpl.built_for(app_version),
    ensures
        handling_page(ProxyServerError::ProxyToHeaderMissing, tpl)
            == Some(explicit_status_page(421, "Misdirected Request"@, Some("Missing or invalid proxy-to header"@), app_version)),
        handling_page(ProxyServerError::ProxyToHeaderInvalid, tpl)
            == Some(explicit_status_page(421, "Misdirected Request"@, Some("Missing or invalid proxy-to header"@), app_version)),
        handling_status_5xx(ProxyServerError::ProxyToHeaderMissing) is None,
        handling_status_5xx(ProxyServerError::ProxyToHeaderInvalid) is None,
        !handling_registers_ip_failure(ProxyServerError::ProxyToHeaderMissing),
        !handling_registers_ip_failure(ProxyServerError::ProxyToHeaderInvalid),
{
}

} // verus!
