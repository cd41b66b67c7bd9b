//! Request authorization: the per-location `Authorization` header check, the
//! endpoint's authorization requirement, and the decisions of the Google
//! sign-in flow.  Token resolution, the code exchange and the pages
//! themselves are the caller's to perform; these functions decide which.
use vstd::prelude::*;
use crate::text::eq_ignore_ascii_case;

verus! {

pub const AUTHORIZED_PATH: &'static str = "/authorized";
pub const LOGOUT_PATH: &'static str = "/logout";
pub const AUTHORIZED_COOKIE_NAME: &'static str = "x-authorized";

/// The flow let the request through, or answers it with a page.
#[derive(Debug)]
pub enum GoogleAuthOkResult {
    /// The request carries a valid token of an allowed user.
    Passed(String),
    /// The user just signed in: set the token cookie and confirm.
    SetToken(String),
    /// No valid token: show the sign-in page of these credentials.
    ShowLoginPage(String),
}

#[derive(Debug)]
pub enum GoogleAuthError {
    ShowLogoutPage,
    EmailDomainIsNotAuthorized,
    ShowEmailDomainIsNotAuthorizedPage,
    ShowUserAuthenticatedPage(String),
    ShowError(String),
}

/// Who the request was authorized as.
#[derive(Debug)]
pub enum HttpProxyPassIdentity {
    GoogleUser(String),
    ClientCert(String),
}

/// What an endpoint demands of its requests.
#[derive(Debug)]
pub enum AuthorizationRequired {
    /// Google sign-in with the named credentials.
    GoogleAuth(String),
    ClientCertificate,
}

pub open spec fn authenticated_user_spec(host: Option<Seq<char>>, email: Seq<char>) -> Seq<char> {
    "<h2>Authenticated user: "@ + email + "</h2><a class=\"btn btn-primary\" href=\"https://"@
        + match host { Some(h) => h, None => Seq::empty() } + "\">Ok</a>"@
}

/// The body of the "authenticated user" page: the user's e-mail and a link
/// back to the requested host (empty when the request names none).  The
/// site's page template wraps it.
pub fn generate_authenticated_user(host: Option<&str>, email: &str) -> (r: String)
    ensures
        r@ == authenticated_user_spec(match host { Some(h) => Some(h@), None => None }, email@),
{
    let mut r = String::from_str("<h2>Authenticated user: ");
    r.append(email);
    r.append("</h2><a class=\"btn btn-primary\" href=\"https://");
    match host {
        Some(h) => r.append(h),
        None => {},
    }
    r.append("\">Ok</a>");
    r
}

/// The value of the `Set-Cookie` header that stores a fresh sign-in token.
pub fn auth_cookie_value(token: &str) -> (r: String)
    ensures
        r@ == AUTHORIZED_COOKIE_NAME@ + "="@ + token@ + "; SameSite=None; Secure;"@,
{
    let mut r = String::from_str(AUTHORIZED_COOKIE_NAME);
    r.append("=");
    r.append(token);
    r.append("; SameSite=None; Secure;");
    r
}

/// A token the request carried, resolved to the user's e-mail, and whether
/// that e-mail's domain is allowed by the credentials.
pub struct ResolvedToken {
    pub email: String,
    pub domain_allowed: bool,
}

/// The first decision of the sign-in flow.
#[derive(Debug)]
pub enum GoogleAuthStep {
    /// The flow has its answer.
    Finish(Result<GoogleAuthOkResult, GoogleAuthError>),
    /// The request returns from Google's consent screen without a valid
    /// token: exchange its `code` for the user's e-mail, then call
    /// [`google_auth_after_code`].
    ExchangeCode,
}

pub open spec fn is_path(path: Seq<char>, target: Seq<char>) -> bool {
    crate::text::eq_ignore_ascii_case_spec(path, target)
}

/// Decides a request to an endpoint behind Google sign-in, given its path
/// and the token it carries (already resolved), for the credentials named
/// `credentials`:
/// - `/logout` shows the logout page;
/// - on `/authorized`, a valid token shows who is signed in (or refuses a
///   user of a foreign domain), and no token means the code must be
///   exchanged;
/// - elsewhere a valid token of an allowed domain passes, a foreign domain
///   is refused, and no token shows the sign-in page.
pub fn google_auth_step(path: &str, token: Option<ResolvedToken>, credentials: &str) -> (r: GoogleAuthStep)
    ensures
        is_path(path@, LOGOUT_PATH@) ==> r matches GoogleAuthStep::Finish(Err(GoogleAuthError::ShowLogoutPage)),
        !is_path(path@, LOGOUT_PATH@) && is_path(path@, AUTHORIZED_PATH@) ==> match token {
            Some(t) => if !t.domain_allowed {
                r matches GoogleAuthStep::Finish(Err(GoogleAuthError::EmailDomainIsNotAuthorized))
            } else {
                r matches GoogleAuthStep::Finish(Err(GoogleAuthError::ShowUserAuthenticatedPage(x))) && x@ == t.email@
            },
            None => r is ExchangeCode,
        },
        !is_path(path@, LOGOUT_PATH@) && !is_path(path@, AUTHORIZED_PATH@) ==> match token {
            Some(t) => if !t.domain_allowed {
                r matches GoogleAuthStep::Finish(Err(GoogleAuthError::EmailDomainIsNotAuthorized))
            } else {
                r matches GoogleAuthStep::Finish(Ok(GoogleAuthOkResult::Passed(x))) && x@ == t.email@
            },
            None => r matches GoogleAuthStep::Finish(Ok(GoogleAuthOkResult::ShowLoginPage(x))) && x@ == credentials@,
        },
{
    if eq_ignore_ascii_case(path, LOGOUT_PATH) {
        return GoogleAuthStep::Finish(Err(GoogleAuthError::ShowLogoutPage));
    }
    let on_authorized = eq_ignore_ascii_case(path, AUTHORIZED_PATH);
    match token {
        Some(t) => {
            if !t.domain_allowed {
                GoogleAuthStep::Finish(Err(GoogleAuthError::EmailDomainIsNotAuthorized))
            } else if on_authorized {
                GoogleAuthStep::Finish(Err(GoogleAuthError::ShowUserAuthenticatedPage(t.email)))
            } else {
                GoogleAuthStep::Finish(Ok(GoogleAuthOkResult::Passed(t.email)))
            }
        },
        None => {
            if on_authorized {
                GoogleAuthStep::ExchangeCode
            } else {
                GoogleAuthStep::Finish(Ok(GoogleAuthOkResult::ShowLoginPage(String::from_str(credentials))))
            }
        },
    }
}

/// The end of the sign-in flow once the code exchange answered: its error
/// is shown; a user of a foreign domain gets the refusal page; anyone else
/// gets the token set.
pub fn google_auth_after_code(exchanged: Result<ResolvedToken, String>) -> (r: Result<GoogleAuthOkResult, GoogleAuthError>)
    ensures
        match exchanged {
            Err(e) => r matches Err(GoogleAuthError::ShowError(m)) && m@ == e@,
            Ok(t) => if t.domain_allowed {
                r matches Ok(GoogleAuthOkResult::SetToken(m)) && m@ == t.email@
            } else {
                r matches Err(GoogleAuthError::ShowEmailDomainIsNotAuthorizedPage)
            },
        },
{
    match exchanged {
        Err(e) => Err(GoogleAuthError::ShowError(e)),
        Ok(t) => {
            if t.domain_allowed {
                Ok(GoogleAuthOkResult::SetToken(t.email))
            } else {
                Err(GoogleAuthError::ShowEmailDomainIsNotAuthorizedPage)
            }
        },
    }
}

/// How a request that the sign-in flow did not let through is answered.
#[derive(Debug)]
pub enum AuthAnswer {
    /// Refused with the "not authorized" page.
    NotAuthorized,
    /// The logout page carrying this message.
    LogoutPage(&'static str),
    /// An HTML page whose body is this text: the "authenticated user" body
    /// of the signed-in e-mail.
    AuthenticatedUserPage(String),
    /// An HTML page whose body is this text: the error message itself.
    ErrorPage(String),
}

pub const LOGGED_OUT_MESSAGE: &'static str = "You have successfully logged out!";
pub const UNAUTHORIZED_DOMAIN_MESSAGE: &'static str = "Unauthorized email domain";

/// Maps an outcome of the sign-in flow that stops the request to its answer,
/// for a request naming `host`: a refused e-mail domain is "not
/// authorized"; the logout pages carry their message; the "authenticated
/// user" answer carries the body [`generate_authenticated_user`] makes for
/// the e-mail; an error shows its message as the body.
pub fn from_google_auth_error(value: GoogleAuthError, host: Option<&str>) -> (r: AuthAnswer)
    ensures
        match value {
            GoogleAuthError::ShowLogoutPage => r matches AuthAnswer::LogoutPage(m) && m@ == LOGGED_OUT_MESSAGE@,
            GoogleAuthError::EmailDomainIsNotAuthorized => r is NotAuthorized,
            GoogleAuthError::ShowEmailDomainIsNotAuthorizedPage =>
                r matches AuthAnswer::LogoutPage(m) && m@ == UNAUTHORIZED_DOMAIN_MESSAGE@,
            GoogleAuthError::ShowUserAuthenticatedPage(e) => r matches AuthAnswer::AuthenticatedUserPage(body)
                && body@ == authenticated_user_spec(match host { Some(h) => Some(h@), None => None }, e@),
            GoogleAuthError::ShowError(e) => r matches AuthAnswer::ErrorPage(x) && x@ == e@,
        },
{
    match value {
        GoogleAuthError::ShowLogoutPage => AuthAnswer::LogoutPage(LOGGED_OUT_MESSAGE),
        GoogleAuthError::EmailDomainIsNotAuthorized => AuthAnswer::NotAuthorized,
        GoogleAuthError::ShowEmailDomainIsNotAuthorizedPage => AuthAnswer::LogoutPage(UNAUTHORIZED_DOMAIN_MESSAGE),
        GoogleAuthError::ShowUserAuthenticatedPage(email) =>
            AuthAnswer::AuthenticatedUserPage(generate_authenticated_user(host, email.as_str())),
        GoogleAuthError::ShowError(err) => AuthAnswer::ErrorPage(err),
    }
}

/// What authorizing a request comes to before any sign-in is consulted.
#[derive(Debug)]
pub enum AuthorizeStep {
    /// The location's `Authorization` header check failed.
    NotAuthorized,
    /// Run the Google sign-in flow with these credentials.
    GoogleAuth(String),
    /// Authorized, as this identity (if any).
    Identity(Option<HttpProxyPassIdentity>),
}

pub open spec fn client_cert_identity(cn_user_name: Option<Seq<char>>, r: Option<HttpProxyPassIdentity>) -> bool {
    match cn_user_name {
        Some(cn) => r matches Some(HttpProxyPassIdentity::ClientCert(c)) && c@ == cn,
        None => r is None,
    }
}

/// First step of authorizing a request: a failed header check refuses it;
/// an endpoint behind Google sign-in runs the flow; otherwise the request is
/// authorized as its client certificate's user, if it presented one.
pub fn authorize_step(
    header_passes: bool,
    required: Option<&AuthorizationRequired>,
    cn_user_name: Option<&String>,
) -> (r: AuthorizeStep)
    ensures
        !header_passes ==> r is NotAuthorized,
        header_passes ==> match required {
            Some(AuthorizationRequired::GoogleAuth(c)) => r matches AuthorizeStep::GoogleAuth(x) && x@ == c@,
            _ => r matches AuthorizeStep::Identity(id)
                && client_cert_identity(match cn_user_name { Some(cn) => Some(cn@), None => None }, id),
        },
{
    if !header_passes {
        return AuthorizeStep::NotAuthorized;
    }
    match required {
        Some(AuthorizationRequired::GoogleAuth(credentials)) => AuthorizeStep::GoogleAuth(credentials.clone()),
        _ => {
            let id = match cn_user_name {
                Some(cn) => Some(HttpProxyPassIdentity::ClientCert(cn.clone())),
                None => None,
            };
            AuthorizeStep::Identity(id)
        },
    }
}

/// After the sign-in flow let the request through: a passing user is the
/// identity; a fresh sign-in answers with the token cookie and the
/// "authenticated user" page; no sign-in answers with the sign-in page.
#[derive(Debug)]
pub enum GoogleAuthAnswer {
    Identity(HttpProxyPassIdentity),
    SetTokenAndConfirm(String),
    LoginPage(String),
}

pub fn google_auth_answer(ok: GoogleAuthOkResult) -> (r: GoogleAuthAnswer)
    ensures
        match ok {
            GoogleAuthOkResult::Passed(e) =>
                r matches GoogleAuthAnswer::Identity(HttpProxyPassIdentity::GoogleUser(x)) && x@ == e@,
            GoogleAuthOkResult::SetToken(e) => r matches GoogleAuthAnswer::SetTokenAndConfirm(x) && x@ == e@,
            GoogleAuthOkResult::ShowLoginPage(c) => r matches GoogleAuthAnswer::LoginPage(x) && x@ == c@,
        },
{
    match ok {
        GoogleAuthOkResult::Passed(email) => GoogleAuthAnswer::Identity(HttpProxyPassIdentity::GoogleUser(email)),
        GoogleAuthOkResult::SetToken(email) => GoogleAuthAnswer::SetTokenAndConfirm(email),
        GoogleAuthOkResult::ShowLoginPage(credentials) => GoogleAuthAnswer::LoginPage(credentials),
    }
}

} // verus!
