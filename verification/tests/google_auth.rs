use my_reverse_proxy::google_auth::{
    auth_cookie_value, authorize_step, from_google_auth_error, generate_authenticated_user, google_auth_after_code,
    google_auth_answer, google_auth_step, AuthAnswer, AuthorizationRequired, AuthorizeStep, GoogleAuthAnswer,
    GoogleAuthError, GoogleAuthOkResult, GoogleAuthStep, HttpProxyPassIdentity, ResolvedToken,
};

fn token(email: &str, allowed: bool) -> Option<ResolvedToken> {
    Some(ResolvedToken { email: email.to_string(), domain_allowed: allowed })
}

#[test]
fn logout_path_shows_the_logout_page() {
    assert!(matches!(
        google_auth_step("/LOGOUT", token("a@b.c", true), "g"),
        GoogleAuthStep::Finish(Err(GoogleAuthError::ShowLogoutPage))
    ));
}

#[test]
fn authorized_path_shows_the_user_or_exchanges_the_code() {
    match google_auth_step("/authorized", token("a@b.c", true), "g") {
        GoogleAuthStep::Finish(Err(GoogleAuthError::ShowUserAuthenticatedPage(e))) => assert_eq!(e, "a@b.c"),
        other => panic!("{:?}", other),
    }
    assert!(matches!(
        google_auth_step("/authorized", token("a@evil.c", false), "g"),
        GoogleAuthStep::Finish(Err(GoogleAuthError::EmailDomainIsNotAuthorized))
    ));
    assert!(matches!(google_auth_step("/authorized", None, "g"), GoogleAuthStep::ExchangeCode));
}

#[test]
fn other_paths_pass_valid_users_and_show_the_login_page_otherwise() {
    match google_auth_step("/app", token("a@b.c", true), "g") {
        GoogleAuthStep::Finish(Ok(GoogleAuthOkResult::Passed(e))) => assert_eq!(e, "a@b.c"),
        other => panic!("{:?}", other),
    }
    assert!(matches!(
        google_auth_step("/app", token("a@evil.c", false), "g"),
        GoogleAuthStep::Finish(Err(GoogleAuthError::EmailDomainIsNotAuthorized))
    ));
    match google_auth_step("/app", None, "google-main") {
        GoogleAuthStep::Finish(Ok(GoogleAuthOkResult::ShowLoginPage(c))) => assert_eq!(c, "google-main"),
        other => panic!("{:?}", other),
    }
}

#[test]
fn the_code_exchange_sets_the_token_for_allowed_users() {
    match google_auth_after_code(Err("denied".to_string())) {
        Err(GoogleAuthError::ShowError(e)) => assert_eq!(e, "denied"),
        other => panic!("{:?}", other),
    }
    assert!(matches!(
        google_auth_after_code(Ok(ResolvedToken { email: "x@evil".to_string(), domain_allowed: false })),
        Err(GoogleAuthError::ShowEmailDomainIsNotAuthorizedPage)
    ));
    match google_auth_after_code(Ok(ResolvedToken { email: "x@ok".to_string(), domain_allowed: true })) {
        Ok(GoogleAuthOkResult::SetToken(e)) => assert_eq!(e, "x@ok"),
        other => panic!("{:?}", other),
    }
}

#[test]
fn auth_errors_map_to_their_answers() {
    match from_google_auth_error(GoogleAuthError::ShowLogoutPage, None) {
        AuthAnswer::LogoutPage(m) => assert_eq!(m, "You have successfully logged out!"),
        other => panic!("{:?}", other),
    }
    match from_google_auth_error(GoogleAuthError::ShowEmailDomainIsNotAuthorizedPage, None) {
        AuthAnswer::LogoutPage(m) => assert_eq!(m, "Unauthorized email domain"),
        other => panic!("{:?}", other),
    }
    assert!(matches!(from_google_auth_error(GoogleAuthError::EmailDomainIsNotAuthorized, None), AuthAnswer::NotAuthorized));
    match from_google_auth_error(GoogleAuthError::ShowUserAuthenticatedPage("u@d".to_string()), Some("a.com")) {
        AuthAnswer::AuthenticatedUserPage(body) => {
            assert_eq!(body, generate_authenticated_user(Some("a.com"), "u@d"));
            assert_eq!(body, "<h2>Authenticated user: u@d</h2><a class=\"btn btn-primary\" href=\"https://a.com\">Ok</a>");
        },
        other => panic!("{:?}", other),
    }
    match from_google_auth_error(GoogleAuthError::ShowError("boom".to_string()), None) {
        AuthAnswer::ErrorPage(e) => assert_eq!(e, "boom"),
        other => panic!("{:?}", other),
    }
}

#[test]
fn authorization_checks_the_header_then_the_requirement() {
    assert!(matches!(authorize_step(false, None, None), AuthorizeStep::NotAuthorized));
    let g = AuthorizationRequired::GoogleAuth("creds".to_string());
    match authorize_step(true, Some(&g), None) {
        AuthorizeStep::GoogleAuth(c) => assert_eq!(c, "creds"),
        other => panic!("{:?}", other),
    }
    let cn = "client-1".to_string();
    match authorize_step(true, Some(&AuthorizationRequired::ClientCertificate), Some(&cn)) {
        AuthorizeStep::Identity(Some(HttpProxyPassIdentity::ClientCert(c))) => assert_eq!(c, "client-1"),
        other => panic!("{:?}", other),
    }
    assert!(matches!(authorize_step(true, None, None), AuthorizeStep::Identity(None)));
}

#[test]
fn sign_in_results_become_identities_or_pages() {
    match google_auth_answer(GoogleAuthOkResult::Passed("a@b".to_string())) {
        GoogleAuthAnswer::Identity(HttpProxyPassIdentity::GoogleUser(e)) => assert_eq!(e, "a@b"),
        other => panic!("{:?}", other),
    }
    assert!(matches!(
        google_auth_answer(GoogleAuthOkResult::SetToken("a@b".to_string())),
        GoogleAuthAnswer::SetTokenAndConfirm(_)
    ));
    assert!(matches!(
        google_auth_answer(GoogleAuthOkResult::ShowLoginPage("g".to_string())),
        GoogleAuthAnswer::LoginPage(_)
    ));
}

#[test]
fn authenticated_user_body_and_cookie() {
    assert_eq!(
        generate_authenticated_user(Some("app.example.com"), "me@example.com"),
        r#"<h2>Authenticated user: me@example.com</h2><a class="btn btn-primary" href="https://app.example.com">Ok</a>"#
    );
    assert_eq!(
        generate_authenticated_user(None, "me@example.com"),
        r#"<h2>Authenticated user: me@example.com</h2><a class="btn btn-primary" href="https://">Ok</a>"#
    );
    assert_eq!(auth_cookie_value("tok"), "x-authorized=tok; SameSite=None; Secure;");
}
