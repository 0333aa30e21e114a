use rocket_airlock::cookies::{Cookie, CookieChange, CookieJar, SameSite};
use rocket_airlock::extractor::{AuthenticationResponse, CallbackQuery};
use rocket_airlock::outcome::Outcome;

fn cookie(name: &str, value: &str) -> Cookie {
    Cookie { name: name.to_string(), value: value.to_string(), same_site: SameSite::Lax }
}

fn callback(code: &str, state: &str, session_state: &str) -> CallbackQuery {
    CallbackQuery {
        code: Some(code.to_string()),
        state: Some(state.to_string()),
        session_state: Some(session_state.to_string()),
    }
}

fn login_under_way() -> CookieJar {
    CookieJar::from_cookies(vec![
        cookie("oidc_state", "Y"),
        cookie("oidc_nonce", "N"),
        cookie("theme", "dark"),
    ])
}

fn removed(jar: &CookieJar) -> Vec<String> {
    let mut names = Vec::new();
    for change in &jar.changes {
        match change {
            CookieChange::Remove(name) => names.push(name.clone()),
            CookieChange::Add(cookie) => panic!("unexpected cookie {:?}", cookie),
        }
    }
    names
}

fn assert_bad_request(outcome: Outcome<AuthenticationResponse, rocket_airlock::outcome::Status, rocket_airlock::outcome::Status>) {
    match outcome {
        Outcome::Error(status) => assert_eq!(status.code, 400),
        other => panic!("expected a bad request, got {:?}", other),
    }
}

#[test]
fn request_without_parameters_is_forwarded() {
    let mut jar = login_under_way();
    let query = CallbackQuery { code: None, state: None, session_state: None };
    match AuthenticationResponse::from_request(query, &mut jar) {
        Outcome::Forward(status) => assert_eq!(status.code, 200),
        other => panic!("expected a forward, got {:?}", other),
    }
    assert!(jar.changes.is_empty());
    assert_eq!(jar.get("oidc_state"), Some("Y".to_string()));
    assert_eq!(jar.get("oidc_nonce"), Some("N".to_string()));
}

#[test]
fn request_that_lacks_one_parameter_is_forwarded() {
    let lacking = [
        CallbackQuery { code: None, ..callback("X", "Y", "Z") },
        CallbackQuery { state: None, ..callback("X", "Y", "Z") },
        CallbackQuery { session_state: None, ..callback("X", "Y", "Z") },
    ];
    for query in lacking {
        let mut jar = login_under_way();
        match AuthenticationResponse::from_request(query, &mut jar) {
            Outcome::Forward(status) => assert_eq!(status.code, 200),
            other => panic!("expected a forward, got {:?}", other),
        }
        assert!(jar.changes.is_empty());
        assert_eq!(jar.get("oidc_state"), Some("Y".to_string()));
    }
}

#[test]
fn callback_with_matching_state_passes() {
    let mut jar = login_under_way();
    match AuthenticationResponse::from_request(callback("X", "Y", "Z"), &mut jar) {
        Outcome::Success(response) => {
            assert_eq!(response.code, "X");
            assert_eq!(response.nonce, "N");
            assert_eq!(response.session_state, "Z");
        },
        other => panic!("expected a success, got {:?}", other),
    }
    assert_eq!(jar.get("oidc_state"), None);
    assert_eq!(jar.get("oidc_nonce"), None);
    assert_eq!(jar.get("theme"), Some("dark".to_string()));
    assert_eq!(removed(&jar), vec!["oidc_state".to_string(), "oidc_nonce".to_string()]);
}

#[test]
fn callback_with_another_state_is_refused_and_the_state_is_removed() {
    let mut jar = CookieJar::from_cookies(vec![cookie("oidc_state", "W"), cookie("oidc_nonce", "N")]);
    assert_bad_request(AuthenticationResponse::from_request(callback("X", "Y", "Z"), &mut jar));
    assert_eq!(jar.get("oidc_state"), None);
    assert_eq!(jar.get("oidc_nonce"), None);
    assert_eq!(removed(&jar), vec!["oidc_state".to_string(), "oidc_nonce".to_string()]);
}

#[test]
fn callback_without_a_stored_state_is_refused() {
    let mut jar = CookieJar::from_cookies(vec![cookie("oidc_nonce", "N")]);
    assert_bad_request(AuthenticationResponse::from_request(callback("X", "Y", "Z"), &mut jar));
    assert_eq!(jar.get("oidc_state"), None);
    assert_eq!(jar.get("oidc_nonce"), None);
}

#[test]
fn callback_without_a_stored_nonce_is_refused() {
    let mut jar = CookieJar::from_cookies(vec![cookie("oidc_state", "Y")]);
    assert_bad_request(AuthenticationResponse::from_request(callback("X", "Y", "Z"), &mut jar));
    assert_eq!(jar.get("oidc_state"), None);
    assert_eq!(jar.get("oidc_nonce"), None);
}

#[test]
fn callback_sent_a_second_time_is_refused() {
    let mut jar = login_under_way();
    match AuthenticationResponse::from_request(callback("X", "Y", "Z"), &mut jar) {
        Outcome::Success(_) => {},
        other => panic!("expected a success, got {:?}", other),
    }
    assert_bad_request(AuthenticationResponse::from_request(callback("X", "Y", "Z"), &mut jar));
    assert_eq!(jar.get("oidc_state"), None);
    assert_eq!(jar.get("oidc_nonce"), None);
}

#[test]
fn state_is_compared_as_it_is_written() {
    let mut jar = CookieJar::from_cookies(vec![cookie("oidc_state", "y"), cookie("oidc_nonce", "N")]);
    assert_bad_request(AuthenticationResponse::from_request(callback("X", "Y", "Z"), &mut jar));
    let mut jar = CookieJar::from_cookies(vec![cookie("oidc_state", "Y "), cookie("oidc_nonce", "N")]);
    assert_bad_request(AuthenticationResponse::from_request(callback("X", "Y", "Z"), &mut jar));
    let mut jar = CookieJar::from_cookies(vec![cookie("oidc_state", ""), cookie("oidc_nonce", "N")]);
    assert_bad_request(AuthenticationResponse::from_request(callback("X", "Y", "Z"), &mut jar));
}

#[test]
fn state_that_was_replaced_counts_as_it_stands() {
    let mut jar = CookieJar::from_cookies(vec![cookie("oidc_state", "old"), cookie("oidc_nonce", "N")]);
    jar.add(cookie("oidc_state", "Y"));
    match AuthenticationResponse::from_request(callback("X", "Y", "Z"), &mut jar) {
        Outcome::Success(response) => assert_eq!(response.nonce, "N"),
        other => panic!("expected a success, got {:?}", other),
    }
    assert_eq!(jar.get("oidc_state"), None);
}
