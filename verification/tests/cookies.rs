use rocket_airlock::cookies::{Cookie, CookieChange, CookieJar, SameSite};

fn lax(name: &str, value: &str) -> Cookie {
    Cookie { name: name.to_string(), value: value.to_string(), same_site: SameSite::Lax }
}

#[test]
fn new_jar_holds_nothing() {
    let jar = CookieJar::new();
    assert!(jar.incoming.is_empty());
    assert!(jar.changes.is_empty());
    assert_eq!(jar.get("anything"), None);
}

#[test]
fn jar_yields_what_the_request_brought() {
    let jar = CookieJar::from_cookies(vec![lax("a", "1"), lax("b", "2")]);
    assert_eq!(jar.get("a"), Some("1".to_string()));
    assert_eq!(jar.get("b"), Some("2".to_string()));
    assert_eq!(jar.get("c"), None);
    assert!(jar.changes.is_empty());
}

#[test]
fn later_cookie_of_a_name_counts() {
    let jar = CookieJar::from_cookies(vec![lax("a", "1"), lax("a", "2")]);
    assert_eq!(jar.get("a"), Some("2".to_string()));
}

#[test]
fn added_cookie_replaces_the_one_brought() {
    let mut jar = CookieJar::from_cookies(vec![lax("a", "1")]);
    jar.add(lax("a", "changed"));
    assert_eq!(jar.get("a"), Some("changed".to_string()));
    assert_eq!(jar.incoming.len(), 1);
    assert_eq!(jar.changes.len(), 1);
    match &jar.changes[0] {
        CookieChange::Add(cookie) => {
            assert_eq!(cookie.name, "a");
            assert_eq!(cookie.value, "changed");
            assert_eq!(cookie.same_site, SameSite::Lax);
        },
        other => panic!("expected an addition, got {:?}", other),
    }
}

#[test]
fn removed_cookie_is_gone_until_it_is_added_again() {
    let mut jar = CookieJar::from_cookies(vec![lax("a", "1"), lax("b", "2")]);
    jar.remove("a");
    assert_eq!(jar.get("a"), None);
    assert_eq!(jar.get("b"), Some("2".to_string()));
    match &jar.changes[0] {
        CookieChange::Remove(name) => assert_eq!(name, "a"),
        other => panic!("expected a removal, got {:?}", other),
    }
    jar.add(lax("a", "3"));
    assert_eq!(jar.get("a"), Some("3".to_string()));
    jar.remove("a");
    assert_eq!(jar.get("a"), None);
    assert_eq!(jar.changes.len(), 3);
}

#[test]
fn removing_what_is_not_there_leaves_the_rest() {
    let mut jar = CookieJar::from_cookies(vec![lax("b", "2")]);
    jar.remove("a");
    assert_eq!(jar.get("a"), None);
    assert_eq!(jar.get("b"), Some("2".to_string()));
    assert_eq!(jar.changes.len(), 1);
}
