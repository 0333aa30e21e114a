use rocket_airlock::query::query_value;
use rocket_airlock::text::{
    chars_of, find, push_decimal, section_name, spells, text_of, without_spaces,
};

fn decimal(n: u16) -> String {
    let mut text = String::new();
    push_decimal(&mut text, n);
    text
}

#[test]
fn numbers_are_written_in_decimal() {
    assert_eq!(decimal(0), "0");
    assert_eq!(decimal(7), "7");
    assert_eq!(decimal(10), "10");
    assert_eq!(decimal(8000), "8000");
    assert_eq!(decimal(12345), "12345");
    assert_eq!(decimal(65535), "65535");
    let mut text = "port ".to_string();
    push_decimal(&mut text, 443);
    assert_eq!(text, "port 443");
}

#[test]
fn every_number_is_written_as_the_standard_library_writes_it() {
    let mut n: u16 = 0;
    loop {
        assert_eq!(decimal(n), n.to_string());
        if n == u16::MAX {
            break;
        }
        n += 1;
    }
}

#[test]
fn characters_and_text_go_back_and_forth() {
    let chars = chars_of("héllo");
    assert_eq!(chars, vec!['h', 'é', 'l', 'l', 'o']);
    assert_eq!(text_of(&chars, 0, 5), "héllo");
    assert_eq!(text_of(&chars, 1, 3), "él");
    assert_eq!(text_of(&chars, 2, 2), "");
}

#[test]
fn find_stops_at_the_first_occurrence() {
    let chars = chars_of("a=b=c");
    assert_eq!(find(&chars, '=', 0, 5), 1);
    assert_eq!(find(&chars, '=', 2, 5), 3);
    assert_eq!(find(&chars, '=', 4, 5), 5);
    assert_eq!(find(&chars, '#', 0, 5), 5);
    assert_eq!(find(&chars, '=', 0, 1), 1);
    assert_eq!(find(&chars, 'a', 0, 0), 0);
}

#[test]
fn spells_compares_a_part_with_a_word() {
    let chars = chars_of("state=abc");
    assert!(spells(&chars, 0, 5, &chars_of("state")));
    assert!(!spells(&chars, 0, 5, &chars_of("stale")));
    assert!(!spells(&chars, 0, 4, &chars_of("state")));
    assert!(spells(&chars, 3, 3, &chars_of("")));
}

#[test]
fn section_of_a_hatch_is_its_name_without_spaces_in_lowercase() {
    assert_eq!(section_name("OpenID Connect"), "openidconnect");
    assert_eq!(section_name("Simple"), "simple");
    assert_eq!(section_name(" A  B "), "ab");
    assert_eq!(without_spaces("OpenID Connect"), "OpenIDConnect");
    assert_eq!(without_spaces("   "), "");
    assert_eq!(without_spaces("tab\tstays"), "tab\tstays");
}

#[test]
fn query_value_reads_the_first_pair_of_the_key() {
    let url = "https://idp.example/authorize?response_type=code&state=abc&nonce=def&state=ghi";
    assert_eq!(query_value(url, "state"), Some("abc".to_string()));
    assert_eq!(query_value(url, "nonce"), Some("def".to_string()));
    assert_eq!(query_value(url, "response_type"), Some("code".to_string()));
    assert_eq!(query_value(url, "code"), None);
    assert_eq!(query_value(url, "stat"), None);
    assert_eq!(query_value(url, "tate"), None);
}

#[test]
fn query_value_keeps_to_the_query() {
    assert_eq!(query_value("https://idp.example/state=abc", "state"), None);
    assert_eq!(query_value("https://idp.example/a#?state=abc", "state"), None);
    assert_eq!(query_value("https://idp.example/a?state=abc#nonce=def", "nonce"), None);
    assert_eq!(query_value("https://idp.example/a?state=abc#x", "state"), Some("abc".to_string()));
    assert_eq!(query_value("/a?b=1?c=2", "b"), Some("1?c=2".to_string()));
    assert_eq!(query_value("", "state"), None);
    assert_eq!(query_value("?", "state"), None);
}

#[test]
fn query_value_takes_pairs_as_they_are_written() {
    assert_eq!(query_value("/a?state=", "state"), Some("".to_string()));
    assert_eq!(query_value("/a?state", "state"), None);
    assert_eq!(query_value("/a?state&state=x", "state"), Some("x".to_string()));
    assert_eq!(query_value("/a?=x", ""), Some("x".to_string()));
    assert_eq!(query_value("/a?&&state=a=b&", "state"), Some("a=b".to_string()));
    assert_eq!(query_value("/a?state=a%20b", "state"), Some("a%20b".to_string()));
    assert_eq!(query_value("/a?st%61te=x", "state"), None);
}
