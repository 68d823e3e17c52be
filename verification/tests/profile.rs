use dino_park_lookout::profile::{encode_page, Profile};

fn profile(user_id: Option<&str>, active: Option<bool>, document: &str) -> Profile {
    Profile { user_id: user_id.map(String::from), active, document: String::from(document) }
}

#[test]
fn empty_page_is_an_empty_array() {
    assert_eq!(encode_page(&vec![]), "[]");
}

#[test]
fn page_of_one_has_no_comma() {
    let page = vec![profile(Some("a"), Some(true), "{\"user_id\":\"a\"}")];
    assert_eq!(encode_page(&page), "[{\"user_id\":\"a\"}]");
}

#[test]
fn page_keeps_its_order() {
    let page = vec![
        profile(Some("a"), None, "{\"n\":1}"),
        profile(None, None, "{\"n\":2}"),
        profile(Some("c"), Some(false), "{\"n\":3}"),
    ];
    assert_eq!(encode_page(&page), "[{\"n\":1},{\"n\":2},{\"n\":3}]");
}

#[test]
fn documents_are_taken_as_they_are() {
    let page = vec![profile(None, None, " { \"k\" : [1, 2] } "), profile(None, None, "")];
    assert_eq!(encode_page(&page), "[ { \"k\" : [1, 2] } ,]");
}

#[test]
fn label_is_the_user_id_or_unknown() {
    assert_eq!(profile(Some("ad|Mozilla-LDAP|fiji"), None, "{}").label(), "ad|Mozilla-LDAP|fiji");
    assert_eq!(profile(Some(""), None, "{}").label(), "");
    assert_eq!(profile(None, Some(true), "{}").label(), "unknown");
}

#[test]
fn profile_is_active_only_where_it_says_so() {
    assert!(profile(None, Some(true), "{}").is_active());
    assert!(!profile(None, Some(false), "{}").is_active());
    assert!(!profile(None, None, "{}").is_active());
}
