use up_api::envelope::{Envelope, Links};

fn links_of(entries: &[(&str, Option<&str>)]) -> Links {
    let mut links = Links::new();
    for (name, target) in entries {
        links.insert(name.to_string(), target.map(|t| t.to_string()));
    }
    links
}

#[test]
fn empty_links_have_no_entry() {
    let links = Links::new();
    assert_eq!(links.get("next"), None);
    assert_eq!(links.get(""), None);
}

#[test]
fn links_tell_a_missing_name_from_an_absent_target() {
    let links = links_of(&[("prev", None), ("next", Some("https://api/accounts?page=2"))]);
    assert_eq!(links.get("prev"), Some(&None));
    assert_eq!(links.get("next"), Some(&Some("https://api/accounts?page=2".to_string())));
    assert_eq!(links.get("first"), None);
    assert_eq!(links.get("Next"), None);
    assert_eq!(links.get("nex"), None);
    assert_eq!(links.get("next "), None);
}

#[test]
fn later_link_replaces_earlier_one_of_the_same_name() {
    let links = links_of(&[("next", Some("a")), ("prev", Some("p")), ("next", Some("b"))]);
    assert_eq!(links.get("next"), Some(&Some("b".to_string())));
    assert_eq!(links.get("prev"), Some(&Some("p".to_string())));
    let links = links_of(&[("next", Some("a")), ("next", None)]);
    assert_eq!(links.get("next"), Some(&None));
    let links = links_of(&[("next", None), ("next", Some("a"))]);
    assert_eq!(links.get("next"), Some(&Some("a".to_string())));
}

#[test]
fn envelope_without_links_has_no_next() {
    let envelope = Envelope { data: vec![1u8], links: None };
    assert!(!envelope.has_next());
    assert_eq!(envelope.next_link(), None);
}

#[test]
fn envelope_with_empty_links_has_no_next() {
    let envelope = Envelope { data: vec![1u8], links: Some(Links::new()) };
    assert!(!envelope.has_next());
    assert_eq!(envelope.next_link(), None);
}

#[test]
fn envelope_with_other_links_only_has_no_next() {
    let envelope =
        Envelope { data: vec![1u8], links: Some(links_of(&[("prev", Some("https://api/accounts?page=1"))])) };
    assert!(!envelope.has_next());
    assert_eq!(envelope.next_link(), None);
}

#[test]
fn envelope_with_null_next_has_no_next() {
    let envelope = Envelope {
        data: vec![1u8],
        links: Some(links_of(&[("prev", Some("https://api/accounts?page=1")), ("next", None)])),
    };
    assert!(!envelope.has_next());
    assert_eq!(envelope.next_link(), None);
}

#[test]
fn envelope_with_next_gives_its_url() {
    let envelope = Envelope {
        data: Vec::<u8>::new(),
        links: Some(links_of(&[("prev", None), ("next", Some("https://api/accounts?page=2"))])),
    };
    assert!(envelope.has_next());
    assert_eq!(envelope.next_link(), Some("https://api/accounts?page=2".to_string()));
}

#[test]
fn single_resource_envelope_has_no_next() {
    let envelope = Envelope { data: "one record".to_string(), links: None };
    assert!(!envelope.has_next());
    assert_eq!(envelope.next_link(), None);
    assert_eq!(envelope.data, "one record");
}
