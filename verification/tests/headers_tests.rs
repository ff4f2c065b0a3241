use http_response::Headers;

#[test]
fn new_headers_are_empty() {
    let headers = Headers::new();
    assert_eq!(headers.len(), 0);
    assert_eq!(headers.get("Content-Type"), None);
    assert!(!headers.contains_key("Content-Type"));
    assert!(headers.to_vec().is_empty());
}

#[test]
fn insert_adds_an_entry() {
    let mut headers = Headers::new();
    headers.insert("A".to_string(), "1".to_string());
    headers.insert("B".to_string(), "2".to_string());
    assert_eq!(headers.len(), 2);
    assert_eq!(headers.get("A"), Some(&"1".to_string()));
    assert_eq!(headers.get("B"), Some(&"2".to_string()));
    assert_eq!(headers.get("C"), None);
    assert!(headers.contains_key("A"));
    assert!(!headers.contains_key("a"));
}

#[test]
fn insert_overwrites_the_value_of_a_name() {
    let mut headers = Headers::new();
    headers.insert("A".to_string(), "1".to_string());
    headers.insert("B".to_string(), "2".to_string());
    headers.insert("A".to_string(), "3".to_string());
    assert_eq!(headers.len(), 2);
    assert_eq!(headers.get("A"), Some(&"3".to_string()));
    assert_eq!(headers.get("B"), Some(&"2".to_string()));
}

#[test]
fn to_vec_lists_each_name_once() {
    let mut headers = Headers::new();
    headers.insert("A".to_string(), "1".to_string());
    headers.insert("B".to_string(), "2".to_string());
    headers.insert("A".to_string(), "3".to_string());
    headers.insert("".to_string(), "".to_string());
    let mut pairs = headers.to_vec();
    pairs.sort();
    assert_eq!(
        pairs,
        vec![
            ("".to_string(), "".to_string()),
            ("A".to_string(), "3".to_string()),
            ("B".to_string(), "2".to_string()),
        ]
    );
}

#[test]
fn cloned_headers_are_a_map_of_their_own() {
    let mut headers = Headers::new();
    headers.insert("A".to_string(), "1".to_string());
    let copy = headers.clone();
    headers.insert("A".to_string(), "2".to_string());
    headers.insert("B".to_string(), "3".to_string());
    assert_eq!(copy.len(), 1);
    assert_eq!(copy.get("A"), Some(&"1".to_string()));
    assert_eq!(headers.len(), 2);
    assert_eq!(headers.get("A"), Some(&"2".to_string()));
}

#[test]
fn names_that_share_a_prefix_are_different_names() {
    let mut headers = Headers::new();
    headers.insert("X-Foo".to_string(), "1".to_string());
    headers.insert("X-Foo-Bar".to_string(), "2".to_string());
    headers.insert("X-Fo".to_string(), "3".to_string());
    assert_eq!(headers.len(), 3);
    assert_eq!(headers.get("X-Foo"), Some(&"1".to_string()));
    assert_eq!(headers.get("X-Foo-Bar"), Some(&"2".to_string()));
    assert_eq!(headers.get("X-Fo"), Some(&"3".to_string()));
    assert_eq!(headers.get("X-F"), None);
}
