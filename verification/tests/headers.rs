use grok_oauth::headers::Headers;

#[test]
fn headers_stand_in_the_order_of_their_names() {
    let mut headers = Headers::new();
    for name in ["m", "b", "z", "a", "n"] {
        headers.insert(name.to_string(), format!("{name}!"));
    }
    let names: Vec<&str> = headers.entries.iter().map(|entry| entry.0.as_str()).collect();
    assert_eq!(names, vec!["a", "b", "m", "n", "z"]);
    assert_eq!(headers.get("m").map(String::as_str), Some("m!"));
    assert_eq!(headers.get("c"), None);
}

#[test]
fn later_header_takes_the_place_of_an_earlier_one() {
    let mut headers = Headers::new();
    headers.insert("accept".to_string(), "text/html".to_string());
    headers.insert("accept".to_string(), "application/json".to_string());
    assert_eq!(headers.entries.len(), 1);
    assert_eq!(headers.get("accept").map(String::as_str), Some("application/json"));
    assert_eq!(headers.get("Accept"), None);
}

#[test]
fn no_headers_hold_no_name() {
    let headers = Headers::new();
    assert_eq!(headers.get(""), None);
    assert!(headers.entries.is_empty());
}
