use corg::shell::{CorgHeader, CorgStateManager};

#[test]
fn test_corg_new() {
    let expected = CorgStateManager {
        current_function_name: None,
        current_heading_level: None,
        inside_codeblock: false,
        current_indentation: "".to_string(),
        function_names: vec![],
        corg_tag: None,
        header: None,
        headers: vec![],
    };

    let actual = CorgStateManager::new();

    assert_eq!(actual, expected);
}

#[test]
fn test_corg_header_function_slug() {
    let header_text = String::from("Holla Cheese Burgers");
    let corg_header = CorgHeader { level: 2, close_before_start: false, text: Some(header_text) };

    let actual = corg_header.function_slug();

    assert_eq!(actual, "holla-cheese-burgers".to_string());
}

#[test]
fn test_corg_needs_to_push_function_name() {
    let mut ksm = CorgStateManager::new();

    ksm.header = Some(CorgHeader { level: 2, close_before_start: false, text: None });
    ksm.current_heading_level = Some(2);

    assert_eq!(ksm.needs_to_push_function_name(), true)
}

#[test]
fn test_corg_push_function_name() {
    let mut ksm = CorgStateManager::new();
    ksm.header = Some(CorgHeader { level: 2, close_before_start: false, text: None });

    ksm.push_function_name("shit".to_string());

    assert_eq!(ksm.current_function_name, Some("shit".to_string()))
}

#[test]
fn slug_passes_other_characters_through() {
    let header = CorgHeader {
        level: 2,
        close_before_start: false,
        text: Some("Mixed CASE Here!".to_string()),
    };
    assert_eq!(header.function_slug(), "mixed-case-here!".to_string());
}

#[test]
fn slug_of_missing_text_is_empty() {
    let header = CorgHeader { level: 2, close_before_start: false, text: None };
    assert_eq!(header.function_slug(), "".to_string());
}

#[test]
fn consecutive_level_two_headers_close() {
    let first = CorgHeader::new(2, None);
    assert!(!first.close_before_start);
    let second = CorgHeader::new(2, Some(first));
    assert!(second.close_before_start);
}

#[test]
fn level_two_after_deeper_header_does_not_close() {
    let sub = CorgHeader::new(3, Some(CorgHeader::new(2, None)));
    assert!(!sub.close_before_start);
    let next = CorgHeader::new(2, Some(sub));
    assert!(!next.close_before_start);
}

#[test]
fn level_one_never_closes() {
    let first = CorgHeader::new(2, None);
    let title = CorgHeader::new(1, Some(first));
    assert!(!title.close_before_start);
}
