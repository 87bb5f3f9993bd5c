use fakturoid::links::parse_links;

#[test]
fn two_relations_parse() {
    let links = parse_links("<https://x/a>; rel=\"next\", <https://x/b>; rel=\"prev\"");
    assert_eq!(
        links,
        vec![
            ("next".to_string(), "https://x/a".to_string()),
            ("prev".to_string(), "https://x/b".to_string())
        ]
    );
}

#[test]
fn malformed_entry_is_skipped() {
    let links = parse_links("<https://x/a>; rel=\"next\", <https://x/b>; nope=\"prev\"");
    assert_eq!(links, vec![("next".to_string(), "https://x/a".to_string())]);
}

#[test]
fn entry_with_extra_parts_is_skipped() {
    let links = parse_links("<https://x/a>; rel=\"next\"; extra=1, <https://x/b>; rel=\"last\"");
    assert_eq!(links, vec![("last".to_string(), "https://x/b".to_string())]);
}

#[test]
fn empty_header_yields_no_links() {
    assert!(parse_links("").is_empty());
}

#[test]
fn unquoted_relation_name_is_accepted() {
    let links = parse_links("<https://x/a>; rel=next");
    assert_eq!(links, vec![("next".to_string(), "https://x/a".to_string())]);
}

#[test]
fn surrounding_spaces_are_tolerated() {
    let links = parse_links("  <https://x/a>  ;  rel=\"first\" ");
    assert_eq!(links, vec![("first".to_string(), "https://x/a".to_string())]);
}

#[test]
fn url_without_brackets_is_kept_as_written() {
    let links = parse_links("https://x/a; rel=\"next\"");
    assert_eq!(links, vec![("next".to_string(), "https://x/a".to_string())]);
}

#[test]
fn relative_url_parses() {
    let links = parse_links("</api/v2/accounts/s/invoices.json?page=2>; rel=\"next\"");
    assert_eq!(
        links,
        vec![("next".to_string(), "/api/v2/accounts/s/invoices.json?page=2".to_string())]
    );
}
