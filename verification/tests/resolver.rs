use floki::DocNode;
use floki::join_path_exec;
use floki::parse_documents;
use floki::parse_index;
use floki::resolve_path;
use floki::split_dots_exec;

fn parse_first(text: &str) -> DocNode {
    let mut docs = parse_documents(text).expect("document should parse");
    assert!(!docs.is_empty(), "document should not be empty");
    docs.remove(0)
}

#[test]
fn resolves_through_sequence_index_then_map_key() {
    let doc = parse_first("services:\n  - name: web\n    image: nginx\n  - name: db\n    image: postgres");
    assert_eq!(resolve_path(&doc, "services.1.image"), Some("postgres".to_string()));
    assert_eq!(resolve_path(&doc, "services.0.name"), Some("web".to_string()));
}

#[test]
fn absent_key_and_out_of_range_index_fail_without_panicking() {
    let doc = parse_first("services:\n  - name: web\n  - name: db");
    assert_eq!(resolve_path(&doc, "services.5.name"), None);
    assert_eq!(resolve_path(&doc, "services.0.image"), None);
    assert_eq!(resolve_path(&doc, "volumes"), None);
    assert_eq!(resolve_path(&doc, "services.name"), None);
}

#[test]
fn numeric_segment_never_reads_a_mapping() {
    // A mapping key spelled like an integer is unreachable: a numeric-looking
    // segment always indexes the node as a sequence.
    let doc = parse_first("top:\n  \"0\": hidden");
    assert_eq!(resolve_path(&doc, "top.0"), None);
}

#[test]
fn non_scalar_terminal_is_no_resolution() {
    let doc = parse_first("a:\n  b:\n    c: leaf");
    assert_eq!(resolve_path(&doc, "a.b"), None);
    assert_eq!(resolve_path(&doc, "a.b.c"), Some("leaf".to_string()));
}

#[test]
fn non_string_scalars_do_not_resolve() {
    let doc = parse_first("a: 1\nb: true\nc: null\nd: 1.5\ne: word");
    assert_eq!(resolve_path(&doc, "a"), None);
    assert_eq!(resolve_path(&doc, "b"), None);
    assert_eq!(resolve_path(&doc, "c"), None);
    assert_eq!(resolve_path(&doc, "d"), None);
    assert_eq!(resolve_path(&doc, "e"), Some("word".to_string()));
}

#[test]
fn malformed_text_does_not_parse() {
    assert_eq!(parse_documents("a: [unclosed"), None);
}

#[test]
fn empty_text_parses_to_no_documents() {
    let docs = parse_documents("").expect("empty text scans cleanly");
    assert!(docs.is_empty());
}

#[test]
fn parse_index_reads_decimal_segments() {
    assert_eq!(parse_index("0"), Some(0));
    assert_eq!(parse_index("42"), Some(42));
    assert_eq!(parse_index("007"), Some(7));
    assert_eq!(parse_index("+12"), Some(12));
    assert_eq!(parse_index(""), None);
    assert_eq!(parse_index("+"), None);
    assert_eq!(parse_index("1a"), None);
    assert_eq!(parse_index("-1"), None);
    assert_eq!(parse_index("name"), None);
    assert_eq!(parse_index("99999999999999999999999999999999"), None);
}

#[test]
fn split_dots_keeps_every_segment() {
    let segs = split_dots_exec("a.b.0.c");
    assert_eq!(segs, vec!["a".to_string(), "b".to_string(), "0".to_string(), "c".to_string()]);
    assert_eq!(split_dots_exec(""), vec!["".to_string()]);
    assert_eq!(split_dots_exec("a."), vec!["a".to_string(), "".to_string()]);
    assert_eq!(split_dots_exec(".."), vec!["".to_string(), "".to_string(), "".to_string()]);
}

#[test]
fn join_path_separates_with_exactly_one_slash() {
    assert_eq!(join_path_exec("/work", "Dockerfile"), "/work/Dockerfile");
    assert_eq!(join_path_exec("/work/", "Dockerfile"), "/work/Dockerfile");
    assert_eq!(join_path_exec("", "Dockerfile"), "Dockerfile");
    assert_eq!(join_path_exec("/work", "/abs/Dockerfile"), "/abs/Dockerfile");
}
