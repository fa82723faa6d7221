use named_future::ast::{find_attrs_split, get_doc_value, Attr};
use named_future::error::BuildError;
use named_future::text::doc_marks_struct;
use named_future::tokens::Tok;

#[test]
fn marker_line_detected() {
    assert!(doc_marks_struct("#struct"));
    assert!(doc_marks_struct("# struct"));
    assert!(doc_marks_struct("#STRUCT"));
    assert!(doc_marks_struct("  # StRuCt  "));
    assert!(doc_marks_struct("\t#\tstruct\t"));
}

#[test]
fn marker_requires_hash() {
    assert!(!doc_marks_struct("struct"));
    assert!(!doc_marks_struct(" struct "));
    assert!(!doc_marks_struct(""));
    assert!(!doc_marks_struct("   "));
}

#[test]
fn marker_is_exact_word() {
    assert!(!doc_marks_struct("# structs"));
    assert!(!doc_marks_struct("#struct extra"));
    assert!(!doc_marks_struct("#stru"));
    assert!(!doc_marks_struct("#"));
}

#[test]
fn marker_check_handles_non_ascii_text() {
    assert!(!doc_marks_struct("#strüct"));
    assert!(!doc_marks_struct("日本語"));
    assert!(doc_marks_struct("  #  STRUCT  "));
}

#[test]
fn doc_value_extraction() {
    let doc = Attr::DocStr("hello".to_string());
    let other = Attr::Other(vec![Tok::Ident("inline".to_string())]);
    assert_eq!(get_doc_value(&doc), Some(&"hello".to_string()));
    assert_eq!(get_doc_value(&other), None);
}

#[test]
fn split_found_at_first_marker() {
    let attrs = vec![
        Attr::DocStr("first".to_string()),
        Attr::DocStr("# struct".to_string()),
        Attr::DocStr("#struct".to_string()),
    ];
    assert_eq!(find_attrs_split(&attrs), Some(1));
}

#[test]
fn split_absent_without_marker() {
    let attrs = vec![
        Attr::DocStr("docs".to_string()),
        Attr::Other(vec![Tok::Ident("inline".to_string())]),
    ];
    assert_eq!(find_attrs_split(&attrs), None);
}

#[test]
fn error_text_and_position() {
    let a = BuildError::UnexpectedInput { pos: 7 };
    let b = BuildError::SelfParam { param: 2 };
    assert_eq!(a.message(), "Unexpected input");
    assert_eq!(a.position(), 7);
    assert_eq!(b.message(), "Not implemented for Self");
    assert_eq!(b.position(), 2);
}
