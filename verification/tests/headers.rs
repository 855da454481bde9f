use cpp_glue::headers::Header;
use cpp_glue::text::{decimal_string, join_strings};

#[test]
fn system_header_renders_in_angle_brackets() {
    let h = Header::system("memory");
    assert_eq!(h.include_stmt(), "#include <memory>");
}

#[test]
fn user_header_renders_in_quotes() {
    let h = Header::user("cxx.h");
    assert_eq!(h.include_stmt(), "#include \"cxx.h\"");
}

#[test]
fn joining_strings_places_separator_between_parts() {
    assert_eq!(join_strings(&Vec::new(), ", "), "");
    assert_eq!(join_strings(&vec!["a".to_string()], ", "), "a");
    assert_eq!(
        join_strings(
            &vec!["a".to_string(), "b".to_string(), "c".to_string()],
            "::"
        ),
        "a::b::c"
    );
}

#[test]
fn decimal_rendering_of_indexes() {
    assert_eq!(decimal_string(0), "0");
    assert_eq!(decimal_string(7), "7");
    assert_eq!(decimal_string(10), "10");
    assert_eq!(decimal_string(12345), "12345");
}
