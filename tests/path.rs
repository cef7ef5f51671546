use wasmtime_cli::path::{derived_output, file_name, file_stem, find_last};

fn bytes(s: &str) -> Vec<u8> {
    s.as_bytes().to_vec()
}

#[test]
fn file_name_is_final_component() {
    assert_eq!(file_name(b"dir/sub/foo.wat"), Some(bytes("foo.wat")));
    assert_eq!(file_name(b"foo.wasm"), Some(bytes("foo.wasm")));
    assert_eq!(file_name(b"/abs/x"), Some(bytes("x")));
}

#[test]
fn no_file_name_for_trailing_separator_or_dots() {
    assert_eq!(file_name(b"dir/"), None);
    assert_eq!(file_name(b"/"), None);
    assert_eq!(file_name(b""), None);
    assert_eq!(file_name(b"dir/.."), None);
    assert_eq!(file_name(b"."), None);
}

#[test]
fn stem_rules() {
    assert_eq!(file_stem(b"foo.wasm"), bytes("foo"));
    assert_eq!(file_stem(b"foo.tar.gz"), bytes("foo.tar"));
    assert_eq!(file_stem(b"foo"), bytes("foo"));
    assert_eq!(file_stem(b".hidden"), bytes(".hidden"));
    assert_eq!(file_stem(b"a."), bytes("a"));
}

#[test]
fn derived_output_replaces_extension() {
    assert_eq!(derived_output(b"dir/foo.wasm"), Some(bytes("foo.cwasm")));
    assert_eq!(derived_output(b"foo.wat"), Some(bytes("foo.cwasm")));
}

#[test]
fn derived_output_appends_to_extensionless_name() {
    assert_eq!(derived_output(b"some/dir/module"), Some(bytes("module.cwasm")));
    assert_eq!(derived_output(b".hidden"), Some(bytes(".hidden.cwasm")));
}

#[test]
fn derived_output_needs_a_file_name() {
    assert_eq!(derived_output(b"some/dir/"), None);
}

#[test]
fn find_last_positions() {
    assert_eq!(find_last(b"a/b/c", b'/'), Some(3));
    assert_eq!(find_last(b"abc", b'/'), None);
    assert_eq!(find_last(b"", b'/'), None);
}
