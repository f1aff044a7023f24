use qlhighlight::highlight::{determine_file_type, FileType};

#[test]
fn static_archive_is_binary() {
    assert_eq!(determine_file_type("dyn.ah62d4rv4ge80c"), FileType::Binary);
}

#[test]
fn shared_object_is_binary() {
    assert_eq!(determine_file_type("dyn.ah62d4rv4ge81g52"), FileType::Binary);
}

#[test]
fn rust_library_is_binary() {
    assert_eq!(determine_file_type("dyn.ah62d4rv4ge81e5dmqk"), FileType::Binary);
}

#[test]
fn dynamic_library_is_binary() {
    assert_eq!(determine_file_type("com.apple.mach-o-dylib"), FileType::Binary);
}

#[test]
fn windows_executable_is_binary() {
    assert_eq!(determine_file_type("com.microsoft.windows-executable"), FileType::Binary);
}

#[test]
fn windows_dll_is_binary() {
    assert_eq!(
        determine_file_type("com.microsoft.windows-dynamic-link-library"),
        FileType::Binary
    );
}

#[test]
fn java_archive_is_binary() {
    assert_eq!(determine_file_type("com.sun.java-archive"), FileType::Binary);
}

#[test]
fn java_class_is_binary() {
    assert_eq!(determine_file_type("com.sun.java-class"), FileType::Binary);
}

#[test]
fn generic_executable_is_binary() {
    assert_eq!(determine_file_type("public.executable"), FileType::Binary);
}

#[test]
fn object_code_is_binary() {
    assert_eq!(determine_file_type("public.object-code"), FileType::Binary);
}

#[test]
fn unix_executable_is_binary() {
    assert_eq!(determine_file_type("public.unix-executable"), FileType::Binary);
}

#[test]
fn property_list_is_plist() {
    assert_eq!(determine_file_type("com.apple.property-list"), FileType::Plist);
}

#[test]
fn plain_text_is_syntax() {
    assert_eq!(determine_file_type("public.plain-text"), FileType::Syntax);
}

#[test]
fn unknown_identifiers_are_syntax() {
    assert_eq!(determine_file_type(""), FileType::Syntax);
    assert_eq!(determine_file_type("public.rust-source"), FileType::Syntax);
    assert_eq!(determine_file_type("no such type"), FileType::Syntax);
}

#[test]
fn identifiers_are_matched_exactly() {
    assert_eq!(determine_file_type("com.sun.java-clas"), FileType::Syntax);
    assert_eq!(determine_file_type("com.sun.java-class "), FileType::Syntax);
    assert_eq!(determine_file_type("COM.SUN.JAVA-CLASS"), FileType::Syntax);
    assert_eq!(determine_file_type("public.executables"), FileType::Syntax);
    assert_eq!(determine_file_type("com.apple.property-list.binary"), FileType::Syntax);
    assert_eq!(determine_file_type("Com.apple.property-list"), FileType::Syntax);
}

#[test]
fn identifiers_of_equal_length_are_told_apart() {
    // as long as "public.executable", and equal to it up to the last letter
    assert_eq!(determine_file_type("public.executablf"), FileType::Syntax);
    // a non-ASCII letter in place of an ASCII one
    assert_eq!(determine_file_type("public.ex\u{e9}cutable"), FileType::Syntax);
}
