use qlhighlight::highlight::{apply_style, hex_highlight_file};
use qlhighlight::registry::GrammarRegistry;
use qlhighlight::util::{get_settings, Config, Preferences};
use syntect::highlighting::{Theme, ThemeSet};
use syntect::parsing::SyntaxSet;

fn config() -> Config {
    let registry = GrammarRegistry::new(SyntaxSet::load_defaults_newlines()).unwrap();
    get_settings(Preferences::empty().resolve(), &ThemeSet::new(), registry, Theme::default())
}

fn dump(bytes: Vec<u8>) -> String {
    let conf = config();
    let page = hex_highlight_file(bytes, &conf);
    let shell = apply_style("", &conf);
    assert!(page.starts_with(&shell));
    String::from(&page[shell.len()..])
}

#[test]
fn an_empty_file_gives_an_empty_row() {
    assert_eq!(dump(Vec::new()), "00000000    |  |");
}

#[test]
fn a_full_row_of_zero_bytes() {
    assert_eq!(
        dump(vec![0x00; 16]),
        "00000000  00 00 00 00 00 00 00 00 00 00 00 00 00 00 00 00  | ................ |"
    );
}

#[test]
fn a_full_row_of_ff_bytes() {
    assert_eq!(
        dump(vec![0xff; 16]),
        "00000000  FF FF FF FF FF FF FF FF FF FF FF FF FF FF FF FF  | ................ |"
    );
}

#[test]
fn a_short_row_is_padded() {
    assert_eq!(
        dump(vec![0x41, 0x00, 0xff]),
        "00000000  41 00 FF                                         | A..              |"
    );
}

#[test]
fn printable_ascii_is_shown_and_the_rest_is_a_dot() {
    assert_eq!(
        dump(vec![0x1f, 0x20, 0x7e, 0x7f, 0x80, b'<', b'>', b'&']),
        "00000000  1F 20 7E 7F 80 3C 3E 26                          | . ~..<>&         |"
    );
}

#[test]
fn rows_hold_sixteen_bytes_and_carry_their_offset() {
    let bytes: Vec<u8> = (0x30..0x30 + 20).collect();
    assert_eq!(
        dump(bytes),
        "00000000  30 31 32 33 34 35 36 37 38 39 3A 3B 3C 3D 3E 3F  | 0123456789:;<=>? |\n00000010  40 41 42 43                                      | @ABC             |"
    );
}

#[test]
fn two_full_rows_have_no_third() {
    assert_eq!(
        dump(vec![0x00; 32]),
        "00000000  00 00 00 00 00 00 00 00 00 00 00 00 00 00 00 00  | ................ |\n00000010  00 00 00 00 00 00 00 00 00 00 00 00 00 00 00 00  | ................ |"
    );
}

#[test]
fn a_dump_is_wrapped_in_the_page_shell() {
    let conf = config();
    assert_eq!(
        hex_highlight_file(vec![0xca, 0xfe, 0xba, 0xbe], &conf),
        apply_style(
            "00000000  CA FE BA BE                                      | ....             |",
            &conf
        )
    );
}

#[test]
fn long_runs_of_zero_and_ff_bytes_are_rendered() {
    let zeros = dump(vec![0x00; 1000]);
    assert_eq!(zeros.lines().count(), 63);
    assert!(zeros.ends_with("000003E0  00 00 00 00 00 00 00 00                          | ........         |"));
    let ones = dump(vec![0xff; 1000]);
    assert_eq!(ones.lines().count(), 63);
    assert!(ones.starts_with("00000000  FF FF FF FF"));
}
