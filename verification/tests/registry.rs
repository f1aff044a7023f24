use qlhighlight::registry::{select_theme, GrammarRegistry};
use syntect::highlighting::{Color, Theme, ThemeSet};
use syntect::parsing::{SyntaxSet, SyntaxSetBuilder};

fn registry() -> GrammarRegistry {
    GrammarRegistry::new(SyntaxSet::load_defaults_newlines()).unwrap()
}

fn bundled() -> Theme {
    let mut theme = Theme::default();
    theme.name = Some(String::from("bundled"));
    theme.settings.foreground = Some(Color { r: 9, g: 8, b: 7, a: 255 });
    theme
}

#[test]
fn the_default_grammars_are_accepted() {
    assert!(GrammarRegistry::new(SyntaxSet::load_defaults_newlines()).is_some());
    assert!(GrammarRegistry::new(SyntaxSet::load_defaults_nonewlines()).is_some());
}

#[test]
fn a_collection_without_plain_text_is_refused() {
    assert!(GrammarRegistry::new(SyntaxSet::new()).is_none());
}

#[test]
fn plain_text_alone_is_enough() {
    let mut builder = SyntaxSetBuilder::new();
    builder.add_plain_text_syntax();
    let registry = GrammarRegistry::new(builder.build()).unwrap();
    assert_eq!(registry.plain_text().name, "Plain Text");
    assert!(registry.by_name("XML").is_none());
    assert_eq!(registry.by_name_or_plain("XML").name, "Plain Text");
}

#[test]
fn the_collection_is_kept_as_it_is() {
    let count = SyntaxSet::load_defaults_newlines().syntaxes().len();
    assert_eq!(registry().as_syntax_set().syntaxes().len(), count);
}

#[test]
fn the_plain_grammar_is_plain_text() {
    assert_eq!(registry().plain_text().name, "Plain Text");
}

#[test]
fn names_are_matched_exactly() {
    let registry = registry();
    assert_eq!(registry.by_name("Rust").unwrap().name, "Rust");
    assert_eq!(registry.by_name("XML").unwrap().name, "XML");
    assert!(registry.by_name("rust").is_none());
    assert!(registry.by_name("rs").is_none());
    assert!(registry.by_name("").is_none());
}

#[test]
fn a_missing_name_gives_plain_text() {
    let registry = registry();
    assert_eq!(registry.by_name_or_plain("XML").name, "XML");
    assert_eq!(registry.by_name_or_plain("No Such Language").name, "Plain Text");
}

#[test]
fn tokens_match_extensions_and_names() {
    let registry = registry();
    assert_eq!(registry.by_token("rs").unwrap().name, "Rust");
    assert_eq!(registry.by_token("RS").unwrap().name, "Rust");
    assert_eq!(registry.by_token("rust").unwrap().name, "Rust");
    assert_eq!(registry.by_token("Makefile").unwrap().name, "Makefile");
    assert!(registry.by_token("no-such-token").is_none());
}

#[test]
fn a_base_name_selects_its_grammar() {
    let registry = registry();
    assert_eq!(registry.by_stem(Some("Makefile")).name, "Makefile");
    assert_eq!(registry.by_stem(Some("rust")).name, "Rust");
}

#[test]
fn an_unknown_base_name_gives_plain_text() {
    let registry = registry();
    assert_eq!(registry.by_stem(Some("notes")).name, "Plain Text");
    assert_eq!(registry.by_stem(Some("")).name, "Plain Text");
}

#[test]
fn no_base_name_gives_plain_text() {
    assert_eq!(registry().by_stem(None).name, "Plain Text");
}

#[test]
fn a_registered_theme_is_selected_by_its_name() {
    let themes = ThemeSet::load_defaults();
    let theme = select_theme(&themes, "base16-ocean.dark", bundled());
    assert_eq!(theme, themes.themes["base16-ocean.dark"]);
    assert_ne!(theme, bundled());
}

#[test]
fn an_absent_theme_gives_the_bundled_one() {
    let themes = ThemeSet::load_defaults();
    assert_eq!(select_theme(&themes, "Xcode-like", bundled()), bundled());
    assert_eq!(select_theme(&themes, "", bundled()), bundled());
    assert_eq!(select_theme(&themes, "Base16-Ocean.Dark", bundled()), bundled());
}

#[test]
fn an_empty_collection_gives_the_bundled_theme() {
    assert_eq!(select_theme(&ThemeSet::new(), "base16-ocean.dark", bundled()), bundled());
}

#[test]
fn a_theme_of_the_bundled_name_in_the_collection_wins() {
    let mut themes = ThemeSet::new();
    let mut custom = Theme::default();
    custom.author = Some(String::from("someone"));
    themes.themes.insert(String::from("Xcode-like"), custom.clone());
    assert_eq!(select_theme(&themes, "Xcode-like", bundled()), custom);
}
