//! The grammar and theme collections, and how a grammar and a theme are picked
//! from them.
//!
//! The collections themselves belong to `syntect`. Verus sees a theme's fields
//! (the library reads the page colours from them) but nothing inside a grammar
//! or a collection: what a lookup returns is spoken of by name.

use syntect::highlighting::{Theme, ThemeSet};
use syntect::parsing::{SyntaxReference, SyntaxSet};
use vstd::prelude::*;

verus! {

#[verifier::external_type_specification]
pub struct ExColor(syntect::highlighting::Color);

#[verifier::external_type_specification]
pub struct ExUnderlineOption(syntect::highlighting::UnderlineOption);

#[verifier::external_type_specification]
pub struct ExThemeSettings(syntect::highlighting::ThemeSettings);

#[verifier::external_type_specification]
#[verifier::external_body]
pub struct ExThemeItem(syntect::highlighting::ThemeItem);

#[verifier::external_type_specification]
pub struct ExTheme(syntect::highlighting::Theme);

#[verifier::external_type_specification]
#[verifier::external_body]
pub struct ExThemeSet(syntect::highlighting::ThemeSet);

#[verifier::external_type_specification]
#[verifier::external_body]
pub struct ExSyntaxSet(syntect::parsing::SyntaxSet);

#[verifier::external_type_specification]
#[verifier::external_body]
pub struct ExSyntaxReference(syntect::parsing::SyntaxReference);

/// The grammar that `SyntaxSet::find_syntax_by_name` finds in `set` under
/// exactly the name `name`, if it finds one.
pub uninterp spec fn syntax_named(set: SyntaxSet, name: Seq<char>) -> Option<SyntaxReference>;

/// The grammar that `SyntaxSet::find_syntax_by_token` finds in `set` for
/// `token`: by file extension first, then by name, both without regard to
/// ASCII case.
pub uninterp spec fn syntax_for_token(set: SyntaxSet, token: Seq<char>) -> Option<SyntaxReference>;

/// The themes of `set`, each under the name it is registered by.
pub uninterp spec fn themes_of(set: ThemeSet) -> Map<Seq<char>, Theme>;

/// The name under which every usable grammar collection holds the grammar
/// without highlighting rules.
pub open spec fn plain_text_name() -> Seq<char> {
    "Plain Text"@
}

/// The name of the grammar that property lists are rendered with.
pub open spec fn xml_name() -> Seq<char> {
    "XML"@
}

/// The grammar without highlighting rules of `set`.
pub open spec fn plain_text_of(set: SyntaxSet) -> SyntaxReference {
    syntax_named(set, plain_text_name()).unwrap()
}

/// What a borrowed lookup result holds.
pub open spec fn found_value<T>(found: Option<&T>) -> Option<T> {
    match found {
        Some(item) => Some(*item),
        None => None,
    }
}

/// Calls `SyntaxSet::find_syntax_by_name`, which searches the set for a
/// grammar whose name equals `name`. The contract only gives the result its
/// name.
#[verifier::external_body]
fn find_syntax_by_name<'a>(set: &'a SyntaxSet, name: &str) -> (found: Option<&'a SyntaxReference>)
    ensures
        found_value(found) == syntax_named(*set, name@),
{
    set.find_syntax_by_name(name)
}

/// Calls `SyntaxSet::find_syntax_by_token`, which searches the set by file
/// extension and then by name. The contract only gives the result its name.
#[verifier::external_body]
fn find_syntax_by_token<'a>(set: &'a SyntaxSet, token: &str) -> (found: Option<
    &'a SyntaxReference,
>)
    ensures
        found_value(found) == syntax_for_token(*set, token@),
{
    set.find_syntax_by_token(token)
}

/// Calls `SyntaxSet::find_syntax_plain_text`, which returns what
/// `find_syntax_by_name` finds for "Plain Text" and panics where that is
/// nothing: the precondition leaves such sets out.
#[verifier::external_body]
fn find_syntax_plain_text<'a>(set: &'a SyntaxSet) -> (plain: &'a SyntaxReference)
    requires
        syntax_named(*set, plain_text_name()) is Some,
    ensures
        *plain == plain_text_of(*set),
{
    set.find_syntax_plain_text()
}

/// Looks `name` up in the `themes` map of a `ThemeSet` with `BTreeMap::get`:
/// the theme registered under exactly that name, if there is one.
#[verifier::external_body]
fn find_theme<'a>(set: &'a ThemeSet, name: &str) -> (found: Option<&'a Theme>)
    ensures
        found is Some <==> themes_of(*set).contains_key(name@),
        found is Some ==> *found.unwrap() == themes_of(*set)[name@],
{
    set.themes.get(name)
}

/// Calls the `Clone` impl that `syntect` derives for `Theme`: the copy equals
/// the theme it was made from, field by field.
#[verifier::external_body]
fn clone_theme(theme: &Theme) -> (copy: Theme)
    ensures
        copy == *theme,
{
    theme.clone()
}

/// A grammar collection that is known to hold the grammar without
/// highlighting rules, so that a grammar can be handed out for every file.
#[derive(Debug)]
pub struct GrammarRegistry {
    set: SyntaxSet,
}

impl View for GrammarRegistry {
    type V = SyntaxSet;

    closed spec fn view(&self) -> SyntaxSet {
        self.set
    }
}

impl GrammarRegistry {
    #[verifier::type_invariant]
    spec fn has_plain_text(self) -> bool {
        syntax_named(self.set, plain_text_name()) is Some
    }

    /// Accepts a grammar collection if it holds the grammar without
    /// highlighting rules, and refuses it otherwise.
    pub fn new(set: SyntaxSet) -> (registry: Option<GrammarRegistry>)
        ensures
            registry is Some <==> syntax_named(set, plain_text_name()) is Some,
            registry is Some ==> registry.unwrap()@ == set,
    {
        let usable = find_syntax_by_name(&set, "Plain Text").is_some();
        if usable {
            Some(GrammarRegistry { set })
        } else {
            None
        }
    }

    /// The collection itself, for the highlighter.
    pub fn as_syntax_set(&self) -> (set: &SyntaxSet)
        ensures
            *set == self@,
    {
        &self.set
    }

    /// The grammar without highlighting rules.
    pub fn plain_text(&self) -> (plain: &SyntaxReference)
        ensures
            *plain == plain_text_of(self@),
    {
        proof {
            use_type_invariant(self);
        }
        find_syntax_plain_text(&self.set)
    }

    /// The grammar registered under exactly the name `name`.
    pub fn by_name(&self, name: &str) -> (found: Option<&SyntaxReference>)
        ensures
            found_value(found) == syntax_named(self@, name@),
    {
        find_syntax_by_name(&self.set, name)
    }

    /// The grammar for a short token such as a file extension or a language
    /// name.
    pub fn by_token(&self, token: &str) -> (found: Option<&SyntaxReference>)
        ensures
            found_value(found) == syntax_for_token(self@, token@),
    {
        find_syntax_by_token(&self.set, token)
    }

    /// The grammar named `name`, or the one without highlighting rules where
    /// the collection holds none of that name.
    pub fn by_name_or_plain(&self, name: &str) -> (syntax: &SyntaxReference)
        ensures
            *syntax == named_or_plain(self@, name@),
    {
        match self.by_name(name) {
            Some(found) => found,
            None => self.plain_text(),
        }
    }

    /// The grammar for the base name of a file: the one that the token lookup
    /// finds for it, else the one without highlighting rules. A file without
    /// a base name gets the latter.
    pub fn by_stem(&self, stem: Option<&str>) -> (syntax: &SyntaxReference)
        ensures
            *syntax == stem_syntax(self@, stem_view(stem)),
    {
        match stem {
            Some(token) => match self.by_token(token) {
                Some(found) => found,
                None => self.plain_text(),
            },
            None => self.plain_text(),
        }
    }
}

/// What an optional string slice holds.
pub open spec fn stem_view(stem: Option<&str>) -> Option<Seq<char>> {
    match stem {
        Some(token) => Some(token@),
        None => None,
    }
}

/// The grammar of `set` named `name`, with the plain one as the fallback.
pub open spec fn named_or_plain(set: SyntaxSet, name: Seq<char>) -> SyntaxReference {
    match syntax_named(set, name) {
        Some(found) => found,
        None => plain_text_of(set),
    }
}

/// The grammar of `set` for a file's base name, with the plain one as the
/// fallback.
pub open spec fn stem_syntax(set: SyntaxSet, stem: Option<Seq<char>>) -> SyntaxReference {
    match stem {
        Some(token) => match syntax_for_token(set, token) {
            Some(found) => found,
            None => plain_text_of(set),
        },
        None => plain_text_of(set),
    }
}

/// The theme that a name selects: the one registered under it, or `bundled`
/// where none is.
pub open spec fn selected_theme(set: ThemeSet, name: Seq<char>, bundled: Theme) -> Theme {
    if themes_of(set).contains_key(name) {
        themes_of(set)[name]
    } else {
        bundled
    }
}

/// A name that the collection does not hold selects the bundled theme, and
/// one that it holds selects the theme registered under it.
pub proof fn absent_theme_is_bundled(set: ThemeSet, name: Seq<char>, bundled: Theme)
    ensures
        !themes_of(set).contains_key(name) ==> selected_theme(set, name, bundled) == bundled,
        themes_of(set).contains_key(name) ==> selected_theme(set, name, bundled) == themes_of(
            set,
        )[name],
{
}

/// Resolves a theme name. A name that the collection does not hold selects
/// the bundled theme; there is no failure.
pub fn select_theme(set: &ThemeSet, name: &str, bundled: Theme) -> (theme: Theme)
    ensures
        theme == selected_theme(*set, name@, bundled),
{
    match find_theme(set, name) {
        Some(found) => clone_theme(found),
        None => bundled,
    }
}

} // verus!
