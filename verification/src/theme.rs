//! The theme that ships with the library and stands in wherever the
//! configured theme cannot be found.

use syntect::highlighting::{Theme, ThemeSet};
use vstd::prelude::*;

verus! {

/// The definition of the bundled theme, a light theme in the colours of
/// Xcode, in the property-list form that theme files have.
pub const BUNDLED_THEME: &'static str = "<?xml version=\"1.0\" encoding=\"UTF-8\"?>\n\
<!DOCTYPE plist PUBLIC \"-//Apple//DTD PLIST 1.0//EN\" \"http://www.apple.com/DTDs/PropertyList-1.0.dtd\">\n\
<plist version=\"1.0\">\n\
<dict>\n\
<key>name</key>\n\
<string>Xcode-like</string>\n\
<key>settings</key>\n\
<array>\n\
<dict>\n\
<key>settings</key>\n\
<dict>\n\
<key>background</key>\n\
<string>#FFFFFF</string>\n\
<key>caret</key>\n\
<string>#000000</string>\n\
<key>foreground</key>\n\
<string>#000000</string>\n\
<key>invisibles</key>\n\
<string>#BFBFBF</string>\n\
<key>lineHighlight</key>\n\
<string>#ECF5FF</string>\n\
<key>selection</key>\n\
<string>#B5D5FF</string>\n\
</dict>\n\
</dict>\n\
<dict>\n\
<key>name</key>\n\
<string>Comment</string>\n\
<key>scope</key>\n\
<string>comment</string>\n\
<key>settings</key>\n\
<dict>\n\
<key>foreground</key>\n\
<string>#007400</string>\n\
</dict>\n\
</dict>\n\
<dict>\n\
<key>name</key>\n\
<string>String</string>\n\
<key>scope</key>\n\
<string>string</string>\n\
<key>settings</key>\n\
<dict>\n\
<key>foreground</key>\n\
<string>#C41A16</string>\n\
</dict>\n\
</dict>\n\
<dict>\n\
<key>name</key>\n\
<string>Character</string>\n\
<key>scope</key>\n\
<string>constant.character, constant.other</string>\n\
<key>settings</key>\n\
<dict>\n\
<key>foreground</key>\n\
<string>#1C00CF</string>\n\
</dict>\n\
</dict>\n\
<dict>\n\
<key>name</key>\n\
<string>Number</string>\n\
<key>scope</key>\n\
<string>constant.numeric</string>\n\
<key>settings</key>\n\
<dict>\n\
<key>foreground</key>\n\
<string>#1C00CF</string>\n\
</dict>\n\
</dict>\n\
<dict>\n\
<key>name</key>\n\
<string>Built-in constant</string>\n\
<key>scope</key>\n\
<string>constant.language</string>\n\
<key>settings</key>\n\
<dict>\n\
<key>foreground</key>\n\
<string>#AA0D91</string>\n\
</dict>\n\
</dict>\n\
<dict>\n\
<key>name</key>\n\
<string>Keyword</string>\n\
<key>scope</key>\n\
<string>keyword, storage</string>\n\
<key>settings</key>\n\
<dict>\n\
<key>foreground</key>\n\
<string>#AA0D91</string>\n\
</dict>\n\
</dict>\n\
<dict>\n\
<key>name</key>\n\
<string>Operator</string>\n\
<key>scope</key>\n\
<string>keyword.operator</string>\n\
<key>settings</key>\n\
<dict>\n\
<key>foreground</key>\n\
<string>#000000</string>\n\
</dict>\n\
</dict>\n\
<dict>\n\
<key>name</key>\n\
<string>Type name</string>\n\
<key>scope</key>\n\
<string>entity.name.type, entity.name.class, support.type, support.class</string>\n\
<key>settings</key>\n\
<dict>\n\
<key>foreground</key>\n\
<string>#5C2699</string>\n\
</dict>\n\
</dict>\n\
<dict>\n\
<key>name</key>\n\
<string>Function name</string>\n\
<key>scope</key>\n\
<string>entity.name.function, support.function</string>\n\
<key>settings</key>\n\
<dict>\n\
<key>foreground</key>\n\
<string>#26474B</string>\n\
</dict>\n\
</dict>\n\
<dict>\n\
<key>name</key>\n\
<string>Variable</string>\n\
<key>scope</key>\n\
<string>variable.language</string>\n\
<key>settings</key>\n\
<dict>\n\
<key>foreground</key>\n\
<string>#AA0D91</string>\n\
</dict>\n\
</dict>\n\
<dict>\n\
<key>name</key>\n\
<string>Preprocessor</string>\n\
<key>scope</key>\n\
<string>meta.preprocessor, keyword.control.import</string>\n\
<key>settings</key>\n\
<dict>\n\
<key>foreground</key>\n\
<string>#643820</string>\n\
</dict>\n\
</dict>\n\
<dict>\n\
<key>name</key>\n\
<string>Attribute</string>\n\
<key>scope</key>\n\
<string>entity.other.attribute-name, meta.annotation</string>\n\
<key>settings</key>\n\
<dict>\n\
<key>foreground</key>\n\
<string>#836C28</string>\n\
</dict>\n\
</dict>\n\
<dict>\n\
<key>name</key>\n\
<string>Tag name</string>\n\
<key>scope</key>\n\
<string>entity.name.tag</string>\n\
<key>settings</key>\n\
<dict>\n\
<key>foreground</key>\n\
<string>#AA0D91</string>\n\
</dict>\n\
</dict>\n\
<dict>\n\
<key>name</key>\n\
<string>Markup heading</string>\n\
<key>scope</key>\n\
<string>markup.heading</string>\n\
<key>settings</key>\n\
<dict>\n\
<key>fontStyle</key>\n\
<string>bold</string>\n\
<key>foreground</key>\n\
<string>#000000</string>\n\
</dict>\n\
</dict>\n\
<dict>\n\
<key>name</key>\n\
<string>Invalid</string>\n\
<key>scope</key>\n\
<string>invalid</string>\n\
<key>settings</key>\n\
<dict>\n\
<key>fontStyle</key>\n\
<string>underline</string>\n\
<key>foreground</key>\n\
<string>#C41A16</string>\n\
</dict>\n\
</dict>\n\
</array>\n\
</dict>\n\
</plist>\n";

#[verifier::external_type_specification]
#[verifier::external_body]
pub struct ExLoadingError(syntect::LoadingError);

/// The theme that `ThemeSet::load_from_reader` makes of a definition, if it
/// accepts it.
pub uninterp spec fn theme_defined_by(definition: Seq<char>) -> Option<Theme>;

/// Calls `ThemeSet::load_from_reader` on the bytes of the definition, which
/// parses a theme definition and reports a malformed one as an error. The
/// contract gives the result its name.
#[verifier::external_body]
fn load_theme(definition: &str) -> (loaded: Result<Theme, syntect::LoadingError>)
    ensures
        loaded is Ok <==> theme_defined_by(definition@) is Some,
        loaded is Ok ==> theme_defined_by(definition@) == Some(loaded.unwrap()),
{
    ThemeSet::load_from_reader(&mut std::io::Cursor::new(definition.as_bytes()))
}

/// Parses a theme definition: the theme, or nothing where the definition is
/// malformed.
pub fn parse_theme(definition: &str) -> (theme: Option<Theme>)
    ensures
        theme == theme_defined_by(definition@),
{
    match load_theme(definition) {
        Ok(theme) => Some(theme),
        Err(_) => None,
    }
}

/// The bundled theme.
pub fn bundled_theme() -> (theme: Option<Theme>)
    ensures
        theme == theme_defined_by(BUNDLED_THEME@),
{
    parse_theme(BUNDLED_THEME)
}

} // verus!
