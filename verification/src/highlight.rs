//! Classification of a file by its content type, and the renderers.

use crate::hexdump::{format_hex_view, hex_view};
use crate::plist_xml::{plist_value, read_property_list, PlistError};
use crate::registry::{
    named_or_plain, plain_text_of, stem_syntax, stem_view, syntax_for_token, xml_name,
};
use crate::rendering::{looked_up, Job, Rendering};
use crate::text::{from_utf8_lossy, hex_byte, lossy_text, push_hex_byte, str_eq};
use crate::util::Config;
use std::path::Path;
use syntect::highlighting::{Color, Theme};
use syntect::parsing::{SyntaxReference, SyntaxSet};
use vstd::prelude::*;
use vstd::string::*;

verus! {

/// How a file is rendered.
#[derive(Clone, Copy, Debug, PartialEq, Eq, Structural)]
pub enum FileType {
    /// Rendered as a hex dump.
    Binary,
    /// A property list, rendered as highlighted XML.
    Plist,
    /// Source or plain text, rendered by the syntax highlighter.
    Syntax,
}

/// The content types of compiled code, libraries and archives.
pub open spec fn is_binary_type(uti: Seq<char>) -> bool {
    ||| uti == "dyn.ah62d4rv4ge80c"@
    ||| uti == "dyn.ah62d4rv4ge81g52"@
    ||| uti == "dyn.ah62d4rv4ge81e5dmqk"@
    ||| uti == "com.apple.mach-o-dylib"@
    ||| uti == "com.microsoft.windows-executable"@
    ||| uti == "com.microsoft.windows-dynamic-link-library"@
    ||| uti == "com.sun.java-archive"@
    ||| uti == "com.sun.java-class"@
    ||| uti == "public.executable"@
    ||| uti == "public.object-code"@
    ||| uti == "public.unix-executable"@
}

/// The content type of a property list.
pub open spec fn is_plist_type(uti: Seq<char>) -> bool {
    uti == "com.apple.property-list"@
}

/// The renderer that a content type selects.
pub open spec fn file_type_of(uti: Seq<char>) -> FileType {
    if is_binary_type(uti) {
        FileType::Binary
    } else if is_plist_type(uti) {
        FileType::Plist
    } else {
        FileType::Syntax
    }
}

/// Classifies a file by its content type identifier. Identifiers are matched
/// exactly; one that is not in the table selects the syntax highlighter.
pub fn determine_file_type(content_type_uti: &str) -> (file_type: FileType)
    ensures
        file_type == file_type_of(content_type_uti@),
{
    let uti = content_type_uti;
    if str_eq(uti, "dyn.ah62d4rv4ge80c")  // .a
        || str_eq(uti, "dyn.ah62d4rv4ge81g52")  // .so
        || str_eq(uti, "dyn.ah62d4rv4ge81e5dmqk")  // .rlib
        || str_eq(uti, "com.apple.mach-o-dylib")  // .dylib
        || str_eq(uti, "com.microsoft.windows-executable")  // .exe
        || str_eq(uti, "com.microsoft.windows-dynamic-link-library")  // .dll
        || str_eq(uti, "com.sun.java-archive")  // .jar
        || str_eq(uti, "com.sun.java-class")  // .class
        || str_eq(uti, "public.executable")
        || str_eq(uti, "public.object-code")  // .o
        || str_eq(uti, "public.unix-executable")
    {
        FileType::Binary
    } else if str_eq(uti, "com.apple.property-list") {
        FileType::Plist
    } else {
        FileType::Syntax
    }
}

/// No content type is both in the table of binary formats and the one of a
/// property list, so each identifier has one renderer: a binary format the
/// hex dump, the property list identifier the XML rendering, and every other
/// string the syntax highlighter.
pub proof fn each_type_has_one_renderer(uti: Seq<char>)
    ensures
        !(is_binary_type(uti) && is_plist_type(uti)),
        is_binary_type(uti) <==> file_type_of(uti) == FileType::Binary,
        is_plist_type(uti) <==> file_type_of(uti) == FileType::Plist,
        !is_binary_type(uti) && !is_plist_type(uti) <==> file_type_of(uti) == FileType::Syntax,
{
    if is_plist_type(uti) {
        reveal_strlit("com.apple.property-list");
        reveal_strlit("dyn.ah62d4rv4ge80c");
        reveal_strlit("dyn.ah62d4rv4ge81g52");
        reveal_strlit("dyn.ah62d4rv4ge81e5dmqk");
        reveal_strlit("com.apple.mach-o-dylib");
        reveal_strlit("com.microsoft.windows-executable");
        reveal_strlit("com.microsoft.windows-dynamic-link-library");
        reveal_strlit("com.sun.java-archive");
        reveal_strlit("com.sun.java-class");
        reveal_strlit("public.executable");
        reveal_strlit("public.object-code");
        reveal_strlit("public.unix-executable");
        let plist = "com.apple.property-list"@;
        assert(plist.len() == 23);
        assert(plist.len() != "dyn.ah62d4rv4ge80c"@.len());
        assert(plist.len() != "dyn.ah62d4rv4ge81g52"@.len());
        assert(plist[0] != "dyn.ah62d4rv4ge81e5dmqk"@[0]);
        assert(plist.len() != "com.apple.mach-o-dylib"@.len());
        assert(plist.len() != "com.microsoft.windows-executable"@.len());
        assert(plist.len() != "com.microsoft.windows-dynamic-link-library"@.len());
        assert(plist.len() != "com.sun.java-archive"@.len());
        assert(plist.len() != "com.sun.java-class"@.len());
        assert(plist.len() != "public.executable"@.len());
        assert(plist.len() != "public.object-code"@.len());
        assert(plist.len() != "public.unix-executable"@.len());
        assert(!is_binary_type(uti));
    }
}

/// The page background where the theme sets none.
pub open spec fn white() -> Color {
    Color { r: 255, g: 255, b: 255, a: 255 }
}

/// The text colour where the theme sets none.
pub open spec fn black() -> Color {
    Color { r: 0, g: 0, b: 0, a: 255 }
}

/// The colour of error messages and warnings.
pub open spec fn red() -> Color {
    Color { r: 255, g: 0, b: 0, a: 255 }
}

/// The background colour of the page under `theme`.
pub open spec fn page_background(theme: Theme) -> Color {
    match theme.settings.background {
        Some(colour) => colour,
        None => white(),
    }
}

/// The text colour of the page under `theme`.
pub open spec fn page_foreground(theme: Theme) -> Color {
    match theme.settings.foreground {
        Some(colour) => colour,
        None => black(),
    }
}

/// A colour as six hexadecimal digits: red, green, blue. Alpha is left out.
pub open spec fn color_hex(colour: Color) -> Seq<char> {
    hex_byte(colour.r) + hex_byte(colour.g) + hex_byte(colour.b)
}

/// The two CSS declarations that set the font.
pub open spec fn font_rule(size: Seq<char>, family: Seq<char>) -> Seq<char> {
    "font-size: "@ + size + "px; font-family: "@ + family + ";"@
}

/// The head of the page: a style block that sets the font of every `<pre>`.
pub open spec fn page_head(size: Seq<char>, family: Seq<char>) -> Seq<char> {
    "<head><style>pre { "@ + font_rule(size, family) + " }</style></head>"@
}

/// The opening tag of the body, with the page colours and the font inline.
pub open spec fn body_tag(
    background: Color,
    foreground: Color,
    size: Seq<char>,
    family: Seq<char>,
) -> Seq<char> {
    "<body style=\"background-color:#"@ + color_hex(background) + "; white-space: pre-wrap; "@
        + font_rule(size, family) + " color:#"@ + color_hex(foreground) + ";\">"@
}

/// Everything that stands before the fragment in a styled page.
pub open spec fn page_shell(conf: Config) -> Seq<char> {
    page_head(conf.font_size@, conf.font_family@) + body_tag(
        page_background(conf.theme),
        page_foreground(conf.theme),
        conf.font_size@,
        conf.font_family@,
    )
}

/// A fragment wrapped in the page shell.
pub open spec fn styled(fragment: Seq<char>, conf: Config) -> Seq<char> {
    page_shell(conf) + fragment
}

/// A message as a fragment: one `<pre>` block in the warning colour.
pub open spec fn error_fragment(message: Seq<char>) -> Seq<char> {
    "<pre><span style=\"color:#"@ + color_hex(red()) + "\">"@ + message + "</span></pre>"@
}

fn push_color(out: &mut String, colour: Color)
    ensures
        final(out)@ == old(out)@ + color_hex(colour),
{
    push_hex_byte(out, colour.r);
    push_hex_byte(out, colour.g);
    push_hex_byte(out, colour.b);
    assert(final(out)@ =~= old(out)@ + color_hex(colour));
}

fn push_font_rule(out: &mut String, size: &str, family: &str)
    ensures
        final(out)@ == old(out)@ + font_rule(size@, family@),
{
    out.append("font-size: ");
    out.append(size);
    out.append("px; font-family: ");
    out.append(family);
    out.append(";");
    assert(final(out)@ =~= old(out)@ + font_rule(size@, family@));
}

/// Wraps a fragment in the page shell: a head whose style block sets the font
/// of every `<pre>`, then the opening body tag with the theme's background and
/// text colour (white and black where the theme sets none) and the font, then
/// the fragment as it stands.
pub fn apply_style(input: &str, conf: &Config) -> (page: String)
    ensures
        page@ == styled(input@, *conf),
{
    let background = match conf.theme.settings.background {
        Some(colour) => colour,
        None => Color { r: 255, g: 255, b: 255, a: 255 },
    };
    let foreground = match conf.theme.settings.foreground {
        Some(colour) => colour,
        None => Color { r: 0, g: 0, b: 0, a: 255 },
    };
    let size = conf.font_size.as_str();
    let family = conf.font_family.as_str();
    let mut buffer = String::new();
    buffer.append("<head><style>pre { ");
    push_font_rule(&mut buffer, size, family);
    buffer.append(" }</style></head>");
    assert(buffer@ =~= page_head(size@, family@));
    buffer.append("<body style=\"background-color:#");
    push_color(&mut buffer, background);
    buffer.append("; white-space: pre-wrap; ");
    push_font_rule(&mut buffer, size, family);
    buffer.append(" color:#");
    push_color(&mut buffer, foreground);
    buffer.append(";\">");
    assert(buffer@ =~= page_shell(*conf));
    buffer.append(input);
    buffer
}

/// The fragment that reports `cause`, not yet wrapped.
pub fn error_block(cause: &str) -> (fragment: String)
    ensures
        fragment@ == error_fragment(cause@),
{
    let mut error = String::new();
    error.append("<pre><span style=\"color:#");
    push_color(&mut error, Color { r: 255, g: 0, b: 0, a: 255 });
    error.append("\">");
    error.append(cause);
    error.append("</span></pre>");
    assert(error@ =~= error_fragment(cause@));
    error
}

/// The page that reports `cause`: the message in the warning colour, wrapped
/// like every other fragment.
pub fn format_err(cause: &str, conf: &Config) -> (page: String)
    ensures
        page@ == styled(error_fragment(cause@), *conf),
{
    let error = error_block(cause);
    apply_style(error.as_str(), conf)
}

/// Renders a binary file: its hex dump in the page shell. There is no
/// failure, whatever the bytes are.
pub fn hex_highlight_file(buf: Vec<u8>, conf: &Config) -> (page: String)
    ensures
        page@ == styled(hex_view(buf@), *conf),
{
    let result = format_hex_view(buf.as_slice());
    apply_style(result.as_str(), conf)
}

/// The job that renders a property list: the value that was read, to be
/// written as XML and then highlighted with the XML grammar (the plain one
/// where the collection holds no XML grammar); or at once the message for
/// bytes that are neither a binary nor an XML property list.
pub open spec fn plist_job(bytes: Seq<u8>, set: SyntaxSet) -> Job<'static> {
    match plist_value(bytes) {
        Some(value) => Job::Encode {
            value,
            syntax: named_or_plain(set, xml_name()),
            plain: plain_text_of(set),
        },
        None => Job::Finished { fragment: error_fragment(PlistError::Parse.message_text()) },
    }
}

/// Renders a binary or an XML property list as highlighted XML. Bytes that
/// are neither end the job at once with their message; all others are read
/// and handed out to be written as XML.
pub fn highlight_plist<'a>(buf: &Vec<u8>, conf: &'a Config) -> (rendering: Rendering<'a>)
    ensures
        rendering@ == plist_job(buf@, conf.syntax_set@),
{
    match read_property_list(buf.as_slice()) {
        Ok(value) => Rendering::Encode {
            value,
            syntax: conf.syntax_set.by_name_or_plain("XML"),
            plain: conf.syntax_set.plain_text(),
        },
        Err(error) => Rendering::finished(error_block(error.message())),
    }
}

#[verifier::external_type_specification]
#[verifier::external_body]
pub struct ExPath(std::path::Path);

/// What the grammar collection made of a file's path. The lookup by path may
/// read the first line of the file, so the caller makes it and reports it.
#[derive(Clone, Copy)]
pub enum PathLookup<'a> {
    /// The file's name, its extension or its first line selects this grammar.
    Found(&'a SyntaxReference),
    /// Nothing in the collection matches the file.
    Unknown,
    /// The file could not be read.
    Unreadable,
}

/// Calls `Path::file_stem`, which gives the file name without its last
/// extension, and turns it into a string slice where it is valid Unicode. How
/// a path is split depends on the platform: nothing is promised of the
/// result.
#[verifier::external_body]
fn file_stem(path: &Path) -> (stem: Option<&str>) {
    match path.file_stem() {
        Some(name) => name.to_str(),
        None => None,
    }
}

/// Whether `syntax` is the grammar for a file of which the lookup by path
/// gave `found` and whose base name is `stem`: the grammar that was found;
/// where none matches, the one that the base name selects as a token, else
/// the one without highlighting rules; and the latter for a file that could
/// not be read.
pub open spec fn resolved_syntax(
    found: PathLookup<'_>,
    stem: Option<Seq<char>>,
    set: SyntaxSet,
) -> SyntaxReference {
    match found {
        PathLookup::Found(syntax) => *syntax,
        PathLookup::Unknown => stem_syntax(set, stem),
        PathLookup::Unreadable => plain_text_of(set),
    }
}

/// Picks the grammar for a file from the outcome of the lookup by path and
/// the file's base name.
pub fn resolve_syntax<'a>(
    found: PathLookup<'a>,
    stem: Option<&str>,
    conf: &'a Config,
) -> (syntax: &'a SyntaxReference)
    ensures
        *syntax == resolved_syntax(found, stem_view(stem), conf.syntax_set@),
{
    match found {
        PathLookup::Found(syntax) => syntax,
        PathLookup::Unknown => conf.syntax_set.by_stem(stem),
        PathLookup::Unreadable => conf.syntax_set.plain_text(),
    }
}

/// Whether `syntax` can be the grammar of a file of which the lookup by path
/// gave `found`, whatever its base name is.
pub open spec fn is_syntax_for(
    found: PathLookup<'_>,
    set: SyntaxSet,
    syntax: SyntaxReference,
) -> bool {
    exists|stem: Option<Seq<char>>| syntax == resolved_syntax(found, stem, set)
}

/// A file that matches no grammar, neither by its path nor by its base name,
/// is plain text, and so is one that has no base name or could not be read:
/// the lookup has no failure.
pub proof fn unmatched_file_is_plain_text(
    found: PathLookup<'_>,
    stem: Option<Seq<char>>,
    set: SyntaxSet,
)
    requires
        !(found is Found),
        stem matches Some(token) ==> syntax_for_token(set, token) is None,
    ensures
        resolved_syntax(found, stem, set) == plain_text_of(set),
{
}

/// Picks the grammar for the file at `file_path`. A grammar that the lookup by
/// path found is kept. Where it found none, the file's base name is tried as
/// a token, which suits files such as `Makefile`. Where that finds nothing
/// either, and where the file could not be read, the file is plain text.
pub fn find_syntax_for_file<'a>(
    found: PathLookup<'a>,
    file_path: &Path,
    conf: &'a Config,
) -> (syntax: &'a SyntaxReference)
    ensures
        is_syntax_for(found, conf.syntax_set@, *syntax),
        found matches PathLookup::Found(given) ==> syntax == given,
        found is Unreadable ==> *syntax == plain_text_of(conf.syntax_set@),
{
    let stem = file_stem(file_path);
    resolve_syntax(found, stem, conf)
}

/// The resolution of a file's grammar in two steps, first the base name and
/// then the lookup by path, gives the grammar that both together select.
pub proof fn lookup_completes_the_resolution(
    found: PathLookup<'_>,
    stem: Option<Seq<char>>,
    set: SyntaxSet,
)
    ensures
        looked_up(found, stem_syntax(set, stem), plain_text_of(set)) == resolved_syntax(
            found,
            stem,
            set,
        ),
{
}

/// Whether `job` is the job that renders the text in `bytes`: the text,
/// decoded with U+FFFD for what is not UTF-8, waits for the lookup of the
/// file's grammar by `path`, with the grammar of the file's base name as the
/// fallback and the plain grammar in reserve.
pub open spec fn is_syntax_job(job: Job<'_>, bytes: Seq<u8>, path: &Path, set: SyntaxSet) -> bool {
    match job {
        Job::Lookup { text, path: asked, fallback, plain } => {
            &&& text == lossy_text(bytes)
            &&& asked == path
            &&& is_syntax_for(PathLookup::Unknown, set, fallback)
            &&& plain == plain_text_of(set)
        },
        _ => false,
    }
}

/// Renders source or plain text: decodes the bytes and asks for the lookup
/// of the file's grammar by its path. Bytes that are not UTF-8 are no
/// failure.
pub fn syntax_highlight_file<'a>(
    buf: &Vec<u8>,
    file_path: &'a Path,
    conf: &'a Config,
) -> (rendering: Rendering<'a>)
    ensures
        is_syntax_job(rendering@, buf@, file_path, conf.syntax_set@),
{
    let content = from_utf8_lossy(buf.as_slice());
    let fallback = find_syntax_for_file(PathLookup::Unknown, file_path, conf);
    Rendering::Lookup {
        text: content,
        path: file_path,
        fallback,
        plain: conf.syntax_set.plain_text(),
    }
}

/// The message shown for a file that could not be read.
pub open spec fn unreadable_message() -> Seq<char> {
    "Error reading file."@
}

/// Whether `job` is the job that renders a file: for one that could not be
/// read, the finished message; for one whose bytes are there, what its
/// content type selects.
pub open spec fn is_preview_job(
    job: Job<'_>,
    file: Option<Vec<u8>>,
    uti: Seq<char>,
    path: &Path,
    set: SyntaxSet,
) -> bool {
    match file {
        None => job == (Job::Finished { fragment: error_fragment(unreadable_message()) }),
        Some(buf) => match file_type_of(uti) {
            FileType::Binary => job == (Job::Finished { fragment: hex_view(buf@) }),
            FileType::Plist => job == plist_job(buf@, set),
            FileType::Syntax => is_syntax_job(job, buf@, path, set),
        },
    }
}

/// Renders one file for preview. `file` holds the bytes that were read, or
/// nothing where reading failed; `content_type_uti` is the content type that
/// the host declares for the file. Only a file that is rendered as source
/// text has its grammar looked up.
pub fn generate_preview<'a>(
    file: Option<Vec<u8>>,
    content_type_uti: &str,
    file_path: &'a Path,
    conf: &'a Config,
) -> (rendering: Rendering<'a>)
    ensures
        is_preview_job(rendering@, file, content_type_uti@, file_path, conf.syntax_set@),
{
    match file {
        Some(buffer) => match determine_file_type(content_type_uti) {
            FileType::Binary => Rendering::finished(format_hex_view(buffer.as_slice())),
            FileType::Plist => highlight_plist(&buffer, conf),
            FileType::Syntax => syntax_highlight_file(&buffer, file_path, conf),
        },
        None => Rendering::finished(error_block("Error reading file.")),
    }
}

} // verus!
