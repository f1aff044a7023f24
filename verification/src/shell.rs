//! What a styled page is known to hold: its tags, and the font that was
//! configured.

use crate::highlight::{
    body_tag, color_hex, font_rule, page_background, page_foreground, page_head, page_shell, styled,
};
use crate::text::{hex_byte, hex_digits};
use crate::util::Config;
use syntect::highlighting::Color;
use vstd::prelude::*;

verus! {

/// Whether `pattern` stands in `text` at the position `at`.
pub open spec fn occurs_at(text: Seq<char>, pattern: Seq<char>, at: int) -> bool {
    &&& 0 <= at
    &&& at + pattern.len() <= text.len()
    &&& text.subrange(at, at + pattern.len()) == pattern
}

/// Whether `pattern` stands anywhere in `text`.
pub open spec fn contains_text(text: Seq<char>, pattern: Seq<char>) -> bool {
    exists|at: int| occurs_at(text, pattern, at)
}

/// The opening of the head of a page.
pub open spec fn head_tag() -> Seq<char> {
    "<head>"@
}

/// The opening of the body tag of a page, up to its attributes.
pub open spec fn body_open() -> Seq<char> {
    "<body"@
}

proof fn lemma_occurrence_char(text: Seq<char>, pattern: Seq<char>, at: int, k: int)
    requires
        occurs_at(text, pattern, at),
        0 <= k < pattern.len(),
    ensures
        text[at + k] == pattern[k],
{
    assert(text.subrange(at, at + pattern.len())[k] == text[at + k]);
}

/// Whether no `<` in `text` is followed by `next`.
spec fn no_tag_start(text: Seq<char>, next: char) -> bool {
    forall|i: int| 0 <= i && i + 1 < text.len() && #[trigger] text[i] == '<' ==> text[i + 1] != next
}

/// What the proofs below need of a tag: it begins with `<`, and none of the
/// characters that stand at a seam of the page shell occurs in it where a
/// seam could cut it.
spec fn is_tag(pattern: Seq<char>) -> bool {
    &&& pattern.len() >= 2
    &&& pattern[0] == '<'
    &&& forall|k: int|
        1 <= k < pattern.len() ==> {
            &&& #[trigger] pattern[k] != '<'
            &&& pattern[k] != 'p'
            &&& pattern[k] != ';'
            &&& pattern[k] != ' '
            &&& pattern[k] != '#'
        }
    &&& forall|k: int| 0 <= k < pattern.len() - 1 ==> #[trigger] pattern[k] != '>'
}

proof fn lemma_no_tag_start_is_free(text: Seq<char>, pattern: Seq<char>)
    requires
        is_tag(pattern),
        no_tag_start(text, pattern[1]),
    ensures
        !contains_text(text, pattern),
{
    assert forall|at: int| !occurs_at(text, pattern, at) by {
        if occurs_at(text, pattern, at) {
            lemma_occurrence_char(text, pattern, at, 0);
            lemma_occurrence_char(text, pattern, at, 1);
            assert(text[at] == '<');
        }
    }
}

/// Whether no occurrence of `pattern` can lie across the seam between `a` and
/// `b`: one of them is empty, or `a` ends with a character that `pattern`
/// holds at most at its end, or `b` begins with one that `pattern` holds at
/// most at its start.
spec fn seam_is_clear(a: Seq<char>, b: Seq<char>, pattern: Seq<char>) -> bool {
    ||| a.len() == 0
    ||| b.len() == 0
    ||| forall|k: int| 0 <= k < pattern.len() - 1 ==> #[trigger] pattern[k] != a.last()
    ||| forall|k: int| 1 <= k < pattern.len() ==> #[trigger] pattern[k] != b[0]
}

proof fn lemma_join(a: Seq<char>, b: Seq<char>, pattern: Seq<char>)
    requires
        !contains_text(a, pattern),
        !contains_text(b, pattern),
        seam_is_clear(a, b, pattern),
    ensures
        !contains_text(a + b, pattern),
{
    let n = pattern.len() as int;
    assert forall|at: int| !occurs_at(a + b, pattern, at) by {
        if occurs_at(a + b, pattern, at) {
            if at + n <= a.len() {
                assert((a + b).subrange(at, at + n) =~= a.subrange(at, at + n));
                assert(occurs_at(a, pattern, at));
            } else if at >= a.len() {
                assert((a + b).subrange(at, at + n) =~= b.subrange(at - a.len(), at - a.len() + n));
                assert(occurs_at(b, pattern, at - a.len()));
            } else {
                let before = a.len() - 1 - at;
                let after = a.len() - at;
                lemma_occurrence_char(a + b, pattern, at, before);
                lemma_occurrence_char(a + b, pattern, at, after);
                assert((a + b)[at + before] == a.last());
                assert((a + b)[at + after] == b[0]);
                assert(pattern[before] == a.last());
                assert(pattern[after] == b[0]);
            }
        }
    }
}

/// A tag that leads a text, and does not occur in the rest of it, stands
/// in it only at the start.
proof fn lemma_only_at_start(pattern: Seq<char>, rest: Seq<char>, at: int)
    requires
        is_tag(pattern),
        !contains_text(rest, pattern),
        occurs_at(pattern + rest, pattern, at),
    ensures
        at == 0,
{
    let n = pattern.len() as int;
    if at >= n {
        assert((pattern + rest).subrange(at, at + n) =~= rest.subrange(at - n, at - n + n));
        assert(occurs_at(rest, pattern, at - n));
    } else if at > 0 {
        lemma_occurrence_char(pattern + rest, pattern, at, 0);
        assert((pattern + rest)[at] == pattern[at]);
    }
}

/// A tag that follows `before`, and occurs neither in `before` nor in what
/// follows the tag, stands in the whole only where `before` ends.
proof fn lemma_only_after(before: Seq<char>, pattern: Seq<char>, rest: Seq<char>, at: int)
    requires
        is_tag(pattern),
        !contains_text(before, pattern),
        !contains_text(rest, pattern),
        occurs_at(before + (pattern + rest), pattern, at),
    ensures
        at == before.len(),
{
    let n = pattern.len() as int;
    let whole = before + (pattern + rest);
    if at + n <= before.len() {
        assert(whole.subrange(at, at + n) =~= before.subrange(at, at + n));
        assert(occurs_at(before, pattern, at));
    } else if at < before.len() {
        let k = before.len() - at;
        lemma_occurrence_char(whole, pattern, at, k);
        assert(whole[at + k] == pattern[0]);
    } else {
        let inner = at - before.len();
        assert(whole.subrange(at, at + n) =~= (pattern + rest).subrange(inner, inner + n));
        assert(occurs_at(pattern + rest, pattern, inner));
        lemma_only_at_start(pattern, rest, inner);
    }
}

/// Whether `text` is a stretch of a page in which `pattern` does not occur,
/// and which begins with `first` and ends with `last`.
spec fn is_clear_stretch(text: Seq<char>, pattern: Seq<char>, first: char, last: char) -> bool {
    &&& !contains_text(text, pattern)
    &&& text.len() > 0
    &&& text[0] == first
    &&& text.last() == last
}

proof fn lemma_hex_byte_has_no_tag(byte: u8)
    ensures
        hex_byte(byte).len() == 2,
        hex_byte(byte)[0] != '<',
        hex_byte(byte)[1] != '<',
{
    reveal_strlit("0123456789abcdef");
    let high = byte as int / 16;
    let low = byte as int % 16;
    assert(0 <= high < 16 && 0 <= low < 16);
    assert(hex_digits()[high] != '<');
    assert(hex_digits()[low] != '<');
}

proof fn lemma_color_is_clear(colour: Color, pattern: Seq<char>)
    requires
        is_tag(pattern),
    ensures
        !contains_text(color_hex(colour), pattern),
        color_hex(colour).len() == 6,
{
    lemma_hex_byte_has_no_tag(colour.r);
    lemma_hex_byte_has_no_tag(colour.g);
    lemma_hex_byte_has_no_tag(colour.b);
    let text = color_hex(colour);
    assert forall|i: int| 0 <= i < text.len() implies text[i] != '<' by {
        if i < 2 {
            assert(text[i] == hex_byte(colour.r)[i]);
        } else if i < 4 {
            assert(text[i] == hex_byte(colour.g)[i - 2]);
        } else {
            assert(text[i] == hex_byte(colour.b)[i - 4]);
        }
    }
    lemma_no_tag_start_is_free(text, pattern);
}

proof fn lemma_font_rule_is_clear(size: Seq<char>, family: Seq<char>, pattern: Seq<char>)
    requires
        is_tag(pattern),
        !contains_text(size, pattern),
        !contains_text(family, pattern),
    ensures
        is_clear_stretch(font_rule(size, family), pattern, 'f', ';'),
{
    reveal_strlit("font-size: ");
    reveal_strlit("px; font-family: ");
    reveal_strlit(";");
    let a = "font-size: "@;
    let b = "px; font-family: "@;
    let c = ";"@;
    lemma_no_tag_start_is_free(a, pattern);
    lemma_no_tag_start_is_free(b, pattern);
    lemma_no_tag_start_is_free(c, pattern);
    assert(a.last() == ' ');
    lemma_join(a, size, pattern);
    assert(b[0] == 'p');
    lemma_join(a + size, b, pattern);
    assert((a + size + b).last() == ' ');
    lemma_join(a + size + b, family, pattern);
    assert(c[0] == ';');
    lemma_join(a + size + b + family, c, pattern);
    assert(font_rule(size, family)[0] == a[0]);
    assert(font_rule(size, family).last() == c[0]);
}

/// The head of a page from `opening` on, where `opening` is what stands
/// before the font rule.
proof fn lemma_head_is_clear(
    opening: Seq<char>,
    size: Seq<char>,
    family: Seq<char>,
    pattern: Seq<char>,
)
    requires
        is_tag(pattern),
        pattern[1] != '/',
        !contains_text(size, pattern),
        !contains_text(family, pattern),
        !contains_text(opening, pattern),
        opening.len() > 0,
        opening.last() == ' ',
    ensures
        !contains_text(opening + font_rule(size, family) + " }</style></head>"@, pattern),
        (opening + font_rule(size, family) + " }</style></head>"@).last() == '>',
{
    reveal_strlit(" }</style></head>");
    let closing = " }</style></head>"@;
    lemma_font_rule_is_clear(size, family, pattern);
    lemma_no_tag_start_is_free(closing, pattern);
    lemma_join(opening, font_rule(size, family), pattern);
    assert(closing[0] == ' ');
    lemma_join(opening + font_rule(size, family), closing, pattern);
    assert((opening + font_rule(size, family) + closing).last() == closing.last());
}

/// The body tag of a page from `opening` on, where `opening` is what stands
/// before the background colour.
proof fn lemma_body_is_clear(
    opening: Seq<char>,
    background: Color,
    foreground: Color,
    size: Seq<char>,
    family: Seq<char>,
    pattern: Seq<char>,
)
    requires
        is_tag(pattern),
        !contains_text(size, pattern),
        !contains_text(family, pattern),
        !contains_text(opening, pattern),
        opening.len() > 0,
        opening.last() == '#',
    ensures
        !contains_text(
            opening + color_hex(background) + "; white-space: pre-wrap; "@ + font_rule(size, family)
                + " color:#"@ + color_hex(foreground) + ";\">"@,
            pattern,
        ),
        (opening + color_hex(background) + "; white-space: pre-wrap; "@ + font_rule(size, family)
            + " color:#"@ + color_hex(foreground) + ";\">"@).last() == '>',
{
    reveal_strlit("; white-space: pre-wrap; ");
    reveal_strlit(" color:#");
    reveal_strlit(";\">");
    let middle = "; white-space: pre-wrap; "@;
    let colour = " color:#"@;
    let closing = ";\">"@;
    let rule = font_rule(size, family);
    lemma_font_rule_is_clear(size, family, pattern);
    lemma_color_is_clear(background, pattern);
    lemma_color_is_clear(foreground, pattern);
    lemma_no_tag_start_is_free(middle, pattern);
    lemma_no_tag_start_is_free(colour, pattern);
    lemma_no_tag_start_is_free(closing, pattern);
    let s1 = opening + color_hex(background);
    lemma_join(opening, color_hex(background), pattern);
    assert(middle[0] == ';');
    let s2 = s1 + middle;
    lemma_join(s1, middle, pattern);
    assert(s2.last() == ' ');
    let s3 = s2 + rule;
    lemma_join(s2, rule, pattern);
    assert(colour[0] == ' ');
    let s4 = s3 + colour;
    lemma_join(s3, colour, pattern);
    assert(s4.last() == '#');
    let s5 = s4 + color_hex(foreground);
    lemma_join(s4, color_hex(foreground), pattern);
    assert(closing[0] == ';');
    lemma_join(s5, closing, pattern);
    assert((s5 + closing).last() == closing.last());
}

proof fn lemma_head_tag_is_tag()
    ensures
        is_tag(head_tag()),
        head_tag()[1] == 'h',
        head_tag().len() == 6,
{
    reveal_strlit("<head>");
}

proof fn lemma_body_open_is_tag()
    ensures
        is_tag(body_open()),
        body_open()[1] == 'b',
        body_open().len() == 5,
{
    reveal_strlit("<body");
}

/// Where neither the fragment nor the configured font size and family hold
/// the tag `<head>`, a styled page holds it once: at its start.
pub proof fn head_tag_stands_once(fragment: Seq<char>, conf: Config)
    requires
        !contains_text(fragment, head_tag()),
        !contains_text(conf.font_size@, head_tag()),
        !contains_text(conf.font_family@, head_tag()),
    ensures
        forall|at: int| occurs_at(styled(fragment, conf), head_tag(), at) <==> at == 0,
{
    let tag = head_tag();
    let size = conf.font_size@;
    let family = conf.font_family@;
    let background = page_background(conf.theme);
    let foreground = page_foreground(conf.theme);
    lemma_head_tag_is_tag();
    reveal_strlit("<head>");
    reveal_strlit("<head><style>pre { ");
    reveal_strlit("<style>pre { ");
    reveal_strlit("<body style=\"background-color:#");
    let style_open = "<style>pre { "@;
    let body_opening = "<body style=\"background-color:#"@;
    assert("<head><style>pre { "@ =~= tag + style_open);
    lemma_no_tag_start_is_free(style_open, tag);
    lemma_no_tag_start_is_free(body_opening, tag);
    lemma_head_is_clear(style_open, size, family, tag);
    lemma_body_is_clear(body_opening, background, foreground, size, family, tag);
    let head_rest = style_open + font_rule(size, family) + " }</style></head>"@;
    let body = body_tag(background, foreground, size, family);
    assert(body[0] == body_opening[0]);
    lemma_join(head_rest, body, tag);
    assert((head_rest + body).last() == body.last());
    lemma_join(head_rest + body, fragment, tag);
    let rest = head_rest + body + fragment;
    assert(styled(fragment, conf) =~= tag + rest);
    page_layout(fragment, conf);
    assert forall|at: int| occurs_at(styled(fragment, conf), tag, at) implies at == 0 by {
        lemma_only_at_start(tag, rest, at);
    }
}

/// Where neither the fragment nor the configured font size and family hold
/// the opening of a body tag, `<body`, a styled page holds it once: right
/// after its head.
pub proof fn body_tag_stands_once(fragment: Seq<char>, conf: Config)
    requires
        !contains_text(fragment, body_open()),
        !contains_text(conf.font_size@, body_open()),
        !contains_text(conf.font_family@, body_open()),
    ensures
        forall|at: int|
            occurs_at(styled(fragment, conf), body_open(), at) <==> at == page_head(
                conf.font_size@,
                conf.font_family@,
            ).len(),
{
    let tag = body_open();
    let size = conf.font_size@;
    let family = conf.font_family@;
    let background = page_background(conf.theme);
    let foreground = page_foreground(conf.theme);
    lemma_body_open_is_tag();
    reveal_strlit("<body");
    reveal_strlit("<head><style>pre { ");
    reveal_strlit(" style=\"background-color:#");
    reveal_strlit("<body style=\"background-color:#");
    let head_opening = "<head><style>pre { "@;
    let attributes = " style=\"background-color:#"@;
    assert("<body style=\"background-color:#"@ =~= tag + attributes);
    lemma_no_tag_start_is_free(head_opening, tag);
    lemma_no_tag_start_is_free(attributes, tag);
    lemma_head_is_clear(head_opening, size, family, tag);
    lemma_body_is_clear(attributes, background, foreground, size, family, tag);
    let head = page_head(size, family);
    let body_rest = attributes + color_hex(background) + "; white-space: pre-wrap; "@ + font_rule(
        size,
        family,
    ) + " color:#"@ + color_hex(foreground) + ";\">"@;
    lemma_join(body_rest, fragment, tag);
    let rest = body_rest + fragment;
    let page = styled(fragment, conf);
    assert(body_tag(background, foreground, size, family) =~= tag + body_rest);
    assert(page =~= head + (tag + rest));
    page_layout(fragment, conf);
    assert forall|at: int| occurs_at(page, tag, at) implies at == head.len() by {
        lemma_only_after(head, tag, rest, at);
    }
}

/// The length of what stands before the font size in a styled page.
pub open spec fn size_offset() -> int {
    30
}

/// The length of what stands between the font size and the font family.
pub open spec fn family_gap() -> int {
    17
}

/// Whatever the fragment and the configuration are, a styled page begins
/// with the tag `<head>`, holds the opening of the body tag right after its
/// head, holds the configured font size and font family as they stand in its
/// style block, and ends with the fragment as it stands.
pub proof fn page_layout(fragment: Seq<char>, conf: Config)
    ensures
        occurs_at(styled(fragment, conf), head_tag(), 0),
        occurs_at(
            styled(fragment, conf),
            body_open(),
            page_head(conf.font_size@, conf.font_family@).len() as int,
        ),
        occurs_at(styled(fragment, conf), conf.font_size@, size_offset()),
        occurs_at(
            styled(fragment, conf),
            conf.font_family@,
            size_offset() + conf.font_size@.len() + family_gap(),
        ),
        occurs_at(styled(fragment, conf), fragment, page_shell(conf).len() as int),
        styled(fragment, conf).len() == page_shell(conf).len() + fragment.len(),
{
    let size = conf.font_size@;
    let family = conf.font_family@;
    let page = styled(fragment, conf);
    reveal_strlit("<head>");
    reveal_strlit("<body");
    reveal_strlit("<head><style>pre { ");
    reveal_strlit("<body style=\"background-color:#");
    reveal_strlit("font-size: ");
    reveal_strlit("px; font-family: ");
    let at_body = page_head(size, family).len() as int;
    let at_size = size_offset();
    let at_family = size_offset() + size.len() + family_gap();
    let shell_len = page_shell(conf).len() as int;
    assert(page.subrange(0, head_tag().len() as int) =~= head_tag());
    assert(page.subrange(at_body, at_body + body_open().len()) =~= body_open());
    assert(page.subrange(at_size, at_size + size.len()) =~= size);
    assert(page.subrange(at_family, at_family + family.len()) =~= family);
    assert(page.subrange(shell_len, shell_len + fragment.len()) =~= fragment);
}

} // verus!
