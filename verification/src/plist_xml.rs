//! Property lists: reading one from bytes, and taking the XML text that was
//! written for it.
//!
//! A property list is read here. Writing it out as XML is left to the caller,
//! like highlighting: the writer aborts on a value that XML cannot hold, such
//! as a date before the year 0, and a binary property list may hold one.

use crate::text::from_utf8;
use vstd::prelude::*;
use vstd::utf8::*;

verus! {

#[verifier::external_type_specification]
#[verifier::external_body]
pub struct ExValue(plist::Value);

#[verifier::external_type_specification]
#[verifier::external_body]
pub struct ExError(plist::Error);

/// The value that `plist::Value::from_reader` reads from `bytes`, if it
/// accepts them.
pub uninterp spec fn parsed_plist(bytes: Seq<u8>) -> Option<plist::Value>;

/// The value that `plist::Value::from_reader_xml` reads from `bytes`, if it
/// accepts them.
pub uninterp spec fn parsed_xml_plist(bytes: Seq<u8>) -> Option<plist::Value>;

/// Calls `plist::Value::from_reader` on the bytes. It reads bytes that begin
/// with the binary magic as a binary property list and nothing else, and
/// reports malformed input as an error. The contract gives the result its
/// name.
#[verifier::external_body]
fn read_plist(bytes: &[u8]) -> (parsed: Result<plist::Value, plist::Error>)
    ensures
        parsed is Ok <==> parsed_plist(bytes@) is Some,
        parsed is Ok ==> parsed_plist(bytes@) == Some(parsed.unwrap()),
{
    plist::Value::from_reader(std::io::Cursor::new(bytes))
}

/// Calls `plist::Value::from_reader_xml` on the bytes, which reads an XML
/// property list and reports malformed input as an error. The contract gives
/// the result its name.
#[verifier::external_body]
fn read_xml_plist(bytes: &[u8]) -> (parsed: Result<plist::Value, plist::Error>)
    ensures
        parsed is Ok <==> parsed_xml_plist(bytes@) is Some,
        parsed is Ok ==> parsed_xml_plist(bytes@) == Some(parsed.unwrap()),
{
    plist::Value::from_reader_xml(std::io::Cursor::new(bytes))
}

/// Why a property list could not be turned into text.
#[derive(Clone, Copy, Debug, PartialEq, Eq, Structural)]
pub enum PlistError {
    /// The bytes are neither a binary nor an XML property list.
    Parse,
    /// The property list could not be written as XML.
    Encode,
    /// The XML that was written is not UTF-8.
    InvalidText,
}

/// The message shown for a malformed property list.
pub open spec fn parse_message() -> Seq<char> {
    "Error parsing structured data"@
}

/// The message shown for XML that is not UTF-8.
pub open spec fn encoding_message() -> Seq<char> {
    "Invalid text encoding in structured data"@
}

impl PlistError {
    /// The message of each error. A property list that cannot be read and one
    /// that cannot be written share theirs.
    pub open spec fn message_text(self) -> Seq<char> {
        match self {
            PlistError::Parse => parse_message(),
            PlistError::Encode => parse_message(),
            PlistError::InvalidText => encoding_message(),
        }
    }

    /// The message to show to the user.
    pub fn message(&self) -> (text: &'static str)
        ensures
            text@ == self.message_text(),
    {
        match self {
            PlistError::Parse => "Error parsing structured data",
            PlistError::Encode => "Error parsing structured data",
            PlistError::InvalidText => "Invalid text encoding in structured data",
        }
    }
}

/// The eight bytes that a binary property list begins with: `bplist00`.
pub open spec fn binary_magic() -> Seq<u8> {
    seq![0x62u8, 0x70u8, 0x6cu8, 0x69u8, 0x73u8, 0x74u8, 0x30u8, 0x30u8]
}

/// Whether `bytes` begin with the magic of a binary property list.
pub open spec fn has_binary_magic(bytes: Seq<u8>) -> bool {
    bytes.len() >= 8 && bytes.subrange(0, 8) == binary_magic()
}

/// Tells a binary property list from every other input by its first eight
/// bytes.
pub fn is_binary_plist(bytes: &[u8]) -> (binary: bool)
    ensures
        binary == has_binary_magic(bytes@),
{
    if bytes.len() < 8 {
        return false;
    }
    let binary = bytes[0] == 0x62 && bytes[1] == 0x70 && bytes[2] == 0x6c && bytes[3] == 0x69
        && bytes[4] == 0x73 && bytes[5] == 0x74 && bytes[6] == 0x30 && bytes[7] == 0x30;
    proof {
        let head = bytes@.subrange(0, 8);
        if binary {
            assert(head =~= binary_magic());
        } else {
            assert(head[0] == bytes@[0] && head[1] == bytes@[1] && head[2] == bytes@[2] && head[3]
                == bytes@[3]);
            assert(head[4] == bytes@[4] && head[5] == bytes@[5] && head[6] == bytes@[6] && head[7]
                == bytes@[7]);
        }
    }
    binary
}

/// The property list in `bytes`: what the binary reader makes of bytes that
/// begin with the binary magic, and what the XML reader makes of all others.
/// No other encoding is read.
pub open spec fn plist_value(bytes: Seq<u8>) -> Option<plist::Value> {
    if has_binary_magic(bytes) {
        parsed_plist(bytes)
    } else {
        parsed_xml_plist(bytes)
    }
}

/// Reads a binary or an XML property list. Bytes that are neither are
/// refused.
pub fn read_property_list(bytes: &[u8]) -> (parsed: Result<plist::Value, PlistError>)
    ensures
        parsed is Ok <==> plist_value(bytes@) is Some,
        parsed is Ok ==> plist_value(bytes@) == Some(parsed.unwrap()),
        parsed is Err ==> parsed == Err::<plist::Value, PlistError>(PlistError::Parse),
{
    let read = if is_binary_plist(bytes) {
        read_plist(bytes)
    } else {
        read_xml_plist(bytes)
    };
    match read {
        Ok(value) => Ok(value),
        Err(_) => Err(PlistError::Parse),
    }
}

/// The text of a property list that was to be written as XML: the decoded
/// bytes, or the error where nothing was written or what was written is not
/// UTF-8.
pub open spec fn xml_text_of(encoded: Option<Seq<u8>>) -> Result<Seq<char>, PlistError> {
    match encoded {
        None => Err(PlistError::Encode),
        Some(xml) => if valid_utf8(xml) {
            Ok(decode_utf8(xml))
        } else {
            Err(PlistError::InvalidText)
        },
    }
}

/// What a text result holds.
pub open spec fn text_result(result: Result<String, PlistError>) -> Result<Seq<char>, PlistError> {
    match result {
        Ok(text) => Ok(text@),
        Err(error) => Err(error),
    }
}

/// What an optional byte vector holds.
pub open spec fn encoded_bytes(encoded: Option<Vec<u8>>) -> Option<Seq<u8>> {
    match encoded {
        Some(xml) => Some(xml@),
        None => None,
    }
}

/// Takes what came of writing a property list as XML: the bytes, or nothing
/// where the writer failed. Bytes that are UTF-8 become the text.
pub fn xml_text(encoded: Option<Vec<u8>>) -> (text: Result<String, PlistError>)
    ensures
        text_result(text) == xml_text_of(encoded_bytes(encoded)),
{
    match encoded {
        None => Err(PlistError::Encode),
        Some(xml) => match from_utf8(xml) {
            Ok(text) => Ok(text),
            Err(_) => Err(PlistError::InvalidText),
        },
    }
}

} // verus!
