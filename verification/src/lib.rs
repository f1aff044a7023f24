//! Renders a file as a themed HTML page for preview: a hex dump for binaries,
//! highlighted XML for property lists and highlighted source text for
//! everything else.
//!
//! [`highlight::generate_preview`] classifies the file by its content type
//! and returns a [`rendering::Rendering`]. Three steps of a rendering are
//! taken by the caller, not by the library, because they read the disk or
//! may abort: the lookup of a grammar by the file's path, the writing of a
//! property list as XML, and highlighting. As long as the rendering has a
//! [`rendering::Rendering::request`], the caller takes that step behind a
//! fault barrier and reports the outcome with
//! [`rendering::Rendering::advance`]; after that
//! [`rendering::Rendering::page`] is the finished page.
//!
//! The grammars and themes are those of `syntect`, the hex dump is that of
//! `hexplay`, and property lists are read by `plist`.

pub mod hexdump;
pub mod highlight;
pub mod plist_xml;
pub mod registry;
pub mod rendering;
pub mod shell;
pub mod text;
pub mod theme;
pub mod util;
