//! The kinds of file that a build tells apart, and how it tells them: by the
//! extension of the file's name, compared letter for letter.

use crate::path::{extension, extension_of};
use crate::text::same_text;
use vstd::prelude::*;

verus! {

/// A kind of file.
#[derive(Debug, Clone, Copy, PartialEq, Eq, Structural)]
pub enum FileKind {
    /// No extension: indexed by name alone.
    Bare,
    /// `txt`, `markdown` or `md`: the contents are the body.
    PlainText,
    /// `pdf`: the body is what the converter extracts.
    PortableDocument,
    /// `webloc`: a property list that names a URL.
    WebLocation,
    /// Any other extension: left out of the index.
    Opaque,
}

/// The kind that an extension stands for. Extensions are compared as they
/// are written: `PDF` is not `pdf`.
pub open spec fn kind_of_extension(ext: Option<Seq<char>>) -> FileKind {
    match ext {
        None => FileKind::Bare,
        Some(e) => if e == "pdf"@ {
            FileKind::PortableDocument
        } else if e == "txt"@ || e == "markdown"@ || e == "md"@ {
            FileKind::PlainText
        } else if e == "webloc"@ {
            FileKind::WebLocation
        } else {
            FileKind::Opaque
        },
    }
}

/// The kind of the file at `path`.
pub open spec fn kind_of(path: Seq<char>) -> FileKind {
    kind_of_extension(extension_of(path))
}

/// Tells the kind of the file at `path` from its extension.
pub fn file_kind(path: &str) -> (kind: FileKind)
    ensures
        kind == kind_of(path@),
{
    match extension(path) {
        None => FileKind::Bare,
        Some(ext) => {
            let ext = ext.as_str();
            if same_text(ext, "pdf") {
                FileKind::PortableDocument
            } else if same_text(ext, "txt") || same_text(ext, "markdown") || same_text(ext, "md") {
                FileKind::PlainText
            } else if same_text(ext, "webloc") {
                FileKind::WebLocation
            } else {
                FileKind::Opaque
            }
        },
    }
}

} // verus!
