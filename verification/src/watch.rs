//! Decisions of the watcher/bridge path: which filesystem change events are
//! content edits of the shader entry file, and therefore must be re-read and
//! forwarded to the render thread.

use vstd::prelude::*;
use crate::text::str_eq;
use crate::toy::{Config, Toy};

verus! {

/// Classification of one filesystem change event. The host maps whatever its
/// notification backend reports onto these four kinds; only `DataContent`
/// stands for a modification of a file's contents.
#[derive(Clone, Copy, PartialEq, Eq, Structural, Debug)]
pub enum ChangeKind {
    /// The contents of a file changed.
    DataContent,
    /// Only metadata changed (timestamp touch, permissions).
    Metadata,
    /// A file was renamed.
    Rename,
    /// Anything else (creation, removal, unclassified).
    Other,
}

/// The file name of the shader entry function, and its legacy spelling.
pub open spec fn is_entry_file_name(name: Seq<char>) -> bool {
    name == "image.glsl"@ || name == "toy.glsl"@
}

/// True exactly when a change event must trigger a re-read of the shader
/// entry file: the event reports changed file contents, and the changed file
/// is the entry file. Metadata-only touches, renames and unrelated files
/// never propagate.
pub open spec fn spec_should_reload(kind: ChangeKind, file_name: Seq<char>) -> bool {
    kind is DataContent && is_entry_file_name(file_name)
}

/// Decide whether a change event is a content edit of the shader entry file.
pub fn should_reload(kind: ChangeKind, file_name: &str) -> (r: bool)
    ensures
        r == spec_should_reload(kind, file_name@),
{
    match kind {
        ChangeKind::DataContent => {
            str_eq(file_name, "image.glsl") || str_eq(file_name, "toy.glsl")
        },
        _ => false,
    }
}

/// A metadata-only touch of any file triggers no reload, whatever the file.
pub proof fn lemma_metadata_touch_never_reloads(file_name: Seq<char>)
    ensures
        !spec_should_reload(ChangeKind::Metadata, file_name),
{
}

/// The descriptor the bridge forwards after re-reading the entry file: the
/// text it read, verbatim, over the channels configured at startup — only
/// the shader text is refreshed by an edit.
pub fn make_descriptor(source: String, channels: Config) -> (t: Toy)
    ensures
        t@.main_image == source@,
        t@.channels == channels@,
{
    Toy { main_image: source, config: channels }
}

} // verus!
