//! The build context: what of a directory is sent to the builder, and how it is packed.

use std::io::Write;

use vstd::prelude::*;

use flate2::write::GzEncoder;
use flate2::Compression;

use crate::text;
use crate::text::same_text;

verus! {

broadcast use vstd::string::group_string_axioms;

/// Why reading or writing came to nothing.
#[verifier::external_type_specification]
#[verifier::external_body]
pub struct ExIoError(std::io::Error);

/// Why there is no context to send.
#[derive(Debug)]
pub enum ContextError {
    /// The context of this name is no directory.
    NotDirectory(String),
    /// The archive could not be compressed.
    Gzip(std::io::Error),
    /// The compressed archive could not be brought to its end.
    Finish(std::io::Error),
}

impl ContextError {
    /// What went wrong, in words.
    pub fn message(&self) -> (m: String)
        ensures
            m@ == match self {
                ContextError::NotDirectory(path) => "context "@ + path@ + " is not a directory"@,
                ContextError::Gzip(_) => "gzipping tar"@,
                ContextError::Finish(_) => "finalizing gzip"@,
            },
    {
        match self {
            ContextError::NotDirectory(path) => "context ".to_owned().concat(path.as_str()).concat(
                " is not a directory",
            ),
            ContextError::Gzip(_) => "gzipping tar".to_owned(),
            ContextError::Finish(_) => "finalizing gzip".to_owned(),
        }
    }
}

/// Accepts a context that is a directory.
pub fn check_context(is_dir: bool, path: &str) -> (r: Result<(), ContextError>)
    ensures
        r is Ok <==> is_dir,
        r matches Err(e) ==> e is NotDirectory && e->NotDirectory_0@ == path@,
{
    if is_dir {
        Ok(())
    } else {
        Err(ContextError::NotDirectory(path.to_owned()))
    }
}

/// Whether an entry of the context is kept, with all that is below it. At the top, `.git` and
/// `target` are not: they are large, and of no use to a builder of another make. Deeper down
/// those are ordinary names.
pub open spec fn kept(depth: int, name: Option<Seq<char>>) -> bool {
    depth != 1 || (name != Some(".git"@) && name != Some("target"@))
}

/// Whether an entry of the context is kept, with all that is below it. There is no name where
/// it is no text.
pub fn keep_entry(depth: usize, name: Option<&str>) -> (yes: bool)
    ensures
        yes == kept(depth as int, text::opt_str(name)),
{
    if depth != 1 {
        return true;
    }
    match name {
        Some(n) => !same_text(n, ".git") && !same_text(n, "target"),
        None => true,
    }
}

/// The names from the root of the context down to an entry, each a text or none.
pub open spec fn path_kept(path: Seq<Option<Seq<char>>>) -> bool {
    forall|i: int| 0 <= i < path.len() ==> kept(i + 1, #[trigger] path[i])
}

/// Of all entries below the context, those in `.git` or `target` at its top are left out, and
/// no others.
pub proof fn only_top_level_is_left_out(path: Seq<Option<Seq<char>>>)
    requires
        path.len() > 0,
    ensures
        path_kept(path) <==> path[0] != Some(".git"@) && path[0] != Some("target"@),
{
    if path[0] != Some(".git"@) && path[0] != Some("target"@) {
        assert forall|i: int| 0 <= i < path.len() implies kept(i + 1, #[trigger] path[i]) by {}
    } else {
        assert(!kept(1, path[0]));
    }
}

/// What is done with an entry of the context.
pub enum EntryStep {
    /// Nothing: it is the context itself.
    Skip,
    /// It is archived as a directory.
    Directory,
    /// It is archived as what it is, a link as a link.
    Item,
}

/// What is done with an entry that was kept.
pub fn archive_entry(depth: usize, is_dir: bool) -> (step: EntryStep)
    ensures
        depth == 0 ==> step is Skip,
        depth > 0 && is_dir ==> step is Directory,
        depth > 0 && !is_dir ==> step is Item,
{
    if depth == 0 {
        EntryStep::Skip
    } else if is_dir {
        EntryStep::Directory
    } else {
        EntryStep::Item
    }
}

/// The bytes, compressed by `flate2`.
pub uninterp spec fn gzip_bytes(data: Seq<u8>) -> Seq<u8>;

/// The data that was compressed to the given bytes, where there is such.
pub open spec fn gunzipped(bytes: Seq<u8>) -> Option<Seq<u8>> {
    if exists|data: Seq<u8>| #[trigger] gzip_bytes(data) == bytes {
        Some(choose|data: Seq<u8>| #[trigger] gzip_bytes(data) == bytes)
    } else {
        None
    }
}

/// `flate2::write::GzEncoder` at the default level, over a vector: `new`, `write_all` of all
/// the data at once, `finish`. Writing to a vector does not fail, and the compressor takes any
/// data, so that it always succeeds. The result rests on the data alone, and loses nothing: no
/// other data are compressed to the same bytes.
#[verifier::external_body]
pub(crate) fn gzip(data: &[u8]) -> (r: Result<Vec<u8>, ContextError>)
    ensures
        r is Ok,
        r->Ok_0@ == gzip_bytes(data@),
        forall|other: Seq<u8>| #[trigger] gzip_bytes(other) == r->Ok_0@ ==> other == data@,
{
    let mut encoder = GzEncoder::new(Vec::new(), Compression::default());
    encoder.write_all(data).map_err(ContextError::Gzip)?;
    encoder.finish().map_err(ContextError::Finish)
}

/// The context as it is streamed to a builder pod: the archive, compressed, so that
/// decompressing it gives the archive back.
pub fn tarball(tar: &[u8]) -> (r: Result<Vec<u8>, ContextError>)
    ensures
        r is Ok,
        r->Ok_0@ == gzip_bytes(tar@),
        gunzipped(r->Ok_0@) == Some(tar@),
{
    gzip(tar)
}

/// At the top of the context `.git` and `target` are left out, and no other name; above and
/// below it everything is kept.
pub proof fn entries_left_out(depth: int, name: Seq<char>)
    ensures
        depth != 1 ==> kept(depth, Some(name)),
        kept(depth, None),
        kept(1, Some(name)) <==> name != ".git"@ && name != "target"@,
{
}

}
