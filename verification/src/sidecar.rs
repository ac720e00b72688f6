//! The sidecar record: the file that holds the digest of an input file.
//!
//! A sidecar is named after the base name of the input path, not after the
//! whole path, and is meant for the working directory of the process. Two
//! input paths with the same base name therefore share one sidecar name.

use crate::hex::{to_upper_hex, upper_hex};
use vstd::prelude::*;
use vstd::string::*;

verus! {

/// The final component of a path, if it has one: what `Path::file_name`
/// returns for the path, as text. The syntax of paths is that of the platform
/// the library is built for.
pub uninterp spec fn path_file_name(path: Seq<char>) -> Option<Seq<char>>;

/// Calls `std::path::Path::file_name` on `path` and gives the component back
/// as a `String`. Trusted: whether there is a final component, and which text
/// it is, depends on the text of the path alone. Nothing is claimed about
/// which part of the path it is.
#[verifier::external_body]
fn file_name_of(path: &str) -> (name: Option<String>)
    ensures
        name.deep_view() == path_file_name(path@),
{
    match std::path::Path::new(path).file_name() {
        Some(name) => Some(name.to_string_lossy().into_owned()),
        None => None,
    }
}

/// What is appended to a base name to name its sidecar.
pub open spec fn sidecar_suffix() -> Seq<char> {
    seq!['.', 'm', 'd', '5']
}

/// The name of the sidecar of a file with base name `base`.
pub open spec fn sidecar_name_of(base: Seq<char>) -> Seq<char> {
    base + sidecar_suffix()
}

/// The content of the sidecar for a digest: one line, the digest in uppercase
/// hexadecimal, ended by a newline.
pub open spec fn sidecar_content_of(digest: Seq<u8>) -> Seq<char> {
    upper_hex(digest).push('\n')
}

/// A sidecar as plain text: the name of the file and all that it holds.
pub struct SidecarText {
    pub name: Seq<char>,
    pub content: Seq<char>,
}

/// A directory as far as sidecars are concerned: the names of its files and
/// what each of them holds.
pub type Directory = Map<Seq<char>, Seq<char>>;

impl SidecarText {
    /// The directory once this sidecar has been written into it: the sidecar
    /// is created, or takes the place of the file of its name.
    pub open spec fn written_into(self, directory: Directory) -> Directory {
        directory.insert(self.name, self.content)
    }
}

/// Writing a sidecar a second time changes nothing: its content replaces
/// what the first write left and is not added to it.
pub proof fn lemma_write_again_changes_nothing(sidecar: SidecarText, directory: Directory)
    ensures
        sidecar.written_into(sidecar.written_into(directory)) == sidecar.written_into(directory),
{
    assert(sidecar.written_into(sidecar.written_into(directory)) =~= sidecar.written_into(
        directory,
    ));
}

/// Of two sidecars with one name, only the one written last is left.
pub proof fn lemma_last_write_wins(first: SidecarText, second: SidecarText, directory: Directory)
    requires
        first.name == second.name,
    ensures
        second.written_into(first.written_into(directory)) == second.written_into(directory),
{
    assert(second.written_into(first.written_into(directory)) =~= second.written_into(directory));
}

/// The sidecar for a digest and the base name of the input, if the input has
/// one. An input without a base name has no sidecar.
pub open spec fn sidecar_of(base: Option<Seq<char>>, digest: Seq<u8>) -> Option<SidecarText> {
    match base {
        Some(b) => Some(
            SidecarText { name: sidecar_name_of(b), content: sidecar_content_of(digest) },
        ),
        None => None,
    }
}

/// A sidecar file to be written: its name, relative to the working directory,
/// and its content.
#[derive(Debug)]
pub struct Sidecar {
    pub name: String,
    pub content: String,
}

impl View for Sidecar {
    type V = SidecarText;

    open spec fn view(&self) -> SidecarText {
        SidecarText { name: self.name@, content: self.content@ }
    }
}

impl DeepView for Sidecar {
    type V = SidecarText;

    open spec fn deep_view(&self) -> SidecarText {
        self@
    }
}

/// The sidecar name for a base name: the base name followed by `.md5`.
pub fn sidecar_name_for(base: &str) -> (name: String)
    ensures
        name@ == sidecar_name_of(base@),
{
    proof {
        reveal_strlit(".md5");
        assert(".md5"@ =~= sidecar_suffix());
    }
    let mut name = String::from_str(base);
    name.append(".md5");
    name
}

/// The sidecar name for an input path: `None` where the path has no final
/// component to name it after.
pub fn sidecar_name(path: &str) -> (name: Option<String>)
    ensures
        name.deep_view() == match path_file_name(path@) {
            Some(base) => Some(sidecar_name_of(base)),
            None => None,
        },
{
    match file_name_of(path) {
        Some(base) => Some(sidecar_name_for(base.as_str())),
        None => None,
    }
}

/// The sidecar content for a digest.
pub fn sidecar_content(digest: &[u8]) -> (content: String)
    ensures
        content@ == sidecar_content_of(digest@),
{
    proof {
        reveal_strlit("\n");
        assert("\n"@ =~= seq!['\n']);
        assert(upper_hex(digest@).push('\n') =~= upper_hex(digest@) + seq!['\n']);
    }
    let mut content = to_upper_hex(digest);
    content.append("\n");
    content
}

impl Sidecar {
    /// The sidecar for a digest, named after the given base name.
    pub fn for_base(base: &str, digest: &[u8]) -> (sidecar: Sidecar)
        ensures
            Some(sidecar@) == sidecar_of(Some(base@), digest@),
    {
        Sidecar { name: sidecar_name_for(base), content: sidecar_content(digest) }
    }

    /// The sidecar for a digest, named after the base name of an input path:
    /// `None` where the path has no base name.
    pub fn for_path(path: &str, digest: &[u8]) -> (sidecar: Option<Sidecar>)
        ensures
            sidecar.deep_view() == sidecar_of(path_file_name(path@), digest@),
    {
        match file_name_of(path) {
            Some(base) => Some(Sidecar::for_base(base.as_str(), digest)),
            None => None,
        }
    }
}

} // verus!
