//! Where a converted image goes.
//!
//! Paths are taken apart and put together by `std::path`, in the syntax of
//! the platform that the library is built for. The contracts name what it
//! returns and say how the resolver combines it.

use vstd::prelude::*;
use crate::error::Error;

verus! {

/// What `std::path::Path::file_name` returns for the path written as `path`.
pub uninterp spec fn path_file_name(path: Seq<char>) -> Option<Seq<char>>;

/// What `std::path::Path::join` returns for the paths written as `base` and `tail`.
pub uninterp spec fn path_join(base: Seq<char>, tail: Seq<char>) -> Seq<char>;

/// What `std::path::Path::with_extension` returns for the path written as `path`.
pub uninterp spec fn path_with_extension(path: Seq<char>, extension: Seq<char>) -> Seq<char>;

/// The characters that separate the components of a path on some platform.
pub open spec fn is_separator(c: char) -> bool {
    c == '/' || c == '\\'
}

/// The extension of every path that the resolver produces.
pub open spec fn target_extension() -> Seq<char> {
    "webp"@
}

/// The output path for `path`, or `None` where `path` names no file.
///
/// With an output directory the file's name moves there; without one the
/// path stays where it is. Either way its extension becomes the target's.
pub open spec fn resolved_path(output: Option<Seq<char>>, path: Seq<char>) -> Option<Seq<char>> {
    match path_file_name(path) {
        None => None,
        Some(name) => Some(
            match output {
                Some(dir) => path_with_extension(path_join(dir, name), target_extension()),
                None => path_with_extension(path, target_extension()),
            },
        ),
    }
}

/// With an output directory given, the directory of the input plays no
/// part: two inputs of the same file name resolve to the same path.
pub proof fn lemma_output_dir_replaces_directory(dir: Seq<char>, a: Seq<char>, b: Seq<char>)
    requires
        path_file_name(a) == path_file_name(b),
    ensures
        resolved_path(Some(dir), a) == resolved_path(Some(dir), b),
{
}

/// Calls `std::path::Path::file_name`: the final component of the path, if
/// it has one. The contract only names the result.
#[verifier::external_body]
fn file_name(path: &str) -> (name: Option<String>)
    ensures
        name is Some <==> path_file_name(path@) is Some,
        name matches Some(n) ==> path_file_name(path@) == Some(n@),
{
    std::path::Path::new(path).file_name().map(|name| name.to_string_lossy().into_owned())
}

/// Calls `std::path::Path::join`: `tail` adjoined to `base`. The contract
/// only names the result.
#[verifier::external_body]
fn join(base: &str, tail: &str) -> (joined: String)
    ensures
        joined@ == path_join(base@, tail@),
{
    std::path::Path::new(base).join(tail).to_string_lossy().into_owned()
}

/// Calls `std::path::Path::with_extension`: the path with its extension
/// replaced, or added where it had none. The call panics on an extension
/// that holds a separator, so none is admitted. The contract only names the
/// result.
#[verifier::external_body]
fn with_extension(path: &str, extension: &str) -> (replaced: String)
    requires
        forall|i: int| 0 <= i < extension@.len() ==> !is_separator(#[trigger] extension@[i]),
    ensures
        replaced@ == path_with_extension(path@, extension@),
{
    std::path::Path::new(path).with_extension(extension).to_string_lossy().into_owned()
}

/// The command line: the images to convert and where to put the results.
#[derive(Debug)]
pub struct Args {
    /// Image paths.
    pub images: Vec<String>,
    /// Output directory.
    pub output: Option<String>,
}

impl Args {
    /// The output directory as the contracts see it.
    pub open spec fn output_dir(&self) -> Option<Seq<char>> {
        match self.output {
            Some(dir) => Some(dir@),
            None => None,
        }
    }

    /// Places the image at `path`, of which `name` is what the path has
    /// for a file name: refuses it where there is none, else moves the name
    /// to the output directory, if one is given, and replaces the
    /// extension by the target's.
    pub fn place(&self, path: &str, name: Option<String>) -> (target: Result<String, Error>)
        ensures
            match name {
                None => target matches Err(Error::InvalidFileName),
                Some(n) => target matches Ok(t) && t@ == path_with_extension(
                    match self.output_dir() {
                        Some(dir) => path_join(dir, n@),
                        None => path@,
                    },
                    target_extension(),
                ),
            },
    {
        match name {
            None => Err(Error::InvalidFileName),
            Some(name) => {
                let extension = "webp";
                proof {
                    reveal_strlit("webp");
                }
                let target = match &self.output {
                    Some(dir) => {
                        let moved = join(dir.as_str(), name.as_str());
                        with_extension(moved.as_str(), extension)
                    },
                    None => with_extension(path, extension),
                };
                Ok(target)
            },
        }
    }

    /// Resolves the output path of the image at `path`.
    ///
    /// A path that names no file is refused, and no other is. Without an
    /// output directory the result is the input with its extension replaced
    /// by the target's; with one it is the file's name, moved to that
    /// directory, with its extension replaced likewise.
    pub fn build_path(&self, path: &str) -> (target: Result<String, Error>)
        ensures
            match resolved_path(self.output_dir(), path@) {
                Some(resolved) => target matches Ok(t) && t@ == resolved,
                None => target matches Err(Error::InvalidFileName),
            },
            target is Err <==> path_file_name(path@) is None,
            self.output is None ==> (target matches Ok(t) ==> t@ == path_with_extension(
                path@,
                target_extension(),
            )),
            self.output matches Some(dir) ==> (target matches Ok(t) ==> t@ == path_with_extension(
                path_join(dir@, path_file_name(path@)->Some_0),
                target_extension(),
            )),
    {
        self.place(path, file_name(path))
    }
}

} // verus!
