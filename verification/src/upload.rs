//! Upload input types and file replacement policies.

use std::io::ErrorKind;
use std::io::Read;
use std::path::PathBuf;
use vstd::prelude::*;

verus! {

#[verifier::external_type_specification]
#[verifier::external_body]
pub struct ExPathBuf(PathBuf);

#[verifier::external_type_specification]
#[verifier::external_body]
pub struct ExIoError(std::io::Error);

/// `std::io::ErrorKind`, declared with its variants so that verified code can
/// name the kind of an error it makes.
#[verifier::external_type_specification]
pub struct ExErrorKind(ErrorKind);

/// Policy for reconciling existing article files with new uploads.
#[derive(Clone, Copy, Debug, PartialEq, Eq, Structural)]
pub enum FileReplacePolicy {
    /// Replace visible article files after the new uploads succeed.
    ReplaceAll,
    /// Replace files that share the same filename.
    UpsertByFilename,
    /// Keep existing files and add new uploads alongside them.
    KeepExistingAndAdd,
}

/// A blocking reader that produces upload bytes.
///
/// The boxed reader is held opaquely: its `Debug` output never shows the
/// reader itself, only that one is there.
#[verifier::external_body]
#[derive(Debug)]
pub struct UploadReader {
    inner: std::cell::UnsafeCell<Box<dyn Read + Send>>,
}

impl UploadReader {
    /// Boxes a reader (`Box::new`); nothing is claimed of the reader's bytes.
    #[verifier::external_body]
    pub(crate) fn new<R: Read + Send + 'static>(reader: R) -> Self {
        UploadReader { inner: std::cell::UnsafeCell::new(Box::new(reader)) }
    }

    /// Reads the next bytes into `buf` (`std::io::Read::read` on the boxed
    /// reader); nothing is claimed of what it reads.
    #[verifier::external_body]
    pub fn read(&mut self, buf: &mut [u8]) -> std::io::Result<usize> {
        self.inner.get_mut().read(buf)
    }
}

/// Source data for a single upload.
#[derive(Debug)]
pub enum UploadSource {
    /// Upload from a local file path.
    Path(
        /// Local source path.
        PathBuf,
    ),
    /// Upload from a blocking reader with an explicit content length.
    Reader {
        /// Reader that produces the upload bytes.
        reader: UploadReader,
        /// Exact number of bytes that the reader will produce.
        content_length: u64,
    },
}

/// Specification for one file upload.
#[derive(Debug)]
pub struct UploadSpec {
    /// Filename to expose in Figshare.
    pub filename: String,
    /// Upload source.
    pub source: UploadSource,
}

/// The final file name segment of a path as text: what `Path::file_name`
/// returns, decoded by `OsStr::to_string_lossy`; `None` when the path has no
/// final normal segment (it is empty, a root, or ends in `..`).
pub uninterp spec fn path_file_name(path: PathBuf) -> Option<Seq<char>>;

/// `Path::file_name`, then `OsStr::to_string_lossy`. The two calls stay in one
/// wrapper because the `OsStr` between them is a type this library does not
/// hold.
#[verifier::external_body]
fn final_file_name(path: &PathBuf) -> (r: Option<String>)
    ensures
        match r {
            Some(name) => path_file_name(*path) == Some(name@),
            None => path_file_name(*path) is None,
        },
{
    match path.file_name() {
        Some(name) => Some(name.to_string_lossy().into_owned()),
        None => None,
    }
}

/// The kind of an I/O error, as `std::io::Error::kind` reports it.
pub uninterp spec fn io_error_kind(error: std::io::Error) -> ErrorKind;

/// The text of an I/O error, as its `Display` impl writes it.
pub uninterp spec fn io_error_text(error: std::io::Error) -> Seq<char>;

/// `std::io::Error::new` with a kind and a text payload: the error reports
/// that kind, and displays as the text itself.
#[verifier::external_body]
fn new_io_error(kind: ErrorKind, message: &str) -> (r: std::io::Error)
    ensures
        io_error_kind(r) == kind,
        io_error_text(r) == message@,
{
    std::io::Error::new(kind, message)
}

/// The message of the error for a path without a final file name segment.
pub open spec fn missing_file_name_message() -> Seq<char> {
    "path has no final file name segment"@
}

/// The error for a path without a final file name segment: an
/// `InvalidInput` error with a fixed message.
pub fn path_without_filename_error() -> (r: std::io::Error)
    ensures
        io_error_kind(r) == ErrorKind::InvalidInput,
        io_error_text(r) == missing_file_name_message(),
{
    new_io_error(ErrorKind::InvalidInput, "path has no final file name segment")
}

impl UploadSpec {
    /// Builds an upload spec from a local path, named after the path's final
    /// file name segment.
    ///
    /// # Errors
    ///
    /// Returns an error if the path does not contain a final filename segment.
    pub fn from_path(path: PathBuf) -> (r: std::io::Result<Self>)
        ensures
            path_file_name(path) is None <==> r is Err,
            r matches Err(e) ==> io_error_kind(e) == ErrorKind::InvalidInput && io_error_text(e)
                == missing_file_name_message(),
            r matches Ok(spec) ==> Some(spec.filename@) == path_file_name(path) && spec.source
                == UploadSource::Path(path),
    {
        match final_file_name(&path) {
            Some(filename) => Ok(UploadSpec { filename, source: UploadSource::Path(path) }),
            None => Err(path_without_filename_error()),
        }
    }

    /// Builds an upload spec from a reader and explicit metadata.
    pub fn from_reader<R: Read + Send + 'static>(
        filename: &str,
        reader: R,
        content_length: u64,
    ) -> (r: Self)
        ensures
            r.filename@ == filename@,
            r.source matches UploadSource::Reader { content_length: len, .. } && len == content_length,
    {
        UploadSpec {
            filename: filename.to_owned(),
            source: UploadSource::Reader { reader: UploadReader::new(reader), content_length },
        }
    }

}

} // verus!
