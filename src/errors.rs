use vstd::prelude::*;
use vstd::string::*;

verus! {

/// No version of the requested package could be found in the catalog.
#[derive(Debug, Clone, Copy, PartialEq, Eq, Structural)]
pub struct NoVersionFoundError;

/// The user named a package without the `@<version>` that the command needs.
#[derive(Debug, Clone, Copy, PartialEq, Eq, Structural)]
pub struct NoVersionSpecifiedError;

/// The requested package is not in the catalog.
#[derive(Debug, Clone, Copy, PartialEq, Eq, Structural)]
pub struct PackageNotFoundError;

/// The descriptor names an archive format outside the supported set.
#[derive(Debug, Clone, Copy, PartialEq, Eq, Structural)]
pub struct FileTypeNotSupportedError;

/// The descriptor names an installation method outside the supported set.
#[derive(Debug, Clone, Copy, PartialEq, Eq, Structural)]
pub struct InstallTypeNotSupportedError;

/// An archive had to be decoded but no decoder was supplied.
#[derive(Debug, Clone, Copy, PartialEq, Eq, Structural)]
pub struct DecoderNotFoundError;

/// A filesystem path was required but none was supplied.
#[derive(Debug, Clone, Copy, PartialEq, Eq, Structural)]
pub struct PathNotFoundError;

impl NoVersionFoundError {
    pub fn message(&self) -> (r: String)
        ensures
            r@ == "No version of the specified package could be found."@,
    {
        String::from_str("No version of the specified package could be found.")
    }
}

impl NoVersionSpecifiedError {
    pub fn message(&self) -> (r: String)
        ensures
            r@ == "No version was specified for the package. Please specify one."@,
    {
        String::from_str("No version was specified for the package. Please specify one.")
    }
}

impl PackageNotFoundError {
    pub fn message(&self) -> (r: String)
        ensures
            r@ == "The specified package could not be found."@,
    {
        String::from_str("The specified package could not be found.")
    }
}

impl FileTypeNotSupportedError {
    pub fn message(&self) -> (r: String)
        ensures
            r@ == "The specified file type is not supported."@,
    {
        String::from_str("The specified file type is not supported.")
    }
}

impl InstallTypeNotSupportedError {
    pub fn message(&self) -> (r: String)
        ensures
            r@ == "The specified install type is not supported."@,
    {
        String::from_str("The specified install type is not supported.")
    }
}

impl DecoderNotFoundError {
    pub fn message(&self) -> (r: String)
        ensures
            r@ == "A decoder was Expected, but none was found."@,
    {
        String::from_str("A decoder was Expected, but none was found.")
    }
}

impl PathNotFoundError {
    pub fn message(&self) -> (r: String)
        ensures
            r@ == "A path was Expected, but none was found."@,
    {
        String::from_str("A path was Expected, but none was found.")
    }
}

/// A required key of a catalog document.
#[derive(Debug, Clone, Copy, PartialEq, Eq, Structural)]
pub enum Field {
    Versions,
    Lts,
    Latest,
    Name,
    Version,
    Url,
    Type,
    File,
    InstallationType,
}

/// The dotted key under which a field stands in its document.
pub open spec fn field_key(f: Field) -> Seq<char> {
    match f {
        Field::Versions => "versions"@,
        Field::Lts => "lts"@,
        Field::Latest => "latest"@,
        Field::Name => "name"@,
        Field::Version => "version"@,
        Field::Url => "url"@,
        Field::Type => "type"@,
        Field::File => "file"@,
        Field::InstallationType => "installation.type"@,
    }
}

impl Field {
    /// The dotted key of the field, as error messages name it.
    pub fn key(&self) -> (r: &'static str)
        ensures
            r@ == field_key(*self),
    {
        match self {
            Field::Versions => "versions",
            Field::Lts => "lts",
            Field::Latest => "latest",
            Field::Name => "name",
            Field::Version => "version",
            Field::Url => "url",
            Field::Type => "type",
            Field::File => "file",
            Field::InstallationType => "installation.type",
        }
    }
}

/// Why an archive could not be decoded.
#[derive(Debug, Clone, Copy, PartialEq, Eq, Structural)]
pub enum DecodeFailure {
    /// The archive file could not be opened.
    CannotOpen,
    /// The compressed stream or the tar stream is corrupt or truncated.
    CorruptStream,
    /// An entry could not be written (permissions, disk full).
    WriteFailed,
    /// An entry would land outside the destination directory.
    EntryEscapes,
}

/// Why an installation step could not run to completion.
#[derive(Debug, Clone, PartialEq, Eq)]
pub enum ProcessFailure {
    /// The program could not be started (not found, not executable).
    NotStarted(String),
    /// The program exited unsuccessfully: its name, its exit code if any, and what it printed.
    Exited(String, Option<i32>, String),
    /// The directory tree could not be copied.
    CopyFailed(String),
}

/// Every way in which the acquisition pipeline can fail.
#[derive(Debug, Clone, PartialEq, Eq)]
pub enum SageError {
    NoVersionSpecified(NoVersionSpecifiedError),
    NoVersionFound(NoVersionFoundError),
    PackageNotFound(PackageNotFoundError),
    /// The catalog text is not well-formed YAML.
    Parse,
    /// A required key is absent, or its value does not have the expected shape.
    MissingField(Field),
    UnsupportedFormat(FileTypeNotSupportedError),
    UnsupportedInstallType(InstallTypeNotSupportedError),
    DecoderNotFound(DecoderNotFoundError),
    /// The decoder supplied handles another archive format than the package's.
    DecoderMismatch,
    PathNotFound(PathNotFoundError),
    /// The catalog named at construction is not one this tool knows.
    UnsupportedCatalog(String),
    /// A transport failure or an unsuccessful response, with the URL requested.
    Network(String),
    /// A file could not be created, read or written, with its path.
    Filesystem(String),
    Decode(DecodeFailure),
    Process(ProcessFailure),
}

impl ProcessFailure {
    /// A copy of this failure.
    pub fn duplicate(&self) -> (r: ProcessFailure)
        ensures
            r == *self,
    {
        match self {
            ProcessFailure::NotStarted(p) => ProcessFailure::NotStarted(p.clone()),
            ProcessFailure::Exited(p, code, out) => ProcessFailure::Exited(p.clone(), *code, out.clone()),
            ProcessFailure::CopyFailed(p) => ProcessFailure::CopyFailed(p.clone()),
        }
    }
}

impl SageError {
    /// A copy of this error.
    pub fn duplicate(&self) -> (r: SageError)
        ensures
            r == *self,
    {
        match self {
            SageError::NoVersionSpecified(e) => SageError::NoVersionSpecified(*e),
            SageError::NoVersionFound(e) => SageError::NoVersionFound(*e),
            SageError::PackageNotFound(e) => SageError::PackageNotFound(*e),
            SageError::Parse => SageError::Parse,
            SageError::MissingField(f) => SageError::MissingField(*f),
            SageError::UnsupportedFormat(e) => SageError::UnsupportedFormat(*e),
            SageError::UnsupportedInstallType(e) => SageError::UnsupportedInstallType(*e),
            SageError::DecoderNotFound(e) => SageError::DecoderNotFound(*e),
            SageError::DecoderMismatch => SageError::DecoderMismatch,
            SageError::PathNotFound(e) => SageError::PathNotFound(*e),
            SageError::UnsupportedCatalog(s) => SageError::UnsupportedCatalog(s.clone()),
            SageError::Network(s) => SageError::Network(s.clone()),
            SageError::Filesystem(s) => SageError::Filesystem(s.clone()),
            SageError::Decode(d) => SageError::Decode(*d),
            SageError::Process(p) => SageError::Process(p.duplicate()),
        }
    }
}

} // verus!
