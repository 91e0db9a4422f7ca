//! The ways in which packaging fails.

use vstd::prelude::*;
use vstd::string::StringExecFns;

verus! {

/// The class of a failure.
#[derive(Debug, Clone, Copy, PartialEq, Eq, Structural)]
pub enum ErrorKind {
    /// What was asked for cannot be had from what was given: a payload is
    /// missing, or the policy asks for what the target cannot do.
    Configuration,
    /// The input itself cannot be trusted or is not of the expected form.
    Integrity,
    /// A collaborator outside this library failed.
    External,
}

/// A failure of packaging.
#[derive(Debug, Clone, PartialEq)]
pub enum PackagingError {
    /// The named extension module was to be loaded from memory and has no
    /// shared library.
    InMemoryWithoutSharedLibrary(String),
    /// The named extension module was to be installed as a file and has no
    /// shared library.
    RelativePathWithoutSharedLibrary(String),
    /// The named extension module was to be linked into the interpreter and
    /// has no object files.
    BuiltinWithoutObjectFiles(String),
    /// The extension module has no shared library.
    NoSharedLibrary,
    /// The extension module has neither a shared library nor object files.
    NoObjectFiles,
    /// The target cannot load extension modules from memory.
    InMemoryLoadingUnsupported,
    /// The target cannot load extension modules from files.
    FileLoadingUnsupported,
    /// The policy admits memory only, and the target cannot load the named
    /// extension module from memory.
    InMemoryOnlyUnsupported(String),
    /// The policy admits files only, and the target cannot load extension
    /// modules from files.
    FilesystemOnlyUnsupported,
    /// The policy admits memory and files, and the target can load extension
    /// modules from neither.
    NoLoadingMechanism,
    /// The distribution can be linked in no way.
    NoLinkModes,
    /// The distribution cannot be linked statically.
    StaticLinkingUnsupported,
    /// The distribution cannot be linked dynamically.
    DynamicLinkingUnsupported,
    /// The collector refused; the text is its own.
    Collector(String),
    /// The resources could not be written; the text is the writer's own.
    Writer(String),
    /// The content of a resource could not be had; the text is the reader's
    /// own.
    Unresolved(String),
    /// The root of the distribution holds the named entry beside `python`.
    UnexpectedRootEntry(String),
    /// An entry of the distribution's root has a name that is no text.
    UnreadableRootEntry,
    /// The `python` directory holds the named entry, which is not expected.
    UnexpectedPythonEntry(String),
    /// An entry of the `python` directory has a name that is no text.
    UnreadablePythonEntry,
    /// The distribution has no `PYTHON.json`.
    MissingManifest,
    /// `PYTHON.json` is no JSON; the text is the parser's own.
    InvalidManifest(String),
    /// `PYTHON.json` is no JSON object.
    ManifestNotAnObject,
    /// `PYTHON.json` has no `version`.
    MissingVersion,
    /// The `version` of `PYTHON.json` is no string.
    VersionNotAString,
    /// The `version` of `PYTHON.json` is the given one, not 5.
    UnsupportedVersion(String),
    /// The distribution does not define the file suffixes of the given kind.
    MissingSuffixes(String),
    /// The distribution does not say where its include files are.
    MissingIncludePath,
    /// The distribution does not say where its standard library is.
    MissingStdlibPath,
    /// A data file of the standard library is not a file.
    ResourceInMemory,
    /// The source of a module of the standard library is not a file.
    SourceInMemory,
    /// The distribution names a link mode that is not known.
    UnhandledLinkMode(String),
    /// The distribution is linked as a shared library and names none.
    MissingSharedLibrary,
    /// The manifest names the extension module and no variant of it.
    NoVariants(String),
    /// The interpreter's library is linked statically and was not built.
    MissingLinkedLibrary,
    /// The manifest names a license file and no licenses.
    MissingLicenses,
    /// The text of the named license file was not given.
    MissingLicenseText(String),
    /// The archive has a name that does not end in `.tar.zst`.
    UnhandledArchiveFormat(String),
    /// The path of the site packages is a Windows path of the form that
    /// begins with two backslashes, a question mark and a backslash.
    UncSitePackages,
    /// A path has no file name.
    NoFileName,
    /// A path has no parent.
    NoParent,
    /// A path that has to be absolute is not.
    NotAbsolute,
    /// A path could not be freed of its dot segments.
    Dedot(String),
    /// A symbolic link of the archive points outside the directory that the
    /// archive is extracted to.
    MaliciousSymlink,
}

impl PackagingError {
    /// The class of the failure.
    pub open spec fn kind_spec(self) -> ErrorKind {
        match self {
            PackagingError::InMemoryWithoutSharedLibrary(_)
            | PackagingError::RelativePathWithoutSharedLibrary(_)
            | PackagingError::BuiltinWithoutObjectFiles(_)
            | PackagingError::NoSharedLibrary
            | PackagingError::NoObjectFiles
            | PackagingError::InMemoryLoadingUnsupported
            | PackagingError::FileLoadingUnsupported
            | PackagingError::InMemoryOnlyUnsupported(_)
            | PackagingError::FilesystemOnlyUnsupported
            | PackagingError::NoLoadingMechanism
            | PackagingError::NoLinkModes
            | PackagingError::StaticLinkingUnsupported
            | PackagingError::DynamicLinkingUnsupported
            | PackagingError::Collector(_)
            | PackagingError::UnhandledArchiveFormat(_) => ErrorKind::Configuration,
            PackagingError::Writer(_)
            | PackagingError::Unresolved(_)
            | PackagingError::MissingLinkedLibrary => ErrorKind::External,
            _ => ErrorKind::Integrity,
        }
    }

    /// The class of the failure.
    pub fn kind(&self) -> (k: ErrorKind)
        ensures
            k == self.kind_spec(),
    {
        match self {
            PackagingError::InMemoryWithoutSharedLibrary(_)
            | PackagingError::RelativePathWithoutSharedLibrary(_)
            | PackagingError::BuiltinWithoutObjectFiles(_)
            | PackagingError::NoSharedLibrary
            | PackagingError::NoObjectFiles
            | PackagingError::InMemoryLoadingUnsupported
            | PackagingError::FileLoadingUnsupported
            | PackagingError::InMemoryOnlyUnsupported(_)
            | PackagingError::FilesystemOnlyUnsupported
            | PackagingError::NoLoadingMechanism
            | PackagingError::NoLinkModes
            | PackagingError::StaticLinkingUnsupported
            | PackagingError::DynamicLinkingUnsupported
            | PackagingError::Collector(_)
            | PackagingError::UnhandledArchiveFormat(_) => ErrorKind::Configuration,
            PackagingError::Writer(_)
            | PackagingError::Unresolved(_)
            | PackagingError::MissingLinkedLibrary => ErrorKind::External,
            _ => ErrorKind::Integrity,
        }
    }
}

/// The text `a`, then `t`, then `b`.
fn between(a: &str, t: &str, b: &str) -> (r: String)
    ensures
        r@ == a@ + t@ + b@,
{
    String::from_str(a).concat(t).concat(b)
}

impl PackagingError {
    /// What the failure says.
    pub open spec fn message_text(self) -> Seq<char> {
        match self {
            PackagingError::InMemoryWithoutSharedLibrary(t) => "cannot add extension module "@ + t@ + " for in-memory loading because it lacks shared library data"@,
            PackagingError::RelativePathWithoutSharedLibrary(t) => "cannot add extension module "@ + t@ + " as path relative because it lacks a shared library"@,
            PackagingError::BuiltinWithoutObjectFiles(t) => "cannot add extension module "@ + t@ + " as builtin because it lacks object file data"@,
            PackagingError::NoSharedLibrary => "extension module instance has no shared library data"@,
            PackagingError::NoObjectFiles => "cannot load extension module from memory due to missing object files"@,
            PackagingError::InMemoryLoadingUnsupported => "loading extension modules from memory not supported by this build configuration"@,
            PackagingError::FileLoadingUnsupported => "loading extension modules from files not supported by this build configuration"@,
            PackagingError::InMemoryOnlyUnsupported(t) => "in-memory-only resources policy active but in-memory extension module importing not supported by this configuration: cannot load "@ + t@ + ""@,
            PackagingError::FilesystemOnlyUnsupported => "filesystem-relative-only policy active but file-based extension module loading not supported by this configuration"@,
            PackagingError::NoLoadingMechanism => "prefer-in-memory-fallback-filesystem-relative policy active but could not find a mechanism to add an extension module"@,
            PackagingError::NoLinkModes => "no link modes supported; please report this bug"@,
            PackagingError::StaticLinkingUnsupported => "Python distribution does not support statically linking libpython"@,
            PackagingError::DynamicLinkingUnsupported => "Python distribution does not support dynamically linking libpython"@,
            PackagingError::Collector(t) => ""@ + t@ + ""@,
            PackagingError::Writer(t) => ""@ + t@ + ""@,
            PackagingError::Unresolved(t) => ""@ + t@ + ""@,
            PackagingError::UnexpectedRootEntry(t) => "unexpected entry in distribution root directory: "@ + t@ + ""@,
            PackagingError::UnreadableRootEntry => "error listing root directory of Python distribution"@,
            PackagingError::UnexpectedPythonEntry(t) => "unexpected entry in python/ directory: "@ + t@ + ""@,
            PackagingError::UnreadablePythonEntry => "error listing python/ directory"@,
            PackagingError::MissingManifest => "PYTHON.json does not exist; are you using an up-to-date Python distribution that conforms with our requirements?"@,
            PackagingError::InvalidManifest(t) => ""@ + t@ + ""@,
            PackagingError::ManifestNotAnObject => "PYTHON.json does not parse to an object"@,
            PackagingError::MissingVersion => "version key not present in PYTHON.json"@,
            PackagingError::VersionNotAString => "unable to parse version as a string"@,
            PackagingError::UnsupportedVersion(t) => "expected version 5 standalone distribution; found version "@ + t@ + ""@,
            PackagingError::MissingSuffixes(t) => "distribution does not define "@ + t@ + " suffixes"@,
            PackagingError::MissingIncludePath => "include path not defined in distribution"@,
            PackagingError::MissingStdlibPath => "stdlib path not defined in distribution"@,
            PackagingError::ResourceInMemory => "should not have received in-memory resource data"@,
            PackagingError::SourceInMemory => "should not have received in-memory source data"@,
            PackagingError::UnhandledLinkMode(t) => "unhandled link mode: "@ + t@ + ""@,
            PackagingError::MissingSharedLibrary => "distribution is linked as a shared library and names none"@,
            PackagingError::NoVariants(t) => "distribution names no variant of extension module "@ + t@ + ""@,
            PackagingError::MissingLinkedLibrary => "the library of the interpreter was not built"@,
            PackagingError::MissingLicenses => "distribution names a license file and no licenses"@,
            PackagingError::MissingLicenseText(t) => "unable to read license file "@ + t@ + ""@,
            PackagingError::UnhandledArchiveFormat(t) => "unhandled distribution format: "@ + t@ + ""@,
            PackagingError::UncSitePackages => "unexpected Windows UNC path in site-packages"@,
            PackagingError::NoFileName => "unable to determine filename"@,
            PackagingError::NoParent => "unable to resolve parent"@,
            PackagingError::NotAbsolute => "path is not absolute"@,
            PackagingError::Dedot(t) => "dedotting path: "@ + t@ + ""@,
            PackagingError::MaliciousSymlink => "malicious symlink detected in archive"@,
        }
    }

    /// What the failure says.
    pub fn message(&self) -> (r: String)
        ensures
            r@ == self.message_text(),
    {
        match self {
            PackagingError::InMemoryWithoutSharedLibrary(t) => between("cannot add extension module ", t.as_str(), " for in-memory loading because it lacks shared library data"),
            PackagingError::RelativePathWithoutSharedLibrary(t) => between("cannot add extension module ", t.as_str(), " as path relative because it lacks a shared library"),
            PackagingError::BuiltinWithoutObjectFiles(t) => between("cannot add extension module ", t.as_str(), " as builtin because it lacks object file data"),
            PackagingError::NoSharedLibrary => String::from_str("extension module instance has no shared library data"),
            PackagingError::NoObjectFiles => String::from_str("cannot load extension module from memory due to missing object files"),
            PackagingError::InMemoryLoadingUnsupported => String::from_str("loading extension modules from memory not supported by this build configuration"),
            PackagingError::FileLoadingUnsupported => String::from_str("loading extension modules from files not supported by this build configuration"),
            PackagingError::InMemoryOnlyUnsupported(t) => between("in-memory-only resources policy active but in-memory extension module importing not supported by this configuration: cannot load ", t.as_str(), ""),
            PackagingError::FilesystemOnlyUnsupported => String::from_str("filesystem-relative-only policy active but file-based extension module loading not supported by this configuration"),
            PackagingError::NoLoadingMechanism => String::from_str("prefer-in-memory-fallback-filesystem-relative policy active but could not find a mechanism to add an extension module"),
            PackagingError::NoLinkModes => String::from_str("no link modes supported; please report this bug"),
            PackagingError::StaticLinkingUnsupported => String::from_str("Python distribution does not support statically linking libpython"),
            PackagingError::DynamicLinkingUnsupported => String::from_str("Python distribution does not support dynamically linking libpython"),
            PackagingError::Collector(t) => between("", t.as_str(), ""),
            PackagingError::Writer(t) => between("", t.as_str(), ""),
            PackagingError::Unresolved(t) => between("", t.as_str(), ""),
            PackagingError::UnexpectedRootEntry(t) => between("unexpected entry in distribution root directory: ", t.as_str(), ""),
            PackagingError::UnreadableRootEntry => String::from_str("error listing root directory of Python distribution"),
            PackagingError::UnexpectedPythonEntry(t) => between("unexpected entry in python/ directory: ", t.as_str(), ""),
            PackagingError::UnreadablePythonEntry => String::from_str("error listing python/ directory"),
            PackagingError::MissingManifest => String::from_str("PYTHON.json does not exist; are you using an up-to-date Python distribution that conforms with our requirements?"),
            PackagingError::InvalidManifest(t) => between("", t.as_str(), ""),
            PackagingError::ManifestNotAnObject => String::from_str("PYTHON.json does not parse to an object"),
            PackagingError::MissingVersion => String::from_str("version key not present in PYTHON.json"),
            PackagingError::VersionNotAString => String::from_str("unable to parse version as a string"),
            PackagingError::UnsupportedVersion(t) => between("expected version 5 standalone distribution; found version ", t.as_str(), ""),
            PackagingError::MissingSuffixes(t) => between("distribution does not define ", t.as_str(), " suffixes"),
            PackagingError::MissingIncludePath => String::from_str("include path not defined in distribution"),
            PackagingError::MissingStdlibPath => String::from_str("stdlib path not defined in distribution"),
            PackagingError::ResourceInMemory => String::from_str("should not have received in-memory resource data"),
            PackagingError::SourceInMemory => String::from_str("should not have received in-memory source data"),
            PackagingError::UnhandledLinkMode(t) => between("unhandled link mode: ", t.as_str(), ""),
            PackagingError::MissingSharedLibrary => String::from_str("distribution is linked as a shared library and names none"),
            PackagingError::NoVariants(t) => between("distribution names no variant of extension module ", t.as_str(), ""),
            PackagingError::MissingLinkedLibrary => String::from_str("the library of the interpreter was not built"),
            PackagingError::MissingLicenses => String::from_str("distribution names a license file and no licenses"),
            PackagingError::MissingLicenseText(t) => between("unable to read license file ", t.as_str(), ""),
            PackagingError::UnhandledArchiveFormat(t) => between("unhandled distribution format: ", t.as_str(), ""),
            PackagingError::UncSitePackages => String::from_str("unexpected Windows UNC path in site-packages"),
            PackagingError::NoFileName => String::from_str("unable to determine filename"),
            PackagingError::NoParent => String::from_str("unable to resolve parent"),
            PackagingError::NotAbsolute => String::from_str("path is not absolute"),
            PackagingError::Dedot(t) => between("dedotting path: ", t.as_str(), ""),
            PackagingError::MaliciousSymlink => String::from_str("malicious symlink detected in archive"),
        }
    }
}

} // verus!
