//! The manifest of a standalone distribution, `PYTHON.json`.

use crate::error::PackagingError;
use crate::name_map::NameMap;
use crate::paths::{file_name_of, joined_path, path_file_name, path_join};
use crate::resource::{
    text_of, DataLocation, DataLocationView, LibraryDependency, LibraryDependencyView,
};
use crate::text::str_eq;
use vstd::prelude::*;

verus! {

/// The `Value` of `serde_json`: a JSON document. What the library asks of
/// it is named below.
#[verifier::external_type_specification]
#[verifier::external_body]
pub struct ExJsonValue(serde_json::Value);

/// A library that a part of the distribution is linked against.
#[derive(Debug, Clone, PartialEq)]
pub struct LinkEntry {
    pub name: String,
    pub path_static: Option<String>,
    pub path_dynamic: Option<String>,
    pub framework: Option<bool>,
    pub system: Option<bool>,
}

/// What a `LinkEntry` stands for.
pub struct LinkEntryView {
    pub name: Seq<char>,
    pub path_static: Option<Seq<char>>,
    pub path_dynamic: Option<Seq<char>>,
    pub framework: Option<bool>,
    pub system: Option<bool>,
}

impl View for LinkEntry {
    type V = LinkEntryView;

    open spec fn view(&self) -> LinkEntryView {
        LinkEntryView {
            name: self.name@,
            path_static: text_of(self.path_static),
            path_dynamic: text_of(self.path_dynamic),
            framework: self.framework,
            system: self.system,
        }
    }
}

/// The file below `python_path` that a relative path of the manifest names.
pub open spec fn library_file(python_path: Seq<char>, relative: Option<Seq<char>>) -> Option<
    DataLocationView,
> {
    match relative {
        Some(p) => Some(DataLocationView::Path(joined_path(python_path, p))),
        None => None,
    }
}

/// The file name of a relative path of the manifest.
pub open spec fn library_file_name(relative: Option<Seq<char>>) -> Option<Seq<char>> {
    match relative {
        Some(p) => file_name_of(p),
        None => None,
    }
}

/// The library that an entry of the manifest describes: its files lie below
/// `python_path`, and it is a framework or a system library only where the
/// entry says so.
pub open spec fn library_of(entry: LinkEntryView, python_path: Seq<char>) -> LibraryDependencyView {
    LibraryDependencyView {
        name: entry.name,
        static_library: library_file(python_path, entry.path_static),
        static_filename: library_file_name(entry.path_static),
        dynamic_library: library_file(python_path, entry.path_dynamic),
        dynamic_filename: library_file_name(entry.path_dynamic),
        framework: entry.framework == Some(true),
        system: entry.system == Some(true),
    }
}

/// The file below `python_path` that a relative path names.
fn file_below(python_path: &str, relative: &Option<String>) -> (r: Option<DataLocation>)
    ensures
        crate::resource::view_of(r) == library_file(python_path@, text_of(*relative)),
{
    match relative {
        Some(p) => Some(DataLocation::Path(path_join(python_path, p.as_str()))),
        None => None,
    }
}

/// The file name of a relative path.
fn file_name_below(relative: &Option<String>) -> (r: Option<String>)
    ensures
        text_of(r) == library_file_name(text_of(*relative)),
{
    match relative {
        Some(p) => path_file_name(p.as_str()),
        None => None,
    }
}

impl LinkEntry {
    /// The library that the entry describes.
    pub fn to_library_dependency(&self, python_path: &str) -> (r: LibraryDependency)
        ensures
            r@ == library_of(self@, python_path@),
    {
        LibraryDependency {
            name: self.name.clone(),
            static_library: file_below(python_path, &self.path_static),
            static_filename: file_name_below(&self.path_static),
            dynamic_library: file_below(python_path, &self.path_dynamic),
            dynamic_filename: file_name_below(&self.path_dynamic),
            framework: match self.framework {
                Some(b) => b,
                None => false,
            },
            system: match self.system {
                Some(b) => b,
                None => false,
            },
        }
    }
}

/// How a variant of an extension module is built.
#[derive(Debug, Clone, PartialEq)]
pub struct PythonBuildExtensionInfo {
    pub in_core: bool,
    pub init_fn: String,
    pub licenses: Option<Vec<String>>,
    pub license_paths: Option<Vec<String>>,
    pub license_public_domain: Option<bool>,
    pub links: Vec<LinkEntry>,
    pub objs: Vec<String>,
    pub required: bool,
    pub static_lib: Option<String>,
    pub shared_lib: Option<String>,
    pub variant: String,
}

/// How the core of the interpreter is built.
#[derive(Debug, Clone, PartialEq)]
pub struct PythonBuildCoreInfo {
    pub objs: Vec<String>,
    pub links: Vec<LinkEntry>,
    pub shared_lib: Option<String>,
    pub static_lib: Option<String>,
}

/// How the distribution is built.
#[derive(Debug)]
pub struct PythonBuildInfo {
    pub core: PythonBuildCoreInfo,
    pub extensions: NameMap<Vec<PythonBuildExtensionInfo>>,
    pub inittab_object: String,
    pub inittab_source: String,
    pub inittab_cflags: Vec<String>,
    pub object_file_format: String,
}

/// The content of `PYTHON.json`.
#[derive(Debug)]
pub struct PythonJsonMain {
    pub version: String,
    pub target_triple: String,
    pub optimizations: String,
    pub python_tag: String,
    pub python_abi_tag: Option<String>,
    pub python_platform_tag: String,
    pub python_implementation_cache_tag: String,
    pub python_implementation_hex_version: u64,
    pub python_implementation_name: String,
    pub python_implementation_version: Vec<String>,
    pub python_version: String,
    pub python_major_minor_version: String,
    pub python_paths: NameMap<String>,
    pub python_exe: String,
    pub python_stdlib_test_packages: Vec<String>,
    pub python_suffixes: NameMap<Vec<String>>,
    pub python_bytecode_magic_number: String,
    pub python_symbol_visibility: String,
    pub python_extension_module_loading: Vec<String>,
    pub libpython_link_mode: String,
    pub crt_features: Vec<String>,
    pub run_tests: String,
    pub build_info: PythonBuildInfo,
    pub licenses: Option<Vec<String>>,
    pub license_path: Option<String>,
    pub tcl_library_path: Option<String>,
    pub tcl_library_paths: Option<Vec<String>>,
}

/// What a JSON document says of its version.
#[derive(Debug, Clone, PartialEq)]
pub enum VersionField {
    /// The document is no object.
    NotAnObject,
    /// The object has no member `version`.
    Missing,
    /// The member `version` is no string.
    NotAString,
    /// The member `version` is this string.
    Text(String),
}

/// Whether a manifest with this version field can be read: its version is
/// the string `5`.
pub fn check_version(field: &VersionField) -> (r: Result<(), PackagingError>)
    ensures
        match *field {
            VersionField::NotAnObject => r == Err::<(), PackagingError>(
                PackagingError::ManifestNotAnObject,
            ),
            VersionField::Missing => r == Err::<(), PackagingError>(PackagingError::MissingVersion),
            VersionField::NotAString => r == Err::<(), PackagingError>(
                PackagingError::VersionNotAString,
            ),
            VersionField::Text(v) => if v@ == "5"@ {
                r is Ok
            } else {
                r matches Err(PackagingError::UnsupportedVersion(found)) && found@ == v@
            },
        },
{
    match field {
        VersionField::NotAnObject => Err(PackagingError::ManifestNotAnObject),
        VersionField::Missing => Err(PackagingError::MissingVersion),
        VersionField::NotAString => Err(PackagingError::VersionNotAString),
        VersionField::Text(v) => {
            if str_eq(v.as_str(), "5") {
                Ok(())
            } else {
                Err(PackagingError::UnsupportedVersion(v.clone()))
            }
        },
    }
}

/// Whether `serde_json` takes the bytes for a JSON document.
pub uninterp spec fn json_valid(bytes: Seq<u8>) -> bool;

/// Whether the JSON document that `serde_json` makes of the bytes is an
/// object.
pub uninterp spec fn parsed_object(bytes: Seq<u8>) -> bool;

/// The members of the JSON document that `serde_json` makes of the bytes,
/// by name, each with its text if it is a string; no members if the document
/// is no object.
pub uninterp spec fn parsed_texts(bytes: Seq<u8>) -> Map<Seq<char>, Option<Seq<char>>>;

/// Whether a JSON value is an object.
pub uninterp spec fn json_object(value: serde_json::Value) -> bool;

/// The members of a JSON value, by name, each with its text if it is a
/// string; no members if the value is no object.
pub uninterp spec fn json_texts(value: serde_json::Value) -> Map<Seq<char>, Option<Seq<char>>>;

/// The text of a JSON value, if it is a string.
pub uninterp spec fn json_text(value: serde_json::Value) -> Option<Seq<char>>;

/// `serde_json::from_slice`, for a document of any form; a failure comes
/// back as its text.
#[verifier::external_body]
pub(crate) fn json_parse(buf: &[u8]) -> (r: Result<serde_json::Value, String>)
    ensures
        r is Ok == json_valid(buf@),
        r matches Ok(v) ==> json_object(v) == parsed_object(buf@),
        r matches Ok(v) ==> json_texts(v) == parsed_texts(buf@),
{
    serde_json::from_slice(buf).map_err(|e| e.to_string())
}

/// `Value::is_object` of `serde_json`.
#[verifier::external_body]
pub(crate) fn json_is_object(value: &serde_json::Value) -> (r: bool)
    ensures
        r == json_object(*value),
{
    value.is_object()
}

/// `Value::get` of `serde_json`, with the name of a member: the member of
/// that name, if the value is an object that has one.
#[verifier::external_body]
pub(crate) fn json_get<'a>(value: &'a serde_json::Value, name: &str) -> (r: Option<
    &'a serde_json::Value,
>)
    ensures
        r is Some == json_texts(*value).contains_key(name@),
        r matches Some(member) ==> json_text(*member) == json_texts(*value)[name@],
{
    value.get(name)
}

/// `Value::as_str` of `serde_json`: the text, if the value is a string.
#[verifier::external_body]
pub(crate) fn json_as_str(value: &serde_json::Value) -> (r: Option<String>)
    ensures
        text_of(r) == json_text(*value),
{
    value.as_str().map(|s| s.to_string())
}

/// What a JSON document, given as whether it is an object and as its
/// members, says of its version.
pub open spec fn version_field_of(
    object: bool,
    texts: Map<Seq<char>, Option<Seq<char>>>,
    field: VersionField,
) -> bool {
    if !object {
        field is NotAnObject
    } else if !texts.contains_key("version"@) {
        field is Missing
    } else {
        match texts["version"@] {
            None => field is NotAString,
            Some(text) => field matches VersionField::Text(t) && t@ == text,
        }
    }
}

/// What a JSON document says of its version.
pub fn version_field(value: &serde_json::Value) -> (r: VersionField)
    ensures
        version_field_of(json_object(*value), json_texts(*value), r),
{
    if !json_is_object(value) {
        return VersionField::NotAnObject;
    }
    match json_get(value, "version") {
        None => VersionField::Missing,
        Some(version) => match json_as_str(version) {
            None => VersionField::NotAString,
            Some(text) => VersionField::Text(text),
        },
    }
}

/// What the check of the bytes of a manifest gives: the bytes have to be a
/// JSON object whose member `version` is the string `5`.
pub open spec fn manifest_checked(r: Result<(), PackagingError>, bytes: Seq<u8>) -> bool {
    if !json_valid(bytes) {
        r matches Err(e) && e is InvalidManifest
    } else if !parsed_object(bytes) {
        r == Err::<(), PackagingError>(PackagingError::ManifestNotAnObject)
    } else if !parsed_texts(bytes).contains_key("version"@) {
        r == Err::<(), PackagingError>(PackagingError::MissingVersion)
    } else {
        match parsed_texts(bytes)["version"@] {
            None => r == Err::<(), PackagingError>(PackagingError::VersionNotAString),
            Some(text) => if text == "5"@ {
                r is Ok
            } else {
                r matches Err(PackagingError::UnsupportedVersion(found)) && found@ == text
            },
        }
    }
}

/// Checks the bytes of a manifest before they are read in full: that they
/// are a JSON object whose member `version` is the string `5`.
pub fn parse_python_json(buf: &[u8]) -> (r: Result<(), PackagingError>)
    ensures
        manifest_checked(r, buf@),
{
    match json_parse(buf) {
        Err(text) => Err(PackagingError::InvalidManifest(text)),
        Ok(value) => {
            let field = version_field(&value);
            check_version(&field)
        },
    }
}

/// The path of the manifest of the distribution at `dist_dir`.
pub fn parse_python_json_from_distribution(dist_dir: &str) -> (r: String)
    ensures
        r@ == joined_path(joined_path(dist_dir@, "python"@), "PYTHON.json"@),
{
    let python = path_join(dist_dir, "python");
    path_join(python.as_str(), "PYTHON.json")
}

} // verus!
