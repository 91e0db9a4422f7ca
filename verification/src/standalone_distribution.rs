//! Standalone Python distributions: what one holds, and where.

use crate::error::PackagingError;
use crate::name_map::NameMap;
use crate::paths::{file_name_of, joined_path, parent_path, path_file_name, path_join, path_parent};
use crate::policy::{PackagingPolicyView, PythonPackagingPolicy};
use crate::python_json::{library_of, LinkEntry, PythonBuildExtensionInfo, PythonJsonMain};
use crate::resource::{
    clone_text, kept, text_of, views, DataLocation, DataLocationView, LibpythonLinkMode,
    LibraryDependency, LicenseInfo, PythonExtensionModule, PythonModuleSource,
    PythonPackageResource, PythonResource,
};
use crate::text::{
    str_contains, str_eq, str_starts_with, strings_contain, text_contains, text_starts_with,
};
use vstd::prelude::*;
use vstd::string::{StringExecFns, StringSliceAdditionalSpecFns};
use vstd::utf8::{decode_utf8, encode_utf8, encode_utf8_decode_utf8, is_char_boundary};

verus! {

/// How the interpreter's library is linked in a standalone distribution.
#[derive(Clone, Copy, Debug, PartialEq, Eq, Structural)]
pub enum StandaloneDistributionLinkMode {
    Static,
    Dynamic,
}

/// Where the parts of a Python installation are.
#[derive(Debug, Clone, PartialEq)]
pub struct PythonPaths {
    pub prefix: String,
    pub bin_dir: String,
    pub python_exe: String,
    pub stdlib: String,
    pub site_packages: String,
    pub pyoxidizer_state_dir: String,
}

/// What a `PythonPaths` stands for.
pub struct PythonPathsView {
    pub prefix: Seq<char>,
    pub bin_dir: Seq<char>,
    pub python_exe: Seq<char>,
    pub stdlib: Seq<char>,
    pub site_packages: Seq<char>,
    pub pyoxidizer_state_dir: Seq<char>,
}

impl View for PythonPaths {
    type V = PythonPathsView;

    open spec fn view(&self) -> PythonPathsView {
        PythonPathsView {
            prefix: self.prefix@,
            bin_dir: self.bin_dir@,
            python_exe: self.python_exe@,
            stdlib: self.stdlib@,
            site_packages: self.site_packages@,
            pyoxidizer_state_dir: self.pyoxidizer_state_dir@,
        }
    }
}

/// What is found on disk below the base of a Python installation, and the
/// platform that the installation runs on.
#[derive(Debug, Clone, Copy, PartialEq, Eq)]
pub struct PythonPathProbe {
    /// Whether the platform is Windows.
    pub windows: bool,
    /// Whether the directory `Scripts` exists.
    pub scripts_dir_exists: bool,
    /// Whether the interpreter exists in `Scripts`.
    pub python_in_scripts: bool,
    /// Whether the interpreter exists in `bin`.
    pub python_in_bin: bool,
    /// Whether the directory of the standard library below `lib` exists.
    pub unix_lib_dir_exists: bool,
}

/// The file name of the interpreter.
pub open spec fn python_exe_basename(windows: bool) -> Seq<char> {
    if windows {
        "python.exe"@
    } else {
        "python3"@
    }
}

/// The file name of `pip`.
pub open spec fn pip_exe_basename(windows: bool) -> Seq<char> {
    if windows {
        "pip3.exe"@
    } else {
        "pip3"@
    }
}

/// The text of the first three bytes of a version: `3.7` of `3.7.6`.
pub open spec fn major_minor(version: Seq<char>) -> Seq<char> {
    decode_utf8(encode_utf8(version).subrange(0, 3))
}

/// Whether the first three bytes of a version are text by themselves.
pub open spec fn has_major_minor(version: Seq<char>) -> bool {
    is_char_boundary(encode_utf8(version), 3)
}

/// The directory of executables below `base`: `Scripts` where that exists
/// and on Windows, else `bin`.
pub open spec fn bin_dir_of(base: Seq<char>, probe: PythonPathProbe) -> Seq<char> {
    if probe.scripts_dir_exists || probe.windows {
        joined_path(base, "Scripts"@)
    } else {
        joined_path(base, "bin"@)
    }
}

/// The directory of the standard library below `lib`.
pub open spec fn unix_lib_dir_of(base: Seq<char>, python_version: Seq<char>) -> Seq<char> {
    joined_path(joined_path(base, "lib"@), "python"@ + major_minor(python_version))
}

/// The directory of the standard library: the one below `lib` where that
/// exists and wherever the platform is not Windows, else `Lib`.
pub open spec fn stdlib_of(
    base: Seq<char>,
    python_version: Seq<char>,
    probe: PythonPathProbe,
) -> Seq<char> {
    if probe.unix_lib_dir_exists || !probe.windows {
        unix_lib_dir_of(base, python_version)
    } else {
        joined_path(base, "Lib"@)
    }
}

/// Where the parts of the Python installation at `base` are.
pub open spec fn python_paths_of(
    base: Seq<char>,
    python_version: Seq<char>,
    probe: PythonPathProbe,
) -> PythonPathsView {
    let in_bin_dir = if probe.scripts_dir_exists || probe.windows {
        probe.python_in_scripts
    } else {
        probe.python_in_bin
    };
    PythonPathsView {
        prefix: base,
        bin_dir: bin_dir_of(base, probe),
        python_exe: if in_bin_dir {
            joined_path(bin_dir_of(base, probe), python_exe_basename(probe.windows))
        } else {
            joined_path(base, python_exe_basename(probe.windows))
        },
        stdlib: stdlib_of(base, python_version, probe),
        site_packages: joined_path(stdlib_of(base, python_version, probe), "site-packages"@),
        pyoxidizer_state_dir: joined_path(joined_path(base, "state"@), "pyoxidizer"@),
    }
}

/// The file name of the interpreter on the given platform.
pub fn python_exe_name(windows: bool) -> (r: &'static str)
    ensures
        r@ == python_exe_basename(windows),
{
    if windows {
        "python.exe"
    } else {
        "python3"
    }
}

/// The file name of `pip` on the given platform.
pub fn pip_exe_name(windows: bool) -> (r: &'static str)
    ensures
        r@ == pip_exe_basename(windows),
{
    if windows {
        "pip3.exe"
    } else {
        "pip3"
    }
}

/// The text of the first three bytes of a version.
pub fn python_major_minor_version(version: &str) -> (r: String)
    requires
        has_major_minor(version@),
    ensures
        r@ == major_minor(version@),
{
    let (head, _) = version.split_at(3);
    proof {
        encode_utf8_decode_utf8(head@);
    }
    head.to_owned()
}

/// Resolves where the parts of the Python installation at `base` are, from
/// what was found on disk below it.
pub fn resolve_python_paths(base: &str, python_version: &str, probe: &PythonPathProbe) -> (r:
    PythonPaths)
    requires
        has_major_minor(python_version@),
    ensures
        r@ == python_paths_of(base@, python_version@, *probe),
{
    let prefix = base.to_owned();
    let in_scripts = probe.scripts_dir_exists || probe.windows;
    let bin_dir = if in_scripts {
        path_join(base, "Scripts")
    } else {
        path_join(base, "bin")
    };
    let in_bin_dir = if in_scripts {
        probe.python_in_scripts
    } else {
        probe.python_in_bin
    };
    let exe = python_exe_name(probe.windows);
    let python_exe = if in_bin_dir {
        path_join(bin_dir.as_str(), exe)
    } else {
        path_join(base, exe)
    };
    let state = path_join(base, "state");
    let pyoxidizer_state_dir = path_join(state.as_str(), "pyoxidizer");
    let lib = path_join(base, "lib");
    let head = python_major_minor_version(python_version);
    let name = String::from_str("python").concat(head.as_str());
    let unix_lib_dir = path_join(lib.as_str(), name.as_str());
    let stdlib = if probe.unix_lib_dir_exists {
        unix_lib_dir
    } else if probe.windows {
        path_join(base, "Lib")
    } else {
        unix_lib_dir
    };
    let site_packages = path_join(stdlib.as_str(), "site-packages");
    PythonPaths { prefix, bin_dir, python_exe, stdlib, site_packages, pyoxidizer_state_dir }
}

/// Resolves where the parts of the Python installation at `base` are, where
/// the version is long enough to name the directory of the standard library.
pub fn try_resolve_python_paths(base: &str, python_version: &str, probe: &PythonPathProbe) -> (r:
    Option<PythonPaths>)
    ensures
        match r {
            Some(paths) => has_major_minor(python_version@) && paths@ == python_paths_of(
                base@,
                python_version@,
                *probe,
            ),
            None => !has_major_minor(python_version@),
        },
{
    if python_version.is_char_boundary(3) {
        Some(resolve_python_paths(base, python_version, probe))
    } else {
        None
    }
}

/// The path of the interpreter of the distribution at `dist_dir`, whose
/// manifest names the interpreter as `python_exe`.
pub fn python_exe_path(dist_dir: &str, python_exe: &str) -> (r: String)
    ensures
        r@ == joined_path(joined_path(dist_dir@, "python"@), python_exe@),
{
    let python = path_join(dist_dir, "python");
    path_join(python.as_str(), python_exe)
}

/// The file suffixes of the kinds of module file.
#[derive(Debug, Clone, PartialEq)]
pub struct PythonModuleSuffixes {
    pub source: Vec<String>,
    pub bytecode: Vec<String>,
    pub debug_bytecode: Vec<String>,
    pub optimized_bytecode: Vec<String>,
    pub extension: Vec<String>,
}

/// How the user wants the interpreter's library linked.
#[derive(Debug, Clone, Copy, PartialEq, Eq, Structural)]
pub enum BinaryLibpythonLinkMode {
    /// Whatever the distribution supports, statically where it can.
    Default,
    /// Statically.
    Static,
    /// Dynamically.
    Dynamic,
}

/// The ways in which the interpreter's library of a distribution can be
/// linked.
#[derive(Debug, Clone, Copy, PartialEq, Eq, Structural)]
pub struct LinkSupport {
    /// Whether it can be linked statically.
    pub supports_static: bool,
    /// Whether it can be linked dynamically.
    pub supports_dynamic: bool,
}

/// The ways in which the interpreter's library of a distribution for
/// `target_triple` can be linked. On Windows a distribution is linked the one
/// way that it was built for: dynamically if and only if it has a shared
/// library. With musl it is linked statically. Elsewhere either way works.
pub open spec fn link_support_of(target_triple: Seq<char>, has_shared_library: bool) -> LinkSupport {
    if text_contains(target_triple, "pc-windows"@) {
        LinkSupport { supports_static: !has_shared_library, supports_dynamic: has_shared_library }
    } else if text_contains(target_triple, "linux-musl"@) {
        LinkSupport { supports_static: true, supports_dynamic: false }
    } else {
        LinkSupport { supports_static: true, supports_dynamic: true }
    }
}

/// The way in which the interpreter's library is linked, given what the
/// distribution supports and what the user wants.
pub open spec fn link_mode_of(support: LinkSupport, wanted: BinaryLibpythonLinkMode) -> Result<
    LibpythonLinkMode,
    PackagingError,
> {
    match wanted {
        BinaryLibpythonLinkMode::Default => if support.supports_static {
            Ok(LibpythonLinkMode::Static)
        } else if support.supports_dynamic {
            Ok(LibpythonLinkMode::Dynamic)
        } else {
            Err(PackagingError::NoLinkModes)
        },
        BinaryLibpythonLinkMode::Static => if support.supports_static {
            Ok(LibpythonLinkMode::Static)
        } else {
            Err(PackagingError::StaticLinkingUnsupported)
        },
        BinaryLibpythonLinkMode::Dynamic => if support.supports_dynamic {
            Ok(LibpythonLinkMode::Dynamic)
        } else {
            Err(PackagingError::DynamicLinkingUnsupported)
        },
    }
}

/// Whether a binary for `target_triple` can load extension modules from
/// memory: on Windows, where the distribution exports its symbols and loads
/// extension modules from shared libraries at all.
pub open spec fn in_memory_loading_of(
    target_triple: Seq<char>,
    python_symbol_visibility: Seq<char>,
    extension_module_loading: Seq<Seq<char>>,
) -> bool {
    &&& text_contains(target_triple, "pc-windows"@)
    &&& python_symbol_visibility == "dllexport"@
    &&& extension_module_loading.contains("shared-library"@)
}

/// The ways in which the interpreter's library of a distribution for
/// `target_triple` can be linked.
pub fn link_support(target_triple: &str, has_shared_library: bool) -> (r: LinkSupport)
    ensures
        r == link_support_of(target_triple@, has_shared_library),
{
    if str_contains(target_triple, "pc-windows") {
        LinkSupport { supports_static: !has_shared_library, supports_dynamic: has_shared_library }
    } else if str_contains(target_triple, "linux-musl") {
        LinkSupport { supports_static: true, supports_dynamic: false }
    } else {
        LinkSupport { supports_static: true, supports_dynamic: true }
    }
}

/// The way in which the interpreter's library is linked.
pub fn resolve_link_mode(support: LinkSupport, wanted: BinaryLibpythonLinkMode) -> (r: Result<
    LibpythonLinkMode,
    PackagingError,
>)
    ensures
        r == link_mode_of(support, wanted),
{
    match wanted {
        BinaryLibpythonLinkMode::Default => {
            if support.supports_static {
                Ok(LibpythonLinkMode::Static)
            } else if support.supports_dynamic {
                Ok(LibpythonLinkMode::Dynamic)
            } else {
                Err(PackagingError::NoLinkModes)
            }
        },
        BinaryLibpythonLinkMode::Static => {
            if support.supports_static {
                Ok(LibpythonLinkMode::Static)
            } else {
                Err(PackagingError::StaticLinkingUnsupported)
            }
        },
        BinaryLibpythonLinkMode::Dynamic => {
            if support.supports_dynamic {
                Ok(LibpythonLinkMode::Dynamic)
            } else {
                Err(PackagingError::DynamicLinkingUnsupported)
            }
        },
    }
}

/// A standalone Python distribution: an interpreter with its standard
/// library and extension modules, described by a `PYTHON.json` file.
#[derive(Debug)]
pub struct StandaloneDistribution {
    /// Directory where the distribution lives.
    pub base_dir: String,
    /// Rust target triple that the distribution runs on.
    pub target_triple: String,
    /// PEP 425 Python tag.
    pub python_tag: String,
    /// PEP 425 Python ABI tag.
    pub python_abi_tag: Option<String>,
    /// PEP 425 Python platform tag.
    pub python_platform_tag: String,
    /// Python version string.
    pub version: String,
    /// Path of the interpreter.
    pub python_exe: String,
    /// Path of the standard library.
    pub stdlib_path: String,
    /// How the interpreter's library is linked in the distribution.
    pub link_mode: StandaloneDistributionLinkMode,
    /// Symbol visibility of the interpreter's symbols.
    pub python_symbol_visibility: String,
    /// The ways in which the distribution loads extension modules.
    pub extension_module_loading: Vec<String>,
    /// SPDX license shortnames of the core distribution.
    pub licenses: Option<Vec<String>>,
    /// Path of the file that holds the license of the distribution.
    pub license_path: Option<String>,
    /// Path of the Tcl library files.
    pub tcl_library_path: Option<String>,
    /// Object files of the interpreter: relative path to path.
    pub objs_core: NameMap<String>,
    /// What the interpreter is linked against.
    pub links_core: Vec<LibraryDependency>,
    /// Path of the interpreter's shared library, where the distribution is
    /// linked dynamically.
    pub libpython_shared_library: Option<String>,
    /// The extension modules of the distribution, each with its variants.
    pub extension_modules: NameMap<Vec<PythonExtensionModule>>,
    pub frozen_c: Vec<u8>,
    /// Include files: relative path to path.
    pub includes: NameMap<String>,
    /// Static libraries to link against: name to location.
    pub libraries: NameMap<DataLocation>,
    /// Source modules of the standard library: name to path.
    pub py_modules: NameMap<String>,
    /// Data files of the standard library: package, then file name, to path.
    pub resources: NameMap<NameMap<String>>,
    /// Licenses of the parts of the distribution.
    pub license_infos: NameMap<Vec<LicenseInfo>>,
    /// Path of the copy of the distribution that environments are made from.
    pub venv_base: String,
    /// Path of the object file that defines the table of built-in modules.
    pub inittab_object: String,
    /// Compiler flags to build that object file with.
    pub inittab_cflags: Vec<String>,
    /// Tag of bytecode files, as in `cpython-37`.
    pub cache_tag: String,
    /// The file suffixes of the kinds of module file.
    pub module_suffixes: PythonModuleSuffixes,
    /// The packages of the standard library that hold tests.
    pub stdlib_test_packages: Vec<String>,
}

impl StandaloneDistribution {
    /// Whether the distribution can load extension modules from files.
    pub open spec fn file_loadable(&self) -> bool {
        self.extension_module_loading@.map_values(|s: String| s@).contains("shared-library"@)
    }

    /// Whether the distribution can load extension modules from files.
    pub fn is_extension_module_file_loadable(&self) -> (r: bool)
        ensures
            r == self.file_loadable(),
    {
        strings_contain(&self.extension_module_loading, "shared-library")
    }

    /// Whether a binary for `target_triple` that is built from this
    /// distribution can load extension modules from memory.
    pub fn supports_in_memory_loading(&self, target_triple: &str) -> (r: bool)
        ensures
            r == in_memory_loading_of(
                target_triple@,
                self.python_symbol_visibility@,
                self.extension_module_loading@.map_values(|s: String| s@),
            ),
    {
        str_contains(target_triple, "pc-windows") && str_eq(
            self.python_symbol_visibility.as_str(),
            "dllexport",
        ) && strings_contain(&self.extension_module_loading, "shared-library")
    }

    /// The way in which the interpreter's library of a binary is linked.
    pub fn libpython_link_mode(&self, wanted: BinaryLibpythonLinkMode) -> (r: Result<
        LibpythonLinkMode,
        PackagingError,
    >)
        ensures
            r == link_mode_of(
                link_support_of(self.target_triple@, self.libpython_shared_library is Some),
                wanted,
            ),
    {
        let support = link_support(
            self.target_triple.as_str(),
            self.libpython_shared_library.is_some(),
        );
        resolve_link_mode(support, wanted)
    }

    /// The path of the interpreter.
    pub fn python_exe_path(&self) -> (r: &str)
        ensures
            r@ == self.python_exe@,
    {
        self.python_exe.as_str()
    }

    /// The tag of bytecode files.
    pub fn cache_tag(&self) -> (r: &str)
        ensures
            r@ == self.cache_tag@,
    {
        self.cache_tag.as_str()
    }
}

/// The texts of entries of a directory; an entry whose name is no text has
/// none.
pub open spec fn entry_texts(entries: Seq<Option<String>>) -> Seq<Option<Seq<char>>> {
    entries.map_values(|e: Option<String>| text_of(e))
}

/// Whether an entry of a directory is one of the expected names.
pub open spec fn entry_expected(entry: Option<Seq<char>>, expected: Seq<Seq<char>>) -> bool {
    entry matches Some(name) && expected.contains(name)
}

/// The position of the first entry that is not expected, or the number of
/// entries where all are.
pub open spec fn first_unexpected(entries: Seq<Option<Seq<char>>>, expected: Seq<Seq<char>>) -> int
    decreases entries.len(),
{
    if entries.len() == 0 {
        0
    } else if !entry_expected(entries[0], expected) {
        0
    } else {
        1 + first_unexpected(entries.drop_first(), expected)
    }
}

/// A position before which all entries are expected, and at which the entry
/// is not or the entries end, is the one that `first_unexpected` gives.
pub proof fn lemma_first_unexpected_is(
    entries: Seq<Option<Seq<char>>>,
    expected: Seq<Seq<char>>,
    k: int,
)
    requires
        0 <= k <= entries.len(),
        forall|i: int| 0 <= i < k ==> entry_expected(#[trigger] entries[i], expected),
        k < entries.len() ==> !entry_expected(entries[k], expected),
    ensures
        first_unexpected(entries, expected) == k,
    decreases entries.len(),
{
    if entries.len() > 0 && k > 0 {
        let rest = entries.drop_first();
        assert(entry_expected(entries[0], expected));
        assert forall|i: int| 0 <= i < k - 1 implies entry_expected(
            #[trigger] rest[i],
            expected,
        ) by {
            assert(rest[i] == entries[i + 1]);
        }
        if k - 1 < rest.len() {
            assert(rest[k - 1] == entries[k]);
        }
        lemma_first_unexpected_is(rest, expected, k - 1);
    }
}

/// The first entry of a directory that is not one of the expected names, if
/// there is one.
pub fn find_unexpected_entry<'a>(entries: &'a Vec<Option<String>>, expected: &Vec<String>) -> (r:
    Option<&'a Option<String>>)
    ensures
        ({
            let texts = entry_texts(entries@);
            let names = expected@.map_values(|s: String| s@);
            let k = first_unexpected(texts, names);
            match r {
                None => k == texts.len(),
                Some(e) => k < texts.len() && text_of(*e) == texts[k],
            }
        }),
{
    let ghost texts = entry_texts(entries@);
    let ghost names = expected@.map_values(|s: String| s@);
    let mut i: usize = 0;
    while i < entries.len()
        invariant
            i <= entries.len(),
            texts == entry_texts(entries@),
            names == expected@.map_values(|s: String| s@),
            forall|j: int| 0 <= j < i ==> entry_expected(#[trigger] texts[j], names),
        decreases entries.len() - i,
    {
        let fine = match &entries[i] {
            Some(name) => strings_contain(expected, name.as_str()),
            None => false,
        };
        if !fine {
            proof {
                assert(texts[i as int] == text_of(entries@[i as int]));
                lemma_first_unexpected_is(texts, names, i as int);
            }
            return Some(&entries[i]);
        }
        assert(texts[i as int] == text_of(entries@[i as int]));
        i += 1;
    }
    proof {
        lemma_first_unexpected_is(texts, names, i as int);
    }
    None
}

/// The names that the root of a distribution may hold.
pub open spec fn root_names() -> Seq<Seq<char>> {
    seq!["python"@]
}

/// The names that the directory `python` of a distribution may hold.
pub open spec fn python_names() -> Seq<Seq<char>> {
    seq!["build"@, "install"@, "lib"@, "licenses"@, "LICENSE.rst"@, "PYTHON.json"@]
}

/// What the check of the entries of a directory gives: no failure where all
/// entries are expected, else the failure for the first that is not.
pub open spec fn entries_checked(
    r: Result<(), PackagingError>,
    entries: Seq<Option<Seq<char>>>,
    expected: Seq<Seq<char>>,
    root: bool,
) -> bool {
    let k = first_unexpected(entries, expected);
    if k == entries.len() {
        r is Ok
    } else {
        match entries[k] {
            Some(name) => if root {
                r matches Err(PackagingError::UnexpectedRootEntry(n)) && n@ == name
            } else {
                r matches Err(PackagingError::UnexpectedPythonEntry(n)) && n@ == name
            },
            None => if root {
                r == Err::<(), PackagingError>(PackagingError::UnreadableRootEntry)
            } else {
                r == Err::<(), PackagingError>(PackagingError::UnreadablePythonEntry)
            },
        }
    }
}

/// Checks that the root of a distribution holds nothing but `python`.
pub fn check_root_entries(entries: &Vec<Option<String>>) -> (r: Result<(), PackagingError>)
    ensures
        entries_checked(r, entry_texts(entries@), root_names(), true),
{
    let mut expected: Vec<String> = Vec::new();
    expected.push(String::from_str("python"));
    assert(expected@.map_values(|s: String| s@) =~= root_names());
    match find_unexpected_entry(entries, &expected) {
        None => Ok(()),
        Some(Some(name)) => Err(PackagingError::UnexpectedRootEntry(name.clone())),
        Some(None) => Err(PackagingError::UnreadableRootEntry),
    }
}

/// Checks that the directory `python` of a distribution holds nothing but
/// what a distribution has there.
pub fn check_python_entries(entries: &Vec<Option<String>>) -> (r: Result<(), PackagingError>)
    ensures
        entries_checked(r, entry_texts(entries@), python_names(), false),
{
    let mut expected: Vec<String> = Vec::new();
    expected.push(String::from_str("build"));
    expected.push(String::from_str("install"));
    expected.push(String::from_str("lib"));
    expected.push(String::from_str("licenses"));
    expected.push(String::from_str("LICENSE.rst"));
    expected.push(String::from_str("PYTHON.json"));
    assert(expected@.map_values(|s: String| s@) =~= python_names());
    match find_unexpected_entry(entries, &expected) {
        None => Ok(()),
        Some(Some(name)) => Err(PackagingError::UnexpectedPythonEntry(name.clone())),
        Some(None) => Err(PackagingError::UnreadablePythonEntry),
    }
}

/// How the interpreter's library of a distribution is linked, and where its
/// shared library is: statically where the manifest says `static`; as the
/// shared library that it names, below `python_path`, where it says `shared`.
pub open spec fn libpython_resolved(
    r: Result<(StandaloneDistributionLinkMode, Option<String>), PackagingError>,
    link_mode: Seq<char>,
    shared_lib: Option<Seq<char>>,
    python_path: Seq<char>,
) -> bool {
    if link_mode == "static"@ {
        r matches Ok((StandaloneDistributionLinkMode::Static, None))
    } else if link_mode == "shared"@ {
        match shared_lib {
            Some(lib) => r matches Ok((StandaloneDistributionLinkMode::Dynamic, Some(path)))
                && path@ == joined_path(python_path, lib),
            None => r == Err::<
                (StandaloneDistributionLinkMode, Option<String>),
                PackagingError,
            >(PackagingError::MissingSharedLibrary),
        }
    } else {
        r matches Err(PackagingError::UnhandledLinkMode(m)) && m@ == link_mode
    }
}

/// How the interpreter's library of a distribution is linked, and where its
/// shared library is.
pub fn resolve_libpython(link_mode: &str, shared_lib: &Option<String>, python_path: &str) -> (r:
    Result<(StandaloneDistributionLinkMode, Option<String>), PackagingError>)
    ensures
        libpython_resolved(r, link_mode@, text_of(*shared_lib), python_path@),
{
    if str_eq(link_mode, "static") {
        Ok((StandaloneDistributionLinkMode::Static, None))
    } else if str_eq(link_mode, "shared") {
        match shared_lib {
            Some(lib) => Ok(
                (StandaloneDistributionLinkMode::Dynamic, Some(path_join(python_path, lib.as_str()))),
            ),
            None => Err(PackagingError::MissingSharedLibrary),
        }
    } else {
        Err(PackagingError::UnhandledLinkMode(link_mode.to_owned()))
    }
}

/// The suffixes of one kind in a manifest.
pub open spec fn suffixes_of(suffixes: Map<Seq<char>, Vec<String>>, kind: Seq<char>) -> Seq<
    Seq<char>,
> {
    suffixes[kind]@.map_values(|s: String| s@)
}

/// What reading the suffixes of a manifest gives: the failure for the first
/// kind, of source, bytecode, debug bytecode, optimized bytecode and
/// extension, that the manifest lacks; else the suffixes of each kind.
pub open spec fn suffixes_resolved(
    r: Result<PythonModuleSuffixes, PackagingError>,
    suffixes: Map<Seq<char>, Vec<String>>,
) -> bool {
    let missing = |kind: Seq<char>|
        r matches Err(PackagingError::MissingSuffixes(k)) && k@ == kind;
    if !suffixes.contains_key("source"@) {
        missing("source"@)
    } else if !suffixes.contains_key("bytecode"@) {
        missing("bytecode"@)
    } else if !suffixes.contains_key("debug_bytecode"@) {
        missing("debug_bytecode"@)
    } else if !suffixes.contains_key("optimized_bytecode"@) {
        missing("optimized_bytecode"@)
    } else if !suffixes.contains_key("extension"@) {
        missing("extension"@)
    } else {
        r matches Ok(found) && {
            &&& found.source@.map_values(|s: String| s@) == suffixes_of(suffixes, "source"@)
            &&& found.bytecode@.map_values(|s: String| s@) == suffixes_of(suffixes, "bytecode"@)
            &&& found.debug_bytecode@.map_values(|s: String| s@) == suffixes_of(
                suffixes,
                "debug_bytecode"@,
            )
            &&& found.optimized_bytecode@.map_values(|s: String| s@) == suffixes_of(
                suffixes,
                "optimized_bytecode"@,
            )
            &&& found.extension@.map_values(|s: String| s@) == suffixes_of(
                suffixes,
                "extension"@,
            )
        }
    }
}

/// The suffixes of one kind, or the failure that says which kind is missing.
fn suffixes_for(suffixes: &NameMap<Vec<String>>, kind: &str) -> (r: Result<
    Vec<String>,
    PackagingError,
>)
    ensures
        match r {
            Ok(v) => suffixes@.contains_key(kind@) && v@.map_values(|s: String| s@) == suffixes_of(
                suffixes@,
                kind@,
            ),
            Err(e) => !suffixes@.contains_key(kind@) && (e matches PackagingError::MissingSuffixes(
                k,
            ) && k@ == kind@),
        },
{
    match suffixes.get(kind) {
        Some(v) => {
            let copy = v.clone();
            assert(copy@.map_values(|s: String| s@) =~= v@.map_values(|s: String| s@));
            Ok(copy)
        },
        None => Err(PackagingError::MissingSuffixes(kind.to_owned())),
    }
}

/// The file suffixes of the kinds of module file that a manifest names.
pub fn resolve_module_suffixes(suffixes: &NameMap<Vec<String>>) -> (r: Result<
    PythonModuleSuffixes,
    PackagingError,
>)
    ensures
        suffixes_resolved(r, suffixes@),
{
    let source = match suffixes_for(suffixes, "source") {
        Ok(v) => v,
        Err(e) => {
            return Err(e);
        },
    };
    let bytecode = match suffixes_for(suffixes, "bytecode") {
        Ok(v) => v,
        Err(e) => {
            return Err(e);
        },
    };
    let debug_bytecode = match suffixes_for(suffixes, "debug_bytecode") {
        Ok(v) => v,
        Err(e) => {
            return Err(e);
        },
    };
    let optimized_bytecode = match suffixes_for(suffixes, "optimized_bytecode") {
        Ok(v) => v,
        Err(e) => {
            return Err(e);
        },
    };
    let extension = match suffixes_for(suffixes, "extension") {
        Ok(v) => v,
        Err(e) => {
            return Err(e);
        },
    };
    Ok(PythonModuleSuffixes { source, bytecode, debug_bytecode, optimized_bytecode, extension })
}

/// The libraries that entries of a manifest describe.
pub open spec fn libraries_of(links: Seq<LinkEntry>, python_path: Seq<char>) -> Seq<
    crate::resource::LibraryDependencyView,
> {
    links.map_values(|l: LinkEntry| library_of(l@, python_path))
}

/// The static libraries known after the libraries of `links` were seen, in
/// their order: each that has a static form is known by its name, a later
/// one in place of an earlier one of the same name.
pub open spec fn static_libraries_with(
    known: Map<Seq<char>, DataLocationView>,
    links: Seq<crate::resource::LibraryDependencyView>,
) -> Map<Seq<char>, DataLocationView>
    decreases links.len(),
{
    if links.len() == 0 {
        known
    } else {
        let before = static_libraries_with(known, links.drop_last());
        match links.last().static_library {
            Some(location) => before.insert(links.last().name, location),
            None => before,
        }
    }
}

/// The libraries that the entries `links` of a manifest describe; those with
/// a static form are made known in `libraries`.
pub fn resolve_links(
    links: &Vec<LinkEntry>,
    python_path: &str,
    libraries: &mut NameMap<DataLocation>,
) -> (r: Vec<LibraryDependency>)
    ensures
        views(r@) == libraries_of(links@, python_path@),
        final(libraries)@.map_values(|d: DataLocation| d@) == static_libraries_with(
            old(libraries)@.map_values(|d: DataLocation| d@),
            libraries_of(links@, python_path@),
        ),
{
    let ghost all = libraries_of(links@, python_path@);
    let ghost known = libraries@.map_values(|d: DataLocation| d@);
    let mut out: Vec<LibraryDependency> = Vec::new();
    let mut i: usize = 0;
    assert(views(out@) =~= all.take(0));
    while i < links.len()
        invariant
            i <= links.len(),
            all == libraries_of(links@, python_path@),
            views(out@) == all.take(i as int),
            libraries@.map_values(|d: DataLocation| d@) == static_libraries_with(
                known,
                all.take(i as int),
            ),
        decreases links.len() - i,
    {
        let depends = links[i].to_library_dependency(python_path);
        let ghost had = out@;
        let ghost before = libraries@.map_values(|d: DataLocation| d@);
        proof {
            assert(all[i as int] == depends@);
            assert(all.take(i + 1).drop_last() =~= all.take(i as int));
            assert(all.take(i + 1).last() == depends@);
        }
        match &depends.static_library {
            Some(p) => {
                let location = p.clone();
                libraries.insert(depends.name.clone(), location);
                assert(libraries@.map_values(|d: DataLocation| d@) =~= before.insert(
                    depends@.name,
                    location@,
                ));
            },
            None => {},
        }
        out.push(depends);
        i += 1;
        assert(views(out@) =~= views(had).push(depends@));
        assert(views(out@) =~= all.take(i as int));
    }
    assert(all.take(i as int) =~= all);
    out
}

/// What scanning the standard library of a distribution finds.
#[derive(Debug, Clone, PartialEq)]
pub enum ScannedResource {
    /// A data file of a package.
    Resource(PythonPackageResource),
    /// The source of a module.
    ModuleSource(PythonModuleSource),
    /// Anything else.
    Other,
}

/// What was found on disk of a distribution, beside its manifest.
#[derive(Debug)]
pub struct DistributionFiles {
    /// The names of the entries of the root; none where a name is no text.
    pub root_entries: Vec<Option<String>>,
    /// The names of the entries of the directory `python`.
    pub python_entries: Vec<Option<String>>,
    /// The texts of the license files that the manifest names, by path.
    pub license_texts: NameMap<String>,
    /// The include files: for each, its path below the include directory and
    /// its path.
    pub include_files: Vec<(String, String)>,
    /// What scanning the standard library found.
    pub stdlib_resources: Vec<ScannedResource>,
}

/// The paths of the license files that a variant of an extension module
/// names, below `python_path`.
pub open spec fn variant_license_paths(
    entry: PythonBuildExtensionInfo,
    python_path: Seq<char>,
) -> Seq<Seq<char>> {
    match entry.license_paths {
        Some(paths) => paths@.map_values(|p: String| joined_path(python_path, p@)),
        None => Seq::empty(),
    }
}

/// The paths of the license files that variants name, in their order.
pub open spec fn variants_license_paths(
    entries: Seq<PythonBuildExtensionInfo>,
    python_path: Seq<char>,
) -> Seq<Seq<char>>
    decreases entries.len(),
{
    if entries.len() == 0 {
        Seq::empty()
    } else {
        variants_license_paths(entries.drop_last(), python_path) + variant_license_paths(
            entries.last(),
            python_path,
        )
    }
}

/// The paths of the license files that the variants of extension modules
/// name, in the order of the modules.
pub open spec fn modules_license_paths(
    modules: Seq<(Seq<char>, Vec<PythonBuildExtensionInfo>)>,
    python_path: Seq<char>,
) -> Seq<Seq<char>>
    decreases modules.len(),
{
    if modules.len() == 0 {
        Seq::empty()
    } else {
        modules_license_paths(modules.drop_last(), python_path) + variants_license_paths(
            modules.last().1@,
            python_path,
        )
    }
}

/// The paths of the license files that a manifest names, all below
/// `python_path`: that of the interpreter first, then those of the variants
/// of the extension modules, in increasing order of the modules' names.
pub open spec fn license_paths_of(pi: PythonJsonMain, python_path: Seq<char>) -> Seq<Seq<char>> {
    (match pi.license_path {
        Some(p) => seq![joined_path(python_path, p@)],
        None => Seq::empty(),
    }) + modules_license_paths(pi.build_info.extensions.entries(), python_path)
}

/// The paths of the license files that a manifest names, all below
/// `python_path`. These are the files whose texts a distribution is made
/// with.
pub fn license_paths(pi: &PythonJsonMain, python_path: &str) -> (r: Vec<String>)
    ensures
        r@.map_values(|s: String| s@) == license_paths_of(*pi, python_path@),
{
    let mut out: Vec<String> = Vec::new();
    match &pi.license_path {
        Some(p) => {
            out.push(path_join(python_path, p.as_str()));
        },
        None => {},
    }
    let ghost core = out@.map_values(|s: String| s@);
    let modules = pi.build_info.extensions.items();
    let ghost entries = pi.build_info.extensions.entries();
    let mut i: usize = 0;
    assert(out@.map_values(|s: String| s@) =~= core + modules_license_paths(
        entries.take(0),
        python_path@,
    ));
    while i < modules.len()
        invariant
            i <= modules.len(),
            crate::name_map::entries_of(modules@) == entries,
            out@.map_values(|s: String| s@) == core + modules_license_paths(
                entries.take(i as int),
                python_path@,
            ),
        decreases modules.len() - i,
    {
        let variants = &modules[i].1;
        let ghost start = out@.map_values(|s: String| s@);
        proof {
            assert(entries[i as int] == (modules@[i as int].0@, *variants));
            assert(entries.take(i + 1).drop_last() =~= entries.take(i as int));
            assert(entries.take(i + 1).last() == entries[i as int]);
        }
        let mut j: usize = 0;
        assert(out@.map_values(|s: String| s@) =~= start + variants_license_paths(
            variants@.take(0),
            python_path@,
        ));
        while j < variants.len()
            invariant
                j <= variants.len(),
                out@.map_values(|s: String| s@) == start + variants_license_paths(
                    variants@.take(j as int),
                    python_path@,
                ),
            decreases variants.len() - j,
        {
            let ghost begun = out@.map_values(|s: String| s@);
            let ghost wanted = variant_license_paths(variants@[j as int], python_path@);
            proof {
                assert(variants@.take(j + 1).drop_last() =~= variants@.take(j as int));
                assert(variants@.take(j + 1).last() == variants@[j as int]);
            }
            match &variants[j].license_paths {
                Some(paths) => {
                    let mut k: usize = 0;
                    assert(out@.map_values(|s: String| s@) =~= begun + wanted.take(0));
                    while k < paths.len()
                        invariant
                            k <= paths.len(),
                            wanted == paths@.map_values(
                                |p: String| joined_path(python_path@, p@),
                            ),
                            out@.map_values(|s: String| s@) == begun + wanted.take(k as int),
                        decreases paths.len() - k,
                    {
                        let ghost had = out@.map_values(|s: String| s@);
                        let path = path_join(python_path, paths[k].as_str());
                        out.push(path);
                        k += 1;
                        proof {
                            assert(out@.map_values(|s: String| s@) =~= had.push(path@));
                            assert(wanted[k - 1] == path@);
                            assert(out@.map_values(|s: String| s@) =~= begun + wanted.take(
                                k as int,
                            ));
                        }
                    }
                    assert(wanted.take(k as int) =~= wanted);
                },
                None => {
                    assert(out@.map_values(|s: String| s@) =~= begun + wanted);
                },
            }
            j += 1;
            assert(out@.map_values(|s: String| s@) =~= start + variants_license_paths(
                variants@.take(j as int),
                python_path@,
            ));
        }
        assert(variants@.take(j as int) =~= variants@);
        i += 1;
        assert(out@.map_values(|s: String| s@) =~= core + modules_license_paths(
            entries.take(i as int),
            python_path@,
        ));
    }
    assert(entries.take(i as int) =~= entries);
    out
}

/// What a variant of an extension module is, as the manifest describes it:
/// a module of the standard library that is no package, with its files below
/// `python_path`.
pub open spec fn extension_module_described(
    name: Seq<char>,
    entry: PythonBuildExtensionInfo,
    python_path: Seq<char>,
    licenses: Option<Seq<crate::resource::LicenseInfoView>>,
) -> crate::resource::ExtensionModuleView {
    crate::resource::ExtensionModuleView {
        name,
        init_fn: Some(entry.init_fn@),
        extension_file_suffix: Seq::empty(),
        shared_library: crate::python_json::library_file(python_path, text_of(entry.shared_lib)),
        object_file_data: entry.objs@.map_values(
            |p: String| DataLocationView::Path(joined_path(python_path, p@)),
        ),
        is_package: false,
        link_libraries: libraries_of(entry.links@, python_path),
        is_stdlib: true,
        builtin_default: entry.in_core,
        required: entry.required,
        variant: Some(entry.variant@),
        licenses,
        license_public_domain: entry.license_public_domain,
    }
}

/// The licenses of a variant of an extension module: none where it names no
/// license files; else one for each file that it names, with the licenses of
/// the variant, the name of the file and its text.
pub open spec fn licenses_resolved(
    r: Result<Option<Vec<LicenseInfo>>, PackagingError>,
    entry: PythonBuildExtensionInfo,
    python_path: Seq<char>,
    texts: Map<Seq<char>, String>,
) -> bool {
    match entry.license_paths {
        None => r matches Ok(None),
        Some(paths) => match r {
            Ok(None) => false,
            Ok(Some(infos)) => {
                &&& entry.licenses is Some
                &&& infos.len() == paths.len()
                &&& forall|i: int|
                    0 <= i < paths.len() ==> {
                        let path = joined_path(python_path, (#[trigger] paths[i])@);
                        &&& texts.contains_key(path)
                        &&& file_name_of(path) is Some
                        &&& infos[i]@ == (crate::resource::LicenseInfoView {
                            licenses: entry.licenses->0@.map_values(|s: String| s@),
                            license_filename: file_name_of(path)->0,
                            license_text: texts[path]@,
                        })
                    }
            },
            Err(e) => {
                ||| e is MissingLicenses && entry.licenses is None
                ||| exists|i: int|
                    0 <= i < paths.len() && {
                        let path = joined_path(python_path, (#[trigger] paths[i])@);
                        ||| !texts.contains_key(path) && (e matches PackagingError::MissingLicenseText(
                            p,
                        ) && p@ == path)
                        ||| file_name_of(path) is None && e is NoFileName
                    }
            },
        },
    }
}

/// The licenses of a variant of an extension module.
pub fn resolve_licenses(
    entry: &PythonBuildExtensionInfo,
    python_path: &str,
    texts: &NameMap<String>,
) -> (r: Result<Option<Vec<LicenseInfo>>, PackagingError>)
    ensures
        licenses_resolved(r, *entry, python_path@, texts@),
{
    let paths = match &entry.license_paths {
        None => {
            return Ok(None);
        },
        Some(paths) => paths,
    };
    let licenses = match &entry.licenses {
        None => {
            return Err(PackagingError::MissingLicenses);
        },
        Some(licenses) => licenses,
    };
    let mut infos: Vec<LicenseInfo> = Vec::new();
    let mut i: usize = 0;
    while i < paths.len()
        invariant
            i <= paths.len(),
            infos.len() == i,
            entry.license_paths == Some(*paths),
            entry.licenses == Some(*licenses),
            forall|k: int|
                0 <= k < i ==> {
                    let path = joined_path(python_path@, (#[trigger] paths[k])@);
                    &&& texts@.contains_key(path)
                    &&& file_name_of(path) is Some
                    &&& infos[k]@ == (crate::resource::LicenseInfoView {
                        licenses: licenses@.map_values(|s: String| s@),
                        license_filename: file_name_of(path)->0,
                        license_text: texts@[path]@,
                    })
                },
        decreases paths.len() - i,
    {
        let path = path_join(python_path, paths[i].as_str());
        let text = match texts.get(path.as_str()) {
            Some(text) => text.clone(),
            None => {
                return Err(PackagingError::MissingLicenseText(path));
            },
        };
        let name = match path_file_name(path.as_str()) {
            Some(name) => name,
            None => {
                return Err(PackagingError::NoFileName);
            },
        };
        let copy = licenses.clone();
        assert(copy@.map_values(|s: String| s@) =~= licenses@.map_values(|s: String| s@));
        infos.push(LicenseInfo { licenses: copy, license_filename: name, license_text: text });
        i += 1;
    }
    Ok(Some(infos))
}

/// The views of licenses that may be absent.
pub open spec fn license_views(o: Option<Vec<LicenseInfo>>) -> Option<
    Seq<crate::resource::LicenseInfoView>,
> {
    match o {
        Some(l) => Some(views(l@)),
        None => None,
    }
}

/// The variant of the extension module `name` that an entry of the manifest
/// describes; its libraries that have a static form are made known in
/// `libraries`.
pub fn resolve_extension_module(
    name: &str,
    entry: &PythonBuildExtensionInfo,
    python_path: &str,
    licenses: Option<Vec<LicenseInfo>>,
    libraries: &mut NameMap<DataLocation>,
) -> (r: PythonExtensionModule)
    ensures
        r@ == extension_module_described(name@, *entry, python_path@, license_views(licenses)),
        final(libraries)@.map_values(|d: DataLocation| d@) == static_libraries_with(
            old(libraries)@.map_values(|d: DataLocation| d@),
            libraries_of(entry.links@, python_path@),
        ),
{
    let mut object_file_data: Vec<DataLocation> = Vec::new();
    let ghost want = entry.objs@.map_values(
        |p: String| DataLocationView::Path(joined_path(python_path@, p@)),
    );
    let mut i: usize = 0;
    assert(views(object_file_data@) =~= want.take(0));
    while i < entry.objs.len()
        invariant
            i <= entry.objs.len(),
            want == entry.objs@.map_values(
                |p: String| DataLocationView::Path(joined_path(python_path@, p@)),
            ),
            views(object_file_data@) == want.take(i as int),
        decreases entry.objs.len() - i,
    {
        let ghost had = object_file_data@;
        let location = DataLocation::Path(path_join(python_path, entry.objs[i].as_str()));
        object_file_data.push(location);
        i += 1;
        assert(views(object_file_data@) =~= views(had).push(location@));
        assert(views(object_file_data@) =~= want.take(i as int));
    }
    assert(want.take(i as int) =~= want);
    let link_libraries = resolve_links(&entry.links, python_path, libraries);
    let shared_library = match &entry.shared_lib {
        Some(path) => Some(DataLocation::Path(path_join(python_path, path.as_str()))),
        None => None,
    };
    PythonExtensionModule {
        name: name.to_owned(),
        init_fn: Some(entry.init_fn.clone()),
        extension_file_suffix: String::new(),
        shared_library,
        object_file_data,
        is_package: false,
        link_libraries,
        is_stdlib: true,
        builtin_default: entry.in_core,
        required: entry.required,
        variant: Some(entry.variant.clone()),
        licenses,
        license_public_domain: entry.license_public_domain,
    }
}

/// Whether the module or package `name` belongs to the package `package`:
/// it is that package or lies below it.
pub open spec fn within_package(name: Seq<char>, package: Seq<char>) -> bool {
    name == package || text_starts_with(name, package + "."@)
}

/// Whether `name` belongs to one of `packages`.
pub open spec fn within_packages(name: Seq<char>, packages: Seq<Seq<char>>) -> bool {
    exists|i: int| 0 <= i < packages.len() && within_package(name, #[trigger] packages[i])
}

/// Whether the module or package `name` belongs to one of `packages`.
pub fn is_in_packages(name: &str, packages: &Vec<String>) -> (r: bool)
    ensures
        r == within_packages(name@, packages@.map_values(|s: String| s@)),
{
    let ghost texts = packages@.map_values(|s: String| s@);
    let mut i: usize = 0;
    while i < packages.len()
        invariant
            i <= packages.len(),
            texts == packages@.map_values(|s: String| s@),
            forall|k: int| 0 <= k < i ==> !within_package(name@, #[trigger] texts[k]),
        decreases packages.len() - i,
    {
        let package = packages[i].as_str();
        assert(texts[i as int] == package@);
        if str_eq(name, package) {
            return true;
        }
        let prefix = package.to_owned().concat(".");
        if str_starts_with(name, prefix.as_str()) {
            return true;
        }
        i += 1;
    }
    false
}

/// Whether a file is the file of a package: its name begins with
/// `__init__.`.
pub open spec fn package_file(path: Seq<char>) -> bool {
    file_name_of(path) matches Some(name) && text_starts_with(name, "__init__."@)
}

/// Whether the file at `path` is the file of a package.
pub fn is_package_from_path(path: &str) -> (r: bool)
    ensures
        r == package_file(path@),
{
    match path_file_name(path) {
        Some(name) => str_starts_with(name.as_str(), "__init__."),
        None => false,
    }
}

/// The source of the module `name` of the standard library of a
/// distribution, which lies at `path`.
pub open spec fn stdlib_source(
    name: Seq<char>,
    path: Seq<char>,
    cache_tag: Seq<char>,
    test_packages: Seq<Seq<char>>,
) -> crate::resource::ModuleSourceView {
    crate::resource::ModuleSourceView {
        name,
        source: DataLocationView::Path(path),
        is_package: package_file(path),
        cache_tag,
        is_stdlib: true,
        is_test: within_packages(name, test_packages),
    }
}

/// The data file `name` of the package `package` of the standard library of
/// a distribution, which lies at `path`.
pub open spec fn stdlib_resource(
    package: Seq<char>,
    name: Seq<char>,
    path: Seq<char>,
    test_packages: Seq<Seq<char>>,
) -> crate::resource::PackageResourceView {
    crate::resource::PackageResourceView {
        leaf_package: package,
        relative_name: name,
        data: DataLocationView::Path(path),
        is_stdlib: true,
        is_test: within_packages(package, test_packages),
    }
}

/// The data files of one package of the standard library, in the order of
/// their names.
pub open spec fn package_data(
    package: Seq<char>,
    files: Seq<(Seq<char>, String)>,
    test_packages: Seq<Seq<char>>,
) -> Seq<crate::resource::PackageResourceView> {
    files.map_values(
        |f: (Seq<char>, String)| stdlib_resource(package, f.0, f.1@, test_packages),
    )
}

/// The data files of packages of the standard library, in the order of the
/// packages.
pub open spec fn all_package_data(
    packages: Seq<(Seq<char>, NameMap<String>)>,
    test_packages: Seq<Seq<char>>,
) -> Seq<crate::resource::PackageResourceView>
    decreases packages.len(),
{
    if packages.len() == 0 {
        Seq::empty()
    } else {
        all_package_data(packages.drop_last(), test_packages) + package_data(
            packages.last().0,
            packages.last().1.entries(),
            test_packages,
        )
    }
}

/// The sources of the modules of the standard library of a distribution, in
/// increasing order of their names.
pub open spec fn stdlib_sources(d: StandaloneDistribution) -> Seq<
    crate::resource::ModuleSourceView,
> {
    d.py_modules.entries().map_values(
        |e: (Seq<char>, String)|
            stdlib_source(
                e.0,
                e.1@,
                d.cache_tag@,
                d.stdlib_test_packages@.map_values(|s: String| s@),
            ),
    )
}

/// The data files of the standard library of a distribution, in increasing
/// order of their packages and, within a package, of their names.
pub open spec fn stdlib_resources(d: StandaloneDistribution) -> Seq<
    crate::resource::PackageResourceView,
> {
    all_package_data(d.resources.entries(), d.stdlib_test_packages@.map_values(|s: String| s@))
}

impl StandaloneDistribution {
    /// Whether the module or package `name` of the standard library holds
    /// tests.
    pub fn is_stdlib_test_package(&self, name: &str) -> (r: bool)
        ensures
            r == within_packages(name@, self.stdlib_test_packages@.map_values(|s: String| s@)),
    {
        is_in_packages(name, &self.stdlib_test_packages)
    }

    /// The first three characters of the version, as in `3.7`.
    pub fn python_major_minor_version(&self) -> (r: String)
        requires
            has_major_minor(self.version@),
        ensures
            r@ == major_minor(self.version@),
    {
        python_major_minor_version(self.version.as_str())
    }

    /// The file suffixes of the kinds of module file.
    pub fn python_module_suffixes(&self) -> (r: &PythonModuleSuffixes)
        ensures
            *r == self.module_suffixes,
    {
        &self.module_suffixes
    }

    /// The sources of the modules of the standard library, in increasing
    /// order of their names.
    pub fn source_modules(&self) -> (r: Result<Vec<PythonModuleSource>, PackagingError>)
        ensures
            r matches Ok(v) && views(v@) == stdlib_sources(*self),
    {
        let items = self.py_modules.items();
        let ghost all = stdlib_sources(*self);
        let mut out: Vec<PythonModuleSource> = Vec::new();
        let mut i: usize = 0;
        assert(views(out@) =~= all.take(0));
        while i < items.len()
            invariant
                i <= items.len(),
                all == stdlib_sources(*self),
                crate::name_map::entries_of(items@) == self.py_modules.entries(),
                views(out@) == all.take(i as int),
            decreases items.len() - i,
        {
            let name = items[i].0.as_str();
            let path = items[i].1.as_str();
            assert(self.py_modules.entries()[i as int] == (items@[i as int].0@, items@[i as int].1));
            let ghost had = out@;
            let module = PythonModuleSource {
                name: name.to_owned(),
                source: DataLocation::Path(path.to_owned()),
                is_package: is_package_from_path(path),
                cache_tag: self.cache_tag.clone(),
                is_stdlib: true,
                is_test: self.is_stdlib_test_package(name),
            };
            out.push(module);
            i += 1;
            proof {
                assert(views(out@) =~= views(had).push(module@));
                assert(all[i - 1] == module@);
                assert(views(out@) =~= all.take(i as int));
            }
        }
        assert(all.take(i as int) =~= all);
        Ok(out)
    }

    /// The data files of the standard library, in increasing order of their
    /// packages and, within a package, of their names.
    pub fn resource_datas(&self) -> (r: Result<Vec<PythonPackageResource>, PackagingError>)
        ensures
            r matches Ok(v) && views(v@) == stdlib_resources(*self),
    {
        let packages = self.resources.items();
        let ghost tests = self.stdlib_test_packages@.map_values(|s: String| s@);
        let ghost entries = self.resources.entries();
        let mut out: Vec<PythonPackageResource> = Vec::new();
        let mut i: usize = 0;
        assert(views(out@) =~= all_package_data(entries.take(0), tests));
        while i < packages.len()
            invariant
                i <= packages.len(),
                tests == self.stdlib_test_packages@.map_values(|s: String| s@),
                entries == self.resources.entries(),
                crate::name_map::entries_of(packages@) == entries,
                views(out@) == all_package_data(entries.take(i as int), tests),
            decreases packages.len() - i,
        {
            let package = packages[i].0.as_str();
            let inner = &packages[i].1;
            let ghost start = views(out@);
            let ghost wanted = package_data(package@, inner.entries(), tests);
            proof {
                assert(entries[i as int] == (package@, *inner));
                assert(entries.take(i + 1).drop_last() =~= entries.take(i as int));
                assert(entries.take(i + 1).last() == entries[i as int]);
            }
            let files = inner.items();
            let mut j: usize = 0;
            assert(views(out@) =~= start + wanted.take(0));
            while j < files.len()
                invariant
                    j <= files.len(),
                    tests == self.stdlib_test_packages@.map_values(|s: String| s@),
                    crate::name_map::entries_of(files@) == inner.entries(),
                    wanted == package_data(package@, inner.entries(), tests),
                    views(out@) == start + wanted.take(j as int),
                decreases files.len() - j,
            {
                let name = files[j].0.as_str();
                let path = files[j].1.as_str();
                assert(inner.entries()[j as int] == (files@[j as int].0@, files@[j as int].1));
                let ghost had = out@;
                let item = PythonPackageResource {
                    leaf_package: package.to_owned(),
                    relative_name: name.to_owned(),
                    data: DataLocation::Path(path.to_owned()),
                    is_stdlib: true,
                    is_test: self.is_stdlib_test_package(package),
                };
                out.push(item);
                j += 1;
                proof {
                    assert(views(out@) =~= views(had).push(item@));
                    assert(wanted[j - 1] == item@);
                    assert(views(out@) =~= start + wanted.take(j as int));
                }
            }
            assert(wanted.take(j as int) =~= wanted);
            i += 1;
        }
        assert(entries.take(i as int) =~= entries);
        Ok(out)
    }
}

/// The target triples of Linux.
pub fn linux_target_triples() -> (r: Vec<&'static str>)
    ensures
        r@.map_values(|s: &str| s@) == seq![
            "x86_64-unknown-linux-gnu"@,
            "x86_64-unknown-linux-musl"@,
        ],
{
    let r = vec!["x86_64-unknown-linux-gnu", "x86_64-unknown-linux-musl"];
    assert(r@.map_values(|s: &str| s@) =~= seq![
        "x86_64-unknown-linux-gnu"@,
        "x86_64-unknown-linux-musl"@,
    ]);
    r
}

/// The target triples of macOS.
pub fn macos_target_triples() -> (r: Vec<&'static str>)
    ensures
        r@.map_values(|s: &str| s@) == seq!["x86_64-apple-ios"@],
{
    let r = vec!["x86_64-apple-ios"];
    assert(r@.map_values(|s: &str| s@) =~= seq!["x86_64-apple-ios"@]);
    r
}

/// The target triples of Windows.
pub fn windows_target_triples() -> (r: Vec<&'static str>)
    ensures
        r@.map_values(|s: &str| s@) == seq![
            "i686-pc-windows-gnu"@,
            "i686-pc-windows-msvc"@,
            "x86_64-pc-windows-gnu"@,
            "x86_64-pc-windows-msvc"@,
        ],
{
    let r = vec![
        "i686-pc-windows-gnu",
        "i686-pc-windows-msvc",
        "x86_64-pc-windows-gnu",
        "x86_64-pc-windows-msvc",
    ];
    assert(r@.map_values(|s: &str| s@) =~= seq![
        "i686-pc-windows-gnu"@,
        "i686-pc-windows-msvc"@,
        "x86_64-pc-windows-gnu"@,
        "x86_64-pc-windows-msvc"@,
    ]);
    r
}

/// The extension modules of a distribution that are known not to link on
/// Linux.
pub fn broken_extensions_linux() -> (r: Vec<&'static str>)
    ensures
        r@.map_values(|s: &str| s@) == seq!["_crypt"@, "nis"@],
{
    let r = vec!["_crypt", "nis"];
    assert(r@.map_values(|s: &str| s@) =~= seq!["_crypt"@, "nis"@]);
    r
}

/// The extension modules of a distribution that are known not to link on
/// macOS.
pub fn broken_extensions_macos() -> (r: Vec<&'static str>)
    ensures
        r@.map_values(|s: &str| s@) == seq!["curses"@, "_curses_panel"@, "readline"@],
{
    let r = vec!["curses", "_curses_panel", "readline"];
    assert(r@.map_values(|s: &str| s@) =~= seq!["curses"@, "_curses_panel"@, "readline"@]);
    r
}

/// The policy after each of `extensions` was marked as not working on each
/// of `triples`: the triples in their order, and for each the extensions in
/// theirs.
pub open spec fn with_broken_extensions(
    policy: PackagingPolicyView,
    triples: Seq<Seq<char>>,
    extensions: Seq<Seq<char>>,
) -> PackagingPolicyView
    decreases triples.len(),
{
    if triples.len() == 0 {
        policy
    } else {
        with_broken_on(
            with_broken_extensions(policy, triples.drop_last(), extensions),
            triples.last(),
            extensions,
        )
    }
}

/// The policy after each of `extensions` was marked as not working on
/// `triple`, in their order.
pub open spec fn with_broken_on(
    policy: PackagingPolicyView,
    triple: Seq<char>,
    extensions: Seq<Seq<char>>,
) -> PackagingPolicyView
    decreases extensions.len(),
{
    if extensions.len() == 0 {
        policy
    } else {
        with_broken_on(policy, triple, extensions.drop_last()).with_broken_extension(
            triple,
            extensions.last(),
        )
    }
}

/// Marks each of `extensions` as not working on each of `triples`.
pub fn register_broken_extensions(
    policy: &mut PythonPackagingPolicy,
    triples: &Vec<&'static str>,
    extensions: &Vec<&'static str>,
)
    ensures
        final(policy)@ == with_broken_extensions(
            old(policy)@,
            triples@.map_values(|s: &str| s@),
            extensions@.map_values(|s: &str| s@),
        ),
{
    let ghost ts = triples@.map_values(|s: &str| s@);
    let ghost es = extensions@.map_values(|s: &str| s@);
    let mut i: usize = 0;
    while i < triples.len()
        invariant
            i <= triples.len(),
            ts == triples@.map_values(|s: &str| s@),
            es == extensions@.map_values(|s: &str| s@),
            policy@ == with_broken_extensions(old(policy)@, ts.take(i as int), es),
        decreases triples.len() - i,
    {
        let ghost start = policy@;
        let mut j: usize = 0;
        while j < extensions.len()
            invariant
                j <= extensions.len(),
                i < triples.len(),
                ts == triples@.map_values(|s: &str| s@),
                es == extensions@.map_values(|s: &str| s@),
                policy@ == with_broken_on(start, ts[i as int], es.take(j as int)),
            decreases extensions.len() - j,
        {
            policy.register_broken_extension(triples[i], extensions[j]);
            j += 1;
            proof {
                assert(es.take(j as int).drop_last() =~= es.take(j - 1));
                assert(es.take(j as int).last() == extensions@[j - 1]@);
            }
        }
        i += 1;
        proof {
            assert(es.take(j as int) =~= es);
            assert(ts.take(i as int).drop_last() =~= ts.take(i - 1));
            assert(ts.take(i as int).last() == ts[i - 1]);
        }
    }
    assert(ts.take(i as int) =~= ts);
}

impl StandaloneDistribution {
    /// The policy that a binary built from a standalone distribution starts
    /// from: the default one, with the extension modules that are known not
    /// to link marked as such, for Linux and for macOS.
    pub fn create_packaging_policy(&self) -> (r: Result<PythonPackagingPolicy, PackagingError>)
        ensures
            r matches Ok(policy) && policy@ == with_broken_extensions(
                with_broken_extensions(
                    (PackagingPolicyView {
                        extension_module_filter: crate::policy::ExtensionModuleFilter::All,
                        preferred_extension_module_variants: Map::empty(),
                        resources_policy: crate::resource::PolicyView::InMemoryOnly,
                        include_distribution_sources: true,
                        include_distribution_resources: false,
                        include_test: false,
                        broken_extensions: Map::empty(),
                    }),
                    seq!["x86_64-unknown-linux-gnu"@, "x86_64-unknown-linux-musl"@],
                    seq!["_crypt"@, "nis"@],
                ),
                seq!["x86_64-apple-ios"@],
                seq!["curses"@, "_curses_panel"@, "readline"@],
            ),
    {
        let mut policy = PythonPackagingPolicy::default();
        register_broken_extensions(&mut policy, &linux_target_triples(), &broken_extensions_linux());
        register_broken_extensions(&mut policy, &macos_target_triples(), &broken_extensions_macos());
        Ok(policy)
    }
}

/// Whether something succeeded, and if not how it failed.
pub open spec fn outcome<T>(r: Result<T, PackagingError>) -> Result<(), PackagingError> {
    match r {
        Ok(_) => Ok(()),
        Err(e) => Err(e),
    }
}

/// Whether the licenses of a variant of an extension module can be had: it
/// names no license files, or it names its licenses, and each file that it
/// names has a file name and a text.
pub open spec fn licenses_readable(
    entry: PythonBuildExtensionInfo,
    python_path: Seq<char>,
    texts: Map<Seq<char>, String>,
) -> bool {
    match entry.license_paths {
        None => true,
        Some(paths) => entry.licenses is Some && forall|i: int|
            0 <= i < paths.len() ==> texts.contains_key(
                joined_path(python_path, (#[trigger] paths[i])@),
            ) && file_name_of(joined_path(python_path, paths[i]@)) is Some,
    }
}

/// The licenses of a variant of an extension module, where they can be had.
pub open spec fn licenses_described(
    entry: PythonBuildExtensionInfo,
    python_path: Seq<char>,
    texts: Map<Seq<char>, String>,
) -> Option<Seq<crate::resource::LicenseInfoView>> {
    match entry.license_paths {
        None => None,
        Some(paths) => Some(
            paths@.map_values(
                |p: String|
                    crate::resource::LicenseInfoView {
                        licenses: entry.licenses->0@.map_values(|s: String| s@),
                        license_filename: file_name_of(joined_path(python_path, p@))->0,
                        license_text: texts[joined_path(python_path, p@)]@,
                    },
            ),
        ),
    }
}

/// Licenses are resolved if and only if they can be had, and then they are
/// the licenses described.
pub proof fn lemma_licenses_described(
    r: Result<Option<Vec<LicenseInfo>>, PackagingError>,
    entry: PythonBuildExtensionInfo,
    python_path: Seq<char>,
    texts: Map<Seq<char>, String>,
)
    requires
        licenses_resolved(r, entry, python_path, texts),
    ensures
        r is Ok <==> licenses_readable(entry, python_path, texts),
        r is Ok ==> license_views(r->Ok_0) == licenses_described(entry, python_path, texts),
{
    match entry.license_paths {
        None => {},
        Some(paths) => {
            if r is Ok {
                let infos = r->Ok_0->0;
                assert(views(infos@) =~= licenses_described(entry, python_path, texts)->0);
            }
        },
    }
}

/// The variants of an extension module, as the manifest describes them.
pub open spec fn variants_described(
    name: Seq<char>,
    entries: Seq<PythonBuildExtensionInfo>,
    python_path: Seq<char>,
    texts: Map<Seq<char>, String>,
) -> Seq<crate::resource::ExtensionModuleView> {
    entries.map_values(
        |e: PythonBuildExtensionInfo|
            extension_module_described(
                name,
                e,
                python_path,
                licenses_described(e, python_path, texts),
            ),
    )
}

/// Whether the licenses of all variants can be had.
pub open spec fn variants_readable(
    entries: Seq<PythonBuildExtensionInfo>,
    python_path: Seq<char>,
    texts: Map<Seq<char>, String>,
) -> bool {
    forall|i: int| 0 <= i < entries.len() ==> licenses_readable(#[trigger] entries[i], python_path, texts)
}

/// The static libraries known after the variants `entries` were seen, in
/// their order.
pub open spec fn variants_libraries(
    known: Map<Seq<char>, DataLocationView>,
    entries: Seq<PythonBuildExtensionInfo>,
    python_path: Seq<char>,
) -> Map<Seq<char>, DataLocationView>
    decreases entries.len(),
{
    if entries.len() == 0 {
        known
    } else {
        static_libraries_with(
            variants_libraries(known, entries.drop_last(), python_path),
            libraries_of(entries.last().links@, python_path),
        )
    }
}

/// The licenses known after the variants `entries` of the extension module
/// `name` were seen, in their order: a variant that names license files
/// makes its licenses those of the module.
pub open spec fn variants_licenses(
    known: Map<Seq<char>, Seq<crate::resource::LicenseInfoView>>,
    name: Seq<char>,
    entries: Seq<PythonBuildExtensionInfo>,
    python_path: Seq<char>,
    texts: Map<Seq<char>, String>,
) -> Map<Seq<char>, Seq<crate::resource::LicenseInfoView>>
    decreases entries.len(),
{
    if entries.len() == 0 {
        known
    } else {
        let before = variants_licenses(known, name, entries.drop_last(), python_path, texts);
        match licenses_described(entries.last(), python_path, texts) {
            Some(infos) => before.insert(name, infos),
            None => before,
        }
    }
}

/// Whether the licenses of all variants of all extension modules can be had.
pub open spec fn modules_readable(
    modules: Seq<(Seq<char>, Vec<PythonBuildExtensionInfo>)>,
    python_path: Seq<char>,
    texts: Map<Seq<char>, String>,
) -> bool {
    forall|k: int|
        0 <= k < modules.len() ==> variants_readable((#[trigger] modules[k]).1@, python_path, texts)
}

/// The static libraries known after the extension modules `modules` were
/// seen, in their order.
pub open spec fn modules_libraries(
    known: Map<Seq<char>, DataLocationView>,
    modules: Seq<(Seq<char>, Vec<PythonBuildExtensionInfo>)>,
    python_path: Seq<char>,
) -> Map<Seq<char>, DataLocationView>
    decreases modules.len(),
{
    if modules.len() == 0 {
        known
    } else {
        variants_libraries(
            modules_libraries(known, modules.drop_last(), python_path),
            modules.last().1@,
            python_path,
        )
    }
}

/// The licenses known after the extension modules `modules` were seen, in
/// their order.
pub open spec fn modules_licenses(
    known: Map<Seq<char>, Seq<crate::resource::LicenseInfoView>>,
    modules: Seq<(Seq<char>, Vec<PythonBuildExtensionInfo>)>,
    python_path: Seq<char>,
    texts: Map<Seq<char>, String>,
) -> Map<Seq<char>, Seq<crate::resource::LicenseInfoView>>
    decreases modules.len(),
{
    if modules.len() == 0 {
        known
    } else {
        variants_licenses(
            modules_licenses(known, modules.drop_last(), python_path, texts),
            modules.last().0,
            modules.last().1@,
            python_path,
            texts,
        )
    }
}

/// What a map of licenses stands for.
pub open spec fn license_map(m: Map<Seq<char>, Vec<LicenseInfo>>) -> Map<
    Seq<char>,
    Seq<crate::resource::LicenseInfoView>,
> {
    m.map_values(|v: Vec<LicenseInfo>| views(v@))
}

/// What a map of locations stands for.
pub open spec fn location_map(m: Map<Seq<char>, DataLocation>) -> Map<Seq<char>, DataLocationView> {
    m.map_values(|d: DataLocation| d@)
}

/// What a map of texts stands for.
pub open spec fn text_map(m: Map<Seq<char>, String>) -> Map<Seq<char>, Seq<char>> {
    m.map_values(|s: String| s@)
}

/// The variants of the extension module `name` that the entries of the
/// manifest describe. The libraries with a static form, and the licenses, are
/// made known.
fn resolve_variants(
    name: &str,
    entries: &Vec<PythonBuildExtensionInfo>,
    python_path: &str,
    texts: &NameMap<String>,
    libraries: &mut NameMap<DataLocation>,
    license_infos: &mut NameMap<Vec<LicenseInfo>>,
) -> (r: Result<Vec<PythonExtensionModule>, PackagingError>)
    ensures
        r is Ok <==> variants_readable(entries@, python_path@, texts@),
        r matches Ok(v) ==> views(v@) == variants_described(
            name@,
            entries@,
            python_path@,
            texts@,
        ),
        r is Ok ==> location_map(final(libraries)@) == variants_libraries(
            location_map(old(libraries)@),
            entries@,
            python_path@,
        ),
        r is Ok ==> license_map(final(license_infos)@) == variants_licenses(
            license_map(old(license_infos)@),
            name@,
            entries@,
            python_path@,
            texts@,
        ),
        r matches Err(e) ==> e is MissingLicenses || e is MissingLicenseText || e is NoFileName,
{
    let ghost all = variants_described(name@, entries@, python_path@, texts@);
    let ghost known = location_map(libraries@);
    let ghost licensed = license_map(license_infos@);
    let mut out: Vec<PythonExtensionModule> = Vec::new();
    let mut i: usize = 0;
    assert(views(out@) =~= all.take(0));
    while i < entries.len()
        invariant
            i <= entries.len(),
            all == variants_described(name@, entries@, python_path@, texts@),
            views(out@) == all.take(i as int),
            variants_readable(entries@.take(i as int), python_path@, texts@),
            location_map(libraries@) == variants_libraries(
                known,
                entries@.take(i as int),
                python_path@,
            ),
            license_map(license_infos@) == variants_licenses(
                licensed,
                name@,
                entries@.take(i as int),
                python_path@,
                texts@,
            ),
        decreases entries.len() - i,
    {
        let entry = &entries[i];
        let resolved = resolve_licenses(entry, python_path, texts);
        proof {
            lemma_licenses_described(resolved, *entry, python_path@, texts@);
            assert(entries@.take(i + 1).drop_last() =~= entries@.take(i as int));
            assert(entries@.take(i + 1).last() == *entry);
        }
        let licenses = match resolved {
            Ok(licenses) => licenses,
            Err(e) => {
                assert(!licenses_readable(entries@[i as int], python_path@, texts@));
                return Err(e);
            },
        };
        let ghost had_licenses = license_map(license_infos@);
        match &licenses {
            Some(infos) => {
                let copy = infos.clone();
                assert(views(copy@) =~= views(infos@));
                license_infos.insert(name.to_owned(), copy);
                assert(license_map(license_infos@) =~= had_licenses.insert(name@, views(infos@)));
            },
            None => {},
        }
        let ghost had = out@;
        let module = resolve_extension_module(name, entry, python_path, licenses, libraries);
        out.push(module);
        i += 1;
        proof {
            assert(views(out@) =~= views(had).push(module@));
            assert(all[i - 1] == module@);
            assert(views(out@) =~= all.take(i as int));
            assert forall|k: int| 0 <= k < i implies licenses_readable(
                #[trigger] entries@.take(i as int)[k],
                python_path@,
                texts@,
            ) by {
                if k < i - 1 {
                    assert(entries@.take(i - 1)[k] == entries@.take(i as int)[k]);
                }
            }
        }
    }
    assert(entries@.take(i as int) =~= entries@);
    assert(all.take(i as int) =~= all);
    Ok(out)
}

/// The extension modules of a distribution, each with its variants, as the
/// manifest describes them. The libraries with a static form, and the
/// licenses, are made known.
fn resolve_extension_modules(
    extensions: &NameMap<Vec<PythonBuildExtensionInfo>>,
    python_path: &str,
    texts: &NameMap<String>,
    libraries: &mut NameMap<DataLocation>,
    license_infos: &mut NameMap<Vec<LicenseInfo>>,
) -> (r: Result<NameMap<Vec<PythonExtensionModule>>, PackagingError>)
    ensures
        r is Ok <==> modules_readable(extensions.entries(), python_path@, texts@),
        r matches Ok(m) ==> m@.dom() == extensions@.dom() && forall|name: Seq<char>| #[trigger]
            extensions@.contains_key(name) ==> views(m@[name]@) == variants_described(
                name,
                extensions@[name]@,
                python_path@,
                texts@,
            ),
        r is Ok ==> location_map(final(libraries)@) == modules_libraries(
            location_map(old(libraries)@),
            extensions.entries(),
            python_path@,
        ),
        r is Ok ==> license_map(final(license_infos)@) == modules_licenses(
            license_map(old(license_infos)@),
            extensions.entries(),
            python_path@,
            texts@,
        ),
        r matches Err(e) ==> e is MissingLicenses || e is MissingLicenseText || e is NoFileName,
{
    let items = extensions.items();
    let ghost entries = extensions.entries();
    let ghost known = location_map(libraries@);
    let ghost licensed = license_map(license_infos@);
    let mut out: NameMap<Vec<PythonExtensionModule>> = NameMap::new();
    let mut i: usize = 0;
    while i < items.len()
        invariant
            i <= items.len(),
            entries == extensions.entries(),
            crate::name_map::entries_of(items@) == entries,
            crate::text::increasing(crate::name_map::entry_names(entries)),
            modules_readable(entries.take(i as int), python_path@, texts@),
            location_map(libraries@) == modules_libraries(
                known,
                entries.take(i as int),
                python_path@,
            ),
            license_map(license_infos@) == modules_licenses(
                licensed,
                entries.take(i as int),
                python_path@,
                texts@,
            ),
            forall|name: Seq<char>|
                out@.contains_key(name) <==> exists|k: int|
                    0 <= k < i && (#[trigger] entries[k]).0 == name,
            forall|name: Seq<char>| #[trigger]
                out@.contains_key(name) ==> extensions@.contains_key(name) && views(out@[name]@)
                    == variants_described(name, extensions@[name]@, python_path@, texts@),
        decreases items.len() - i,
    {
        let name = items[i].0.as_str();
        let variants = &items[i].1;
        proof {
            assert(entries[i as int] == (name@, *variants));
            crate::name_map::lemma_entry_at(entries, i as int);
            assert(entries.take(i + 1).drop_last() =~= entries.take(i as int));
            assert(entries.take(i + 1).last() == entries[i as int]);
        }
        let modules = match resolve_variants(
            name,
            variants,
            python_path,
            texts,
            libraries,
            license_infos,
        ) {
            Ok(modules) => modules,
            Err(e) => {
                assert(!variants_readable(entries[i as int].1@, python_path@, texts@));
                return Err(e);
            },
        };
        let ghost before = out@;
        out.insert(name.to_owned(), modules);
        i += 1;
        proof {
            assert forall|n: Seq<char>| out@.contains_key(n) <==> exists|k: int|
                0 <= k < i && (#[trigger] entries[k]).0 == n by {
                if out@.contains_key(n) {
                    if n == name@ {
                        assert(entries[i - 1].0 == n);
                    } else {
                        assert(before.contains_key(n));
                        let k = choose|k: int| 0 <= k < i - 1 && (#[trigger] entries[k]).0 == n;
                        assert(entries[k].0 == n);
                    }
                }
            }
            assert forall|k: int| 0 <= k < i implies variants_readable(
                (#[trigger] entries.take(i as int)[k]).1@,
                python_path@,
                texts@,
            ) by {
                if k < i - 1 {
                    assert(entries.take(i - 1)[k] == entries.take(i as int)[k]);
                }
            }
        }
    }
    proof {
        assert(entries.take(i as int) =~= entries);
        assert forall|n: Seq<char>| out@.contains_key(n) <==> extensions@.contains_key(n) by {
            if extensions@.contains_key(n) {
                let k = crate::name_map::position_of(entries, n);
                assert(entries[k].0 == n);
            }
            if out@.contains_key(n) {
                let k = choose|k: int| 0 <= k < i && (#[trigger] entries[k]).0 == n;
                crate::name_map::lemma_entry_at(entries, k);
            }
        }
        assert(out@.dom() =~= extensions@.dom());
    }
    Ok(out)
}

/// Whether everything that a scan found is a file.
pub open spec fn scanned_files(scanned: Seq<ScannedResource>) -> bool {
    forall|i: int|
        0 <= i < scanned.len() ==> match #[trigger] scanned[i] {
            ScannedResource::Resource(resource) => resource.data is Path,
            ScannedResource::ModuleSource(source) => source.source is Path,
            ScannedResource::Other => true,
        }
}

/// The data files found by a scan, by package and by name, each with its
/// path; a later file takes the place of an earlier one of the same name.
pub open spec fn scanned_resources(scanned: Seq<ScannedResource>) -> Map<
    Seq<char>,
    Map<Seq<char>, Seq<char>>,
>
    decreases scanned.len(),
{
    if scanned.len() == 0 {
        Map::empty()
    } else {
        let before = scanned_resources(scanned.drop_last());
        match scanned.last() {
            ScannedResource::Resource(resource) => match resource.data {
                DataLocation::Path(path) => before.insert(
                    resource.leaf_package@,
                    (if before.contains_key(resource.leaf_package@) {
                        before[resource.leaf_package@]
                    } else {
                        Map::empty()
                    }).insert(resource.relative_name@, path@),
                ),
                DataLocation::Memory(_) => before,
            },
            _ => before,
        }
    }
}

/// The sources found by a scan, by module, each with its path.
pub open spec fn scanned_modules(scanned: Seq<ScannedResource>) -> Map<Seq<char>, Seq<char>>
    decreases scanned.len(),
{
    if scanned.len() == 0 {
        Map::empty()
    } else {
        let before = scanned_modules(scanned.drop_last());
        match scanned.last() {
            ScannedResource::ModuleSource(source) => match source.source {
                DataLocation::Path(path) => before.insert(source.name@, path@),
                DataLocation::Memory(_) => before,
            },
            _ => before,
        }
    }
}

/// What a map of maps of texts stands for.
pub open spec fn nested_text_map(m: Map<Seq<char>, NameMap<String>>) -> Map<
    Seq<char>,
    Map<Seq<char>, Seq<char>>,
> {
    m.map_values(|files: NameMap<String>| text_map(files@))
}

/// Files what scanning the standard library found: the data files by
/// package and name, the sources by module; both have to be files.
fn file_stdlib_resources(scanned: &Vec<ScannedResource>) -> (r: Result<
    (NameMap<NameMap<String>>, NameMap<String>),
    PackagingError,
>)
    ensures
        r is Ok <==> scanned_files(scanned@),
        r matches Ok(found) ==> nested_text_map(found.0@) == scanned_resources(scanned@)
            && text_map(found.1@) == scanned_modules(scanned@),
        r matches Err(e) ==> e is ResourceInMemory || e is SourceInMemory,
{
    let mut resources: NameMap<NameMap<String>> = NameMap::new();
    let mut py_modules: NameMap<String> = NameMap::new();
    let mut i: usize = 0;
    proof {
        assert(nested_text_map(resources@) =~= scanned_resources(scanned@.take(0)));
        assert(text_map(py_modules@) =~= scanned_modules(scanned@.take(0)));
    }
    while i < scanned.len()
        invariant
            i <= scanned.len(),
            scanned_files(scanned@.take(i as int)),
            nested_text_map(resources@) == scanned_resources(scanned@.take(i as int)),
            text_map(py_modules@) == scanned_modules(scanned@.take(i as int)),
        decreases scanned.len() - i,
    {
        proof {
            assert(scanned@.take(i + 1).drop_last() =~= scanned@.take(i as int));
            assert(scanned@.take(i + 1).last() == scanned@[i as int]);
        }
        let ghost had_resources = nested_text_map(resources@);
        let ghost had_modules = text_map(py_modules@);
        match &scanned[i] {
            ScannedResource::Resource(resource) => {
                match &resource.data {
                    DataLocation::Path(path) => {
                        let mut files = match resources.remove(resource.leaf_package.as_str()) {
                            Some(files) => files,
                            None => {
                                let empty: NameMap<String> = NameMap::new();
                                assert(text_map(empty@) =~= Map::empty());
                                empty
                            },
                        };
                        let ghost had_files = text_map(files@);
                        files.insert(resource.relative_name.clone(), path.clone());
                        assert(text_map(files@) =~= had_files.insert(
                            resource.relative_name@,
                            path@,
                        ));
                        resources.insert(resource.leaf_package.clone(), files);
                        assert(nested_text_map(resources@) =~= had_resources.insert(
                            resource.leaf_package@,
                            text_map(files@),
                        ));
                    },
                    DataLocation::Memory(_) => {
                        assert(!scanned_files(scanned@));
                        return Err(PackagingError::ResourceInMemory);
                    },
                }
            },
            ScannedResource::ModuleSource(source) => {
                match &source.source {
                    DataLocation::Path(path) => {
                        py_modules.insert(source.name.clone(), path.clone());
                        assert(text_map(py_modules@) =~= had_modules.insert(source.name@, path@));
                    },
                    DataLocation::Memory(_) => {
                        assert(!scanned_files(scanned@));
                        return Err(PackagingError::SourceInMemory);
                    },
                }
            },
            ScannedResource::Other => {},
        }
        i += 1;
        proof {
            assert forall|k: int| 0 <= k < i implies match #[trigger] scanned@.take(i as int)[k] {
                ScannedResource::Resource(resource) => resource.data is Path,
                ScannedResource::ModuleSource(source) => source.source is Path,
                ScannedResource::Other => true,
            } by {
                if k < i - 1 {
                    assert(scanned@.take(i - 1)[k] == scanned@.take(i as int)[k]);
                }
            }
        }
    }
    assert(scanned@.take(i as int) =~= scanned@);
    Ok((resources, py_modules))
}

/// The object files of the interpreter, each under its path in the manifest
/// with its path below `python_path`.
pub open spec fn core_objects(objs: Seq<String>, python_path: Seq<char>) -> Map<
    Seq<char>,
    Seq<char>,
>
    decreases objs.len(),
{
    if objs.len() == 0 {
        Map::empty()
    } else {
        core_objects(objs.drop_last(), python_path).insert(
            objs.last()@,
            joined_path(python_path, objs.last()@),
        )
    }
}

/// The include files, each under its path below the include directory with
/// its path.
pub open spec fn include_map(files: Seq<(String, String)>) -> Map<Seq<char>, Seq<char>>
    decreases files.len(),
{
    if files.len() == 0 {
        Map::empty()
    } else {
        include_map(files.drop_last()).insert(files.last().0@, files.last().1@)
    }
}

/// The licenses of the interpreter itself: where the manifest names a
/// license file, the licenses that it names, with the text of that file.
pub open spec fn core_licenses(
    pi: PythonJsonMain,
    python_path: Seq<char>,
    texts: Map<Seq<char>, String>,
) -> Map<Seq<char>, Seq<crate::resource::LicenseInfoView>> {
    match pi.license_path {
        Some(relative) => map![
            "python"@ => seq![
                crate::resource::LicenseInfoView {
                    licenses: pi.licenses->0@.map_values(|s: String| s@),
                    license_filename: "LICENSE.python.txt"@,
                    license_text: texts[joined_path(python_path, relative@)]@,
                },
            ],
        ],
        None => Map::empty(),
    }
}

/// Whether a distribution can be made of a manifest and of what was found
/// on disk: the license of the interpreter and the licenses of the extension
/// modules can be had, the manifest names the suffixes of all kinds of
/// module file and the directories of the include files and of the standard
/// library, everything that the scan found is a file, the directory of the
/// distribution has a parent, and the link mode is known and, where it is
/// shared, comes with a library.
pub open spec fn distribution_readable(
    dist_dir: Seq<char>,
    pi: PythonJsonMain,
    files: DistributionFiles,
) -> bool {
    let python_path = joined_path(dist_dir, "python"@);
    let texts = files.license_texts@;
    &&& pi.license_path matches Some(relative) ==> texts.contains_key(
        joined_path(python_path, relative@),
    ) && pi.licenses is Some
    &&& pi.python_suffixes@.contains_key("source"@)
    &&& pi.python_suffixes@.contains_key("bytecode"@)
    &&& pi.python_suffixes@.contains_key("debug_bytecode"@)
    &&& pi.python_suffixes@.contains_key("optimized_bytecode"@)
    &&& pi.python_suffixes@.contains_key("extension"@)
    &&& modules_readable(pi.build_info.extensions.entries(), python_path, texts)
    &&& pi.python_paths@.contains_key("include"@)
    &&& pi.python_paths@.contains_key("stdlib"@)
    &&& scanned_files(files.stdlib_resources@)
    &&& parent_path(dist_dir) is Some
    &&& pi.libpython_link_mode@ == "static"@ || (pi.libpython_link_mode@ == "shared"@
        && pi.build_info.core.shared_lib is Some)
}

/// Whether `e` is the failure with which a manifest and what was found on
/// disk are refused: the failure of the first step that fails, of these in
/// their order: the license text of the interpreter, its licenses, the
/// suffixes of module files, the licenses of the extension modules, the
/// directory of the include files, the directory of the standard library,
/// what the scan found, the parent of the directory of the distribution, and
/// the link mode.
pub open spec fn refused_with(
    e: PackagingError,
    dist_dir: Seq<char>,
    pi: PythonJsonMain,
    files: DistributionFiles,
) -> bool {
    let python_path = joined_path(dist_dir, "python"@);
    let texts = files.license_texts@;
    let suffixes = pi.python_suffixes@;
    if pi.license_path is Some && !texts.contains_key(
        joined_path(python_path, pi.license_path->0@),
    ) {
        e matches PackagingError::MissingLicenseText(p) && p@ == joined_path(
            python_path,
            pi.license_path->0@,
        )
    } else if pi.license_path is Some && pi.licenses is None {
        e == PackagingError::MissingLicenses
    } else if !(suffixes.contains_key("source"@) && suffixes.contains_key("bytecode"@)
        && suffixes.contains_key("debug_bytecode"@) && suffixes.contains_key(
        "optimized_bytecode"@,
    ) && suffixes.contains_key("extension"@)) {
        suffixes_resolved(Err::<PythonModuleSuffixes, PackagingError>(e), suffixes)
    } else if !modules_readable(pi.build_info.extensions.entries(), python_path, texts) {
        e is MissingLicenses || e is MissingLicenseText || e is NoFileName
    } else if !pi.python_paths@.contains_key("include"@) {
        e == PackagingError::MissingIncludePath
    } else if !pi.python_paths@.contains_key("stdlib"@) {
        e == PackagingError::MissingStdlibPath
    } else if !scanned_files(files.stdlib_resources@) {
        e is ResourceInMemory || e is SourceInMemory
    } else if parent_path(dist_dir) is None {
        e == PackagingError::NoParent
    } else {
        libpython_resolved(
            Err::<(StandaloneDistributionLinkMode, Option<String>), PackagingError>(e),
            pi.libpython_link_mode@,
            text_of(pi.build_info.core.shared_lib),
            python_path,
        )
    }
}

/// What holds of a distribution that was made of the manifest `pi` of the
/// directory `dist_dir` and of what was found on disk there.
pub open spec fn distribution_described(
    d: StandaloneDistribution,
    dist_dir: Seq<char>,
    pi: PythonJsonMain,
    files: DistributionFiles,
) -> bool {
    let python_path = joined_path(dist_dir, "python"@);
    let texts = files.license_texts@;
    let core_links = libraries_of(pi.build_info.core.links@, python_path);
    &&& d.base_dir@ == dist_dir
    &&& d.target_triple == pi.target_triple
    &&& d.python_tag == pi.python_tag
    &&& d.python_abi_tag == pi.python_abi_tag
    &&& d.python_platform_tag == pi.python_platform_tag
    &&& d.version@ == pi.python_version@
    &&& d.python_exe@ == joined_path(python_path, pi.python_exe@)
    &&& d.stdlib_path@ == joined_path(python_path, pi.python_paths@["stdlib"@]@)
    &&& libpython_resolved(
        Ok((d.link_mode, d.libpython_shared_library)),
        pi.libpython_link_mode@,
        text_of(pi.build_info.core.shared_lib),
        python_path,
    )
    &&& d.python_symbol_visibility == pi.python_symbol_visibility
    &&& d.extension_module_loading == pi.python_extension_module_loading
    &&& d.licenses == pi.licenses
    &&& text_of(d.license_path) == text_of(pi.license_path)
    &&& d.tcl_library_path == pi.tcl_library_path
    &&& text_map(d.objs_core@) == core_objects(pi.build_info.core.objs@, python_path)
    &&& views(d.links_core@) == core_links
    &&& suffixes_resolved(Ok(d.module_suffixes), pi.python_suffixes@)
    &&& d.venv_base@ == joined_path(parent_path(dist_dir)->0, "hacked_base"@)
    &&& d.inittab_object@ == joined_path(python_path, pi.build_info.inittab_object@)
    &&& d.inittab_cflags == pi.build_info.inittab_cflags
    &&& d.cache_tag@ == pi.python_implementation_cache_tag@
    &&& d.stdlib_test_packages == pi.python_stdlib_test_packages
    &&& d.frozen_c@ == Seq::<u8>::empty()
    &&& d.extension_modules@.dom() == pi.build_info.extensions@.dom()
    &&& forall|name: Seq<char>| #[trigger]
        pi.build_info.extensions@.contains_key(name) ==> views(d.extension_modules@[name]@)
            == variants_described(name, pi.build_info.extensions@[name]@, python_path, texts)
    &&& location_map(d.libraries@) == modules_libraries(
        static_libraries_with(Map::empty(), core_links),
        pi.build_info.extensions.entries(),
        python_path,
    )
    &&& license_map(d.license_infos@) == modules_licenses(
        core_licenses(pi, python_path, texts),
        pi.build_info.extensions.entries(),
        python_path,
        texts,
    )
    &&& text_map(d.includes@) == include_map(files.include_files@)
    &&& text_map(d.py_modules@) == scanned_modules(files.stdlib_resources@)
    &&& nested_text_map(d.resources@) == scanned_resources(files.stdlib_resources@)
}

impl StandaloneDistribution {
    /// Makes a distribution of the manifest of the directory `dist_dir` and
    /// of what was found on disk there. The root may hold nothing but
    /// `python`, and that directory nothing but what a distribution has
    /// there; then the manifest has to have been read. After that the
    /// manifest and what was found are gone through step by step, and the
    /// first step that fails gives the failure.
    pub fn from_directory(
        dist_dir: &str,
        files: &DistributionFiles,
        manifest: Result<PythonJsonMain, PackagingError>,
    ) -> (r: Result<Self, PackagingError>)
        ensures
            ({
                let root = entry_texts(files.root_entries@);
                let python = entry_texts(files.python_entries@);
                let root_fine = first_unexpected(root, root_names()) == root.len();
                let python_fine = first_unexpected(python, python_names()) == python.len();
                &&& !root_fine ==> entries_checked(outcome(r), root, root_names(), true)
                &&& root_fine && !python_fine ==> entries_checked(
                    outcome(r),
                    python,
                    python_names(),
                    false,
                )
                &&& root_fine && python_fine && manifest is Err ==> r is Err && r->Err_0
                    == manifest->Err_0
                &&& r is Ok <==> root_fine && python_fine && manifest is Ok
                    && distribution_readable(dist_dir@, manifest->Ok_0, *files)
                &&& r matches Ok(d) ==> distribution_described(
                    d,
                    dist_dir@,
                    manifest->Ok_0,
                    *files,
                )
                &&& root_fine && python_fine && manifest is Ok ==> (r matches Err(e)
                    ==> refused_with(e, dist_dir@, manifest->Ok_0, *files))
            }),
    {
        match check_root_entries(&files.root_entries) {
            Ok(()) => {},
            Err(e) => {
                return Err(e);
            },
        }
        match check_python_entries(&files.python_entries) {
            Ok(()) => {},
            Err(e) => {
                return Err(e);
            },
        }
        let pi = match manifest {
            Ok(pi) => pi,
            Err(e) => {
                return Err(e);
            },
        };
        let python_path = path_join(dist_dir, "python");
        let mut license_infos: NameMap<Vec<LicenseInfo>> = NameMap::new();
        assert(license_map(license_infos@) =~= Map::empty());
        match &pi.license_path {
            Some(relative) => {
                let license_path = path_join(python_path.as_str(), relative.as_str());
                let text = match files.license_texts.get(license_path.as_str()) {
                    Some(text) => text.clone(),
                    None => {
                        return Err(PackagingError::MissingLicenseText(license_path));
                    },
                };
                let licenses = match &pi.licenses {
                    Some(licenses) => licenses.clone(),
                    None => {
                        return Err(PackagingError::MissingLicenses);
                    },
                };
                assert(licenses@.map_values(|s: String| s@) =~= pi.licenses->0@.map_values(
                    |s: String| s@,
                ));
                let mut infos: Vec<LicenseInfo> = Vec::new();
                let info = LicenseInfo {
                    licenses,
                    license_filename: String::from_str("LICENSE.python.txt"),
                    license_text: text,
                };
                infos.push(info);
                assert(views(infos@) =~= seq![info@]);
                license_infos.insert(String::from_str("python"), infos);
                assert(license_map(license_infos@) =~= core_licenses(
                    pi,
                    python_path@,
                    files.license_texts@,
                ));
            },
            None => {},
        }
        let mut objs_core: NameMap<String> = NameMap::new();
        let mut i: usize = 0;
        assert(text_map(objs_core@) =~= core_objects(
            pi.build_info.core.objs@.take(0),
            python_path@,
        ));
        while i < pi.build_info.core.objs.len()
            invariant
                i <= pi.build_info.core.objs.len(),
                text_map(objs_core@) == core_objects(
                    pi.build_info.core.objs@.take(i as int),
                    python_path@,
                ),
            decreases pi.build_info.core.objs.len() - i,
        {
            let obj = pi.build_info.core.objs[i].as_str();
            let ghost had = text_map(objs_core@);
            let full = path_join(python_path.as_str(), obj);
            objs_core.insert(obj.to_owned(), full);
            i += 1;
            proof {
                let objs = pi.build_info.core.objs@;
                assert(objs.take(i as int).drop_last() =~= objs.take(i - 1));
                assert(objs.take(i as int).last() == objs[i - 1]);
                assert(text_map(objs_core@) =~= had.insert(obj@, full@));
            }
        }
        assert(pi.build_info.core.objs@.take(i as int) =~= pi.build_info.core.objs@);
        let mut libraries: NameMap<DataLocation> = NameMap::new();
        assert(location_map(libraries@) =~= Map::empty());
        let links_core = resolve_links(
            &pi.build_info.core.links,
            python_path.as_str(),
            &mut libraries,
        );
        let module_suffixes = match resolve_module_suffixes(&pi.python_suffixes) {
            Ok(suffixes) => suffixes,
            Err(e) => {
                return Err(e);
            },
        };
        let extension_modules = match resolve_extension_modules(
            &pi.build_info.extensions,
            python_path.as_str(),
            &files.license_texts,
            &mut libraries,
            &mut license_infos,
        ) {
            Ok(modules) => modules,
            Err(e) => {
                return Err(e);
            },
        };
        if !pi.python_paths.contains_key("include") {
            return Err(PackagingError::MissingIncludePath);
        }
        let mut includes: NameMap<String> = NameMap::new();
        let mut j: usize = 0;
        assert(text_map(includes@) =~= include_map(files.include_files@.take(0)));
        while j < files.include_files.len()
            invariant
                j <= files.include_files.len(),
                text_map(includes@) == include_map(files.include_files@.take(j as int)),
            decreases files.include_files.len() - j,
        {
            let ghost had = text_map(includes@);
            let name = files.include_files[j].0.clone();
            let full = files.include_files[j].1.clone();
            includes.insert(name, full);
            j += 1;
            proof {
                let all = files.include_files@;
                assert(all.take(j as int).drop_last() =~= all.take(j - 1));
                assert(all.take(j as int).last() == all[j - 1]);
                assert(text_map(includes@) =~= had.insert(name@, full@));
            }
        }
        assert(files.include_files@.take(j as int) =~= files.include_files@);
        let stdlib_path = match pi.python_paths.get("stdlib") {
            Some(p) => path_join(python_path.as_str(), p.as_str()),
            None => {
                return Err(PackagingError::MissingStdlibPath);
            },
        };
        let (resources, py_modules) = match file_stdlib_resources(&files.stdlib_resources) {
            Ok(found) => found,
            Err(e) => {
                return Err(e);
            },
        };
        let venv_base = match path_parent(dist_dir) {
            Some(parent) => path_join(parent.as_str(), "hacked_base"),
            None => {
                return Err(PackagingError::NoParent);
            },
        };
        let (link_mode, libpython_shared_library) = match resolve_libpython(
            pi.libpython_link_mode.as_str(),
            &pi.build_info.core.shared_lib,
            python_path.as_str(),
        ) {
            Ok(found) => found,
            Err(e) => {
                return Err(e);
            },
        };
        let inittab_object = path_join(python_path.as_str(), pi.build_info.inittab_object.as_str());
        let python_exe = python_exe_path(dist_dir, pi.python_exe.as_str());
        let version = pi.python_version.clone();
        let cache_tag = pi.python_implementation_cache_tag.clone();
        let license_path = clone_text(&pi.license_path);
        Ok(
            StandaloneDistribution {
                base_dir: dist_dir.to_owned(),
                target_triple: pi.target_triple,
                python_tag: pi.python_tag,
                python_abi_tag: pi.python_abi_tag,
                python_platform_tag: pi.python_platform_tag,
                version,
                python_exe,
                stdlib_path,
                link_mode,
                python_symbol_visibility: pi.python_symbol_visibility,
                extension_module_loading: pi.python_extension_module_loading,
                licenses: pi.licenses,
                license_path,
                tcl_library_path: pi.tcl_library_path,
                objs_core,
                links_core,
                libpython_shared_library,
                extension_modules,
                frozen_c: Vec::new(),
                includes,
                libraries,
                py_modules,
                resources,
                license_infos,
                venv_base,
                inittab_object,
                inittab_cflags: pi.build_info.inittab_cflags,
                cache_tag,
                module_suffixes,
                stdlib_test_packages: pi.python_stdlib_test_packages,
            },
        )
    }
}

/// Whether a resource can be used with a distribution: an extension module
/// as a shared library where the distribution loads extension modules from
/// files; one as object files where the distribution is linked statically;
/// eggs and path extension files never; everything else always.
pub open spec fn compatible(
    resource: PythonResource,
    file_loadable: bool,
    link_mode: StandaloneDistributionLinkMode,
) -> bool {
    match resource {
        PythonResource::ExtensionModuleDynamicLibrary(_) => file_loadable,
        PythonResource::ExtensionModuleStaticallyLinked(_) => link_mode
            == StandaloneDistributionLinkMode::Static,
        PythonResource::EggFile(_) => false,
        PythonResource::PathExtension(_) => false,
        _ => true,
    }
}

/// Whether a resource belongs to one of `packages`.
pub open spec fn resource_within(resource: PythonResource, packages: Seq<Seq<char>>) -> bool {
    match resource.package_name() {
        Some(name) => within_packages(name, packages),
        None => false,
    }
}

/// The resources of `resources` that belong to one of `packages`, in their
/// order.
pub fn read_package_root<'a>(resources: &'a Vec<PythonResource>, packages: &Vec<String>) -> (r:
    Vec<&'a PythonResource>)
    ensures
        r@.map_values(|x: &PythonResource| *x) == kept(
            resources@,
            |x: PythonResource| resource_within(x, packages@.map_values(|s: String| s@)),
        ),
{
    let ghost wanted = |x: PythonResource|
        resource_within(x, packages@.map_values(|s: String| s@));
    let mut out: Vec<&PythonResource> = Vec::new();
    let mut i: usize = 0;
    assert(out@.map_values(|x: &PythonResource| *x) =~= kept(resources@.take(0), wanted));
    while i < resources.len()
        invariant
            i <= resources.len(),
            wanted == |x: PythonResource|
                resource_within(x, packages@.map_values(|s: String| s@)),
            out@.map_values(|x: &PythonResource| *x) == kept(resources@.take(i as int), wanted),
        decreases resources.len() - i,
    {
        let resource = &resources[i];
        let fine = match resource {
            PythonResource::ModuleSource(m) => is_in_packages(m.name.as_str(), packages),
            PythonResource::ModuleBytecodeRequest(m) => is_in_packages(m.name.as_str(), packages),
            PythonResource::ModuleBytecode(m) => is_in_packages(m.name.as_str(), packages),
            PythonResource::Resource(r) => is_in_packages(r.leaf_package.as_str(), packages),
            PythonResource::DistributionResource(r) => is_in_packages(
                r.package.as_str(),
                packages,
            ),
            PythonResource::ExtensionModuleDynamicLibrary(m) => is_in_packages(
                m.name.as_str(),
                packages,
            ),
            PythonResource::ExtensionModuleStaticallyLinked(m) => is_in_packages(
                m.name.as_str(),
                packages,
            ),
            PythonResource::EggFile(_) => false,
            PythonResource::PathExtension(_) => false,
        };
        let ghost had = out@;
        proof {
            assert(resources@.take(i + 1).drop_last() =~= resources@.take(i as int));
            assert(resources@.take(i + 1).last() == *resource);
            assert(fine == wanted(*resource));
        }
        if fine {
            out.push(resource);
            assert(out@.map_values(|x: &PythonResource| *x) =~= had.map_values(
                |x: &PythonResource| *x,
            ).push(*resource));
        }
        i += 1;
    }
    assert(resources@.take(i as int) =~= resources@);
    out
}

impl StandaloneDistribution {
    /// The resources of `resources` that can be used with this distribution,
    /// in their order.
    pub fn filter_compatible_python_resources<'a>(
        &self,
        resources: &'a Vec<PythonResource>,
    ) -> (r: Result<Vec<&'a PythonResource>, PackagingError>)
        ensures
            r matches Ok(v) && v@.map_values(|x: &PythonResource| *x) == kept(
                resources@,
                |x: PythonResource| compatible(x, self.file_loadable(), self.link_mode),
            ),
    {
        let ghost wanted = |x: PythonResource|
            compatible(x, self.file_loadable(), self.link_mode);
        let loadable = self.is_extension_module_file_loadable();
        let mut out: Vec<&PythonResource> = Vec::new();
        let mut i: usize = 0;
        assert(out@.map_values(|x: &PythonResource| *x) =~= kept(resources@.take(0), wanted));
        while i < resources.len()
            invariant
                i <= resources.len(),
                loadable == self.file_loadable(),
                wanted == |x: PythonResource|
                    compatible(x, self.file_loadable(), self.link_mode),
                out@.map_values(|x: &PythonResource| *x) == kept(resources@.take(i as int), wanted),
            decreases resources.len() - i,
        {
            let resource = &resources[i];
            let fine = match resource {
                PythonResource::ExtensionModuleDynamicLibrary(_) => loadable,
                PythonResource::ExtensionModuleStaticallyLinked(_) => self.link_mode
                    == StandaloneDistributionLinkMode::Static,
                PythonResource::ModuleSource(_) => true,
                PythonResource::ModuleBytecodeRequest(_) => true,
                PythonResource::ModuleBytecode(_) => true,
                PythonResource::Resource(_) => true,
                PythonResource::DistributionResource(_) => true,
                PythonResource::EggFile(_) => false,
                PythonResource::PathExtension(_) => false,
            };
            let ghost had = out@;
            proof {
                assert(resources@.take(i + 1).drop_last() =~= resources@.take(i as int));
                assert(resources@.take(i + 1).last() == *resource);
                assert(fine == wanted(*resource));
            }
            if fine {
                out.push(resource);
                assert(out@.map_values(|x: &PythonResource| *x) =~= had.map_values(
                    |x: &PythonResource| *x,
                ).push(*resource));
            }
            i += 1;
        }
        assert(resources@.take(i as int) =~= resources@);
        Ok(out)
    }
}

/// What it takes to run the interpreter of an installation.
#[derive(Debug, Clone, PartialEq)]
pub struct PythonInvocation {
    /// The program to run.
    pub program: String,
    /// Its arguments.
    pub args: Vec<String>,
    /// The value of `PYTHONPATH` to run it with.
    pub python_path: String,
}

/// The mark of a Windows path that is no plain path.
pub open spec fn unc_prefix() -> Seq<char> {
    "\\\\?\\"@
}

/// What it takes to run the interpreter of the installation at `paths` with
/// `args`: the interpreter is run with the site packages as its module path.
/// It is refused where the path of the site packages is no plain path.
pub fn invoke_python(python_paths: &PythonPaths, args: &Vec<String>) -> (r: Result<
    PythonInvocation,
    PackagingError,
>)
    ensures
        if text_starts_with(python_paths.site_packages@, unc_prefix()) {
            r == Err::<PythonInvocation, PackagingError>(PackagingError::UncSitePackages)
        } else {
            r matches Ok(run) && run.program@ == python_paths.python_exe@ && run.args@.map_values(
                |s: String| s@,
            ) == args@.map_values(|s: String| s@) && run.python_path@
                == python_paths.site_packages@
        },
{
    if str_starts_with(python_paths.site_packages.as_str(), "\\\\?\\") {
        return Err(PackagingError::UncSitePackages);
    }
    let copy = args.clone();
    assert(copy@.map_values(|s: String| s@) =~= args@.map_values(|s: String| s@));
    Ok(
        PythonInvocation {
            program: python_paths.python_exe.clone(),
            args: copy,
            python_path: python_paths.site_packages.clone(),
        },
    )
}

/// The separator of the entries of `PATH`.
pub open spec fn path_separator(windows: bool) -> Seq<char> {
    if windows {
        ";"@
    } else {
        ":"@
    }
}

/// The environment of a virtual environment at `paths`: its executables
/// come first in `PATH`, before what `PATH` held, if it held anything.
pub open spec fn venv_environment(
    paths: PythonPathsView,
    path_env: Option<Seq<char>>,
    windows: bool,
) -> Map<Seq<char>, Seq<char>> {
    map![
        "PATH"@ => match path_env {
            Some(path) => paths.bin_dir + path_separator(windows) + path,
            None => paths.bin_dir,
        },
        "VIRTUAL_ENV"@ => paths.prefix,
        "PYTHONPATH"@ => paths.site_packages,
        "PYOXIDIZER"@ => "1"@,
    ]
}

/// The environment to run programs in the virtual environment at `paths`
/// with. It is refused where the path of the site packages is no plain path.
pub fn prepare_venv(python_paths: &PythonPaths, path_env: Option<&str>, windows: bool) -> (r:
    Result<NameMap<String>, PackagingError>)
    ensures
        if text_starts_with(python_paths.site_packages@, unc_prefix()) {
            r == Err::<NameMap<String>, PackagingError>(PackagingError::UncSitePackages)
        } else {
            r matches Ok(envs) && envs@.map_values(|s: String| s@) == venv_environment(
                python_paths@,
                match path_env {
                    Some(p) => Some(p@),
                    None => None,
                },
                windows,
            )
        },
{
    if str_starts_with(python_paths.site_packages.as_str(), "\\\\?\\") {
        return Err(PackagingError::UncSitePackages);
    }
    let mut envs: NameMap<String> = NameMap::new();
    let separator = if windows {
        ";"
    } else {
        ":"
    };
    let path = match path_env {
        Some(path) => python_paths.bin_dir.clone().concat(separator).concat(path),
        None => python_paths.bin_dir.clone(),
    };
    envs.insert(String::from_str("PATH"), path);
    envs.insert(String::from_str("VIRTUAL_ENV"), python_paths.prefix.clone());
    envs.insert(String::from_str("PYTHONPATH"), python_paths.site_packages.clone());
    envs.insert(String::from_str("PYOXIDIZER"), String::from_str("1"));
    assert(envs@.map_values(|s: String| s@) =~= venv_environment(
        python_paths@,
        match path_env {
            Some(p) => Some(p@),
            None => None,
        },
        windows,
    ));
    Ok(envs)
}

/// Where `pip` of the installation at `paths` is.
pub fn ensure_pip(python_paths: &PythonPaths, windows: bool) -> (r: String)
    ensures
        r@ == joined_path(python_paths.bin_dir@, pip_exe_basename(windows)),
{
    path_join(python_paths.bin_dir.as_str(), pip_exe_name(windows))
}

/// Whether `distutils` has to be patched before packages are built: where
/// the interpreter's library is linked statically.
pub fn resolve_distutils(libpython_link_mode: LibpythonLinkMode) -> (r: bool)
    ensures
        r == (libpython_link_mode == LibpythonLinkMode::Static),
{
    libpython_link_mode == LibpythonLinkMode::Static
}

/// The directory `python` of the distribution at `dist_dir`.
pub fn python_path(dist_dir: &str) -> (r: String)
    ensures
        r@ == joined_path(dist_dir@, "python"@),
{
    path_join(dist_dir, "python")
}

/// The directory below `python_path` that a manifest names under `key`.
fn named_path(pi: &PythonJsonMain, python_path: &str, key: &str) -> (r: Option<String>)
    ensures
        match r {
            Some(p) => pi.python_paths@.contains_key(key@) && p@ == joined_path(
                python_path@,
                pi.python_paths@[key@]@,
            ),
            None => !pi.python_paths@.contains_key(key@),
        },
{
    match pi.python_paths.get(key) {
        Some(p) => Some(path_join(python_path, p.as_str())),
        None => None,
    }
}

/// The directory of the include files that a manifest names, below
/// `python_path`.
pub fn include_path(pi: &PythonJsonMain, python_path: &str) -> (r: Option<String>)
    ensures
        match r {
            Some(p) => pi.python_paths@.contains_key("include"@) && p@ == joined_path(
                python_path@,
                pi.python_paths@["include"@]@,
            ),
            None => !pi.python_paths@.contains_key("include"@),
        },
{
    named_path(pi, python_path, "include")
}

/// The directory of the standard library that a manifest names, below
/// `python_path`.
pub fn stdlib_path(pi: &PythonJsonMain, python_path: &str) -> (r: Option<String>)
    ensures
        match r {
            Some(p) => pi.python_paths@.contains_key("stdlib"@) && p@ == joined_path(
                python_path@,
                pi.python_paths@["stdlib"@]@,
            ),
            None => !pi.python_paths@.contains_key("stdlib"@),
        },
{
    named_path(pi, python_path, "stdlib")
}

/// The variants of extension modules, one after the other, in the order of
/// the modules.
pub open spec fn all_variants(modules: Seq<(Seq<char>, Vec<PythonExtensionModule>)>) -> Seq<
    PythonExtensionModule,
>
    decreases modules.len(),
{
    if modules.len() == 0 {
        Seq::empty()
    } else {
        all_variants(modules.drop_last()) + modules.last().1@
    }
}

impl StandaloneDistribution {
    /// The extension modules of the distribution, in increasing order of
    /// their names, each with all its variants in their order.
    pub fn iter_extension_modules(&self) -> (r: Vec<&PythonExtensionModule>)
        ensures
            r@.map_values(|m: &PythonExtensionModule| *m) == all_variants(
                self.extension_modules.entries(),
            ),
    {
        let modules = self.extension_modules.items();
        let ghost entries = self.extension_modules.entries();
        let mut out: Vec<&PythonExtensionModule> = Vec::new();
        let mut i: usize = 0;
        assert(out@.map_values(|m: &PythonExtensionModule| *m) =~= all_variants(entries.take(0)));
        while i < modules.len()
            invariant
                i <= modules.len(),
                crate::name_map::entries_of(modules@) == entries,
                out@.map_values(|m: &PythonExtensionModule| *m) == all_variants(
                    entries.take(i as int),
                ),
            decreases modules.len() - i,
        {
            let variants = &modules[i].1;
            let ghost start = out@.map_values(|m: &PythonExtensionModule| *m);
            proof {
                assert(entries[i as int] == (modules@[i as int].0@, *variants));
                assert(entries.take(i + 1).drop_last() =~= entries.take(i as int));
                assert(entries.take(i + 1).last() == entries[i as int]);
            }
            let mut j: usize = 0;
            assert(out@.map_values(|m: &PythonExtensionModule| *m) =~= start + variants@.take(0));
            while j < variants.len()
                invariant
                    j <= variants.len(),
                    out@.map_values(|m: &PythonExtensionModule| *m) == start + variants@.take(
                        j as int,
                    ),
                decreases variants.len() - j,
            {
                let ghost had = out@.map_values(|m: &PythonExtensionModule| *m);
                out.push(&variants[j]);
                j += 1;
                proof {
                    assert(out@.map_values(|m: &PythonExtensionModule| *m) =~= had.push(
                        variants@[j - 1],
                    ));
                    assert(out@.map_values(|m: &PythonExtensionModule| *m) =~= start
                        + variants@.take(j as int));
                }
            }
            assert(variants@.take(j as int) =~= variants@);
            i += 1;
        }
        assert(entries.take(i as int) =~= entries);
        out
    }
}

} // verus!
