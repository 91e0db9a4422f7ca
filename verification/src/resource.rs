//! The resources that go into a binary, and where they may be placed.

use vstd::prelude::*;

verus! {

/// The views of a sequence of values.
pub open spec fn views<T: View>(s: Seq<T>) -> Seq<T::V> {
    s.map_values(|x: T| x@)
}

/// The view of a value that may be absent.
pub open spec fn view_of<T: View>(o: Option<T>) -> Option<T::V> {
    match o {
        Some(x) => Some(x@),
        None => None,
    }
}

/// The text of a string that may be absent.
pub open spec fn text_of(o: Option<String>) -> Option<Seq<char>> {
    match o {
        Some(x) => Some(x@),
        None => None,
    }
}

/// Where the bytes of a resource are found: in a file, or in memory.
#[derive(Debug, PartialEq)]
pub enum DataLocation {
    Path(String),
    Memory(Vec<u8>),
}

/// What a `DataLocation` stands for.
pub enum DataLocationView {
    Path(Seq<char>),
    Memory(Seq<u8>),
}

impl View for DataLocation {
    type V = DataLocationView;

    open spec fn view(&self) -> DataLocationView {
        match self {
            DataLocation::Path(p) => DataLocationView::Path(p@),
            DataLocation::Memory(d) => DataLocationView::Memory(d@),
        }
    }
}

impl Clone for DataLocation {
    fn clone(&self) -> (r: Self)
        ensures
            r@ == self@,
    {
        match self {
            DataLocation::Path(p) => DataLocation::Path(p.clone()),
            DataLocation::Memory(d) => DataLocation::Memory(d.clone()),
        }
    }
}

/// A copy of a string that may be absent.
pub fn clone_text(o: &Option<String>) -> (r: Option<String>)
    ensures
        text_of(r) == text_of(*o),
{
    match o {
        Some(s) => Some(s.clone()),
        None => None,
    }
}

/// A copy of a list of locations.
pub fn clone_locations(v: &Vec<DataLocation>) -> (r: Vec<DataLocation>)
    ensures
        views(r@) == views(v@),
{
    let mut out: Vec<DataLocation> = Vec::new();
    let mut i: usize = 0;
    while i < v.len()
        invariant
            i <= v.len(),
            views(out@) == views(v@).take(i as int),
        decreases v.len() - i,
    {
        let ghost before = out@;
        let item = v[i].clone();
        out.push(item);
        i += 1;
        assert(views(out@) =~= views(before).push(item@));
        assert(views(out@) =~= views(v@).take(i as int));
    }
    assert(views(out@) =~= views(v@));
    out
}

/// The kind of place that a resource is loaded from.
#[derive(Debug, Clone, Copy, PartialEq, Eq, Structural)]
pub enum AbstractResourceLocation {
    /// Embedded in the binary.
    InMemory,
    /// In a file beside the binary.
    RelativePath,
}

/// The place that a resource is loaded from.
#[derive(Debug, PartialEq)]
pub enum ConcreteResourceLocation {
    /// Embedded in the binary.
    InMemory,
    /// In a file under the given prefix, relative to the binary.
    RelativePath(String),
}

/// What a `ConcreteResourceLocation` stands for.
pub enum LocationView {
    InMemory,
    RelativePath(Seq<char>),
}

impl LocationView {
    /// The kind of this place.
    pub open spec fn kind(self) -> AbstractResourceLocation {
        match self {
            LocationView::InMemory => AbstractResourceLocation::InMemory,
            LocationView::RelativePath(_) => AbstractResourceLocation::RelativePath,
        }
    }
}

impl View for ConcreteResourceLocation {
    type V = LocationView;

    open spec fn view(&self) -> LocationView {
        match self {
            ConcreteResourceLocation::InMemory => LocationView::InMemory,
            ConcreteResourceLocation::RelativePath(p) => LocationView::RelativePath(p@),
        }
    }
}

impl Clone for ConcreteResourceLocation {
    fn clone(&self) -> (r: Self)
        ensures
            r@ == self@,
    {
        match self {
            ConcreteResourceLocation::InMemory => ConcreteResourceLocation::InMemory,
            ConcreteResourceLocation::RelativePath(p) => ConcreteResourceLocation::RelativePath(
                p.clone(),
            ),
        }
    }
}

impl ConcreteResourceLocation {
    /// The kind of this place.
    pub fn kind(&self) -> (k: AbstractResourceLocation)
        ensures
            k == self@.kind(),
    {
        match self {
            ConcreteResourceLocation::InMemory => AbstractResourceLocation::InMemory,
            ConcreteResourceLocation::RelativePath(_) => AbstractResourceLocation::RelativePath,
        }
    }
}

/// Where the user wants resources placed.
#[derive(Debug, PartialEq)]
pub enum PythonResourcesPolicy {
    /// Everything is embedded in the binary.
    InMemoryOnly,
    /// Everything is a file under the prefix, relative to the binary.
    FilesystemRelativeOnly(String),
    /// Embedded where that works, else a file under the prefix.
    PreferInMemoryFallbackFilesystemRelative(String),
}

/// What a `PythonResourcesPolicy` stands for.
pub enum PolicyView {
    InMemoryOnly,
    FilesystemRelativeOnly(Seq<char>),
    PreferInMemoryFallbackFilesystemRelative(Seq<char>),
}

impl PolicyView {
    /// The kinds of place that the policy admits.
    pub open spec fn locations(self) -> Set<AbstractResourceLocation> {
        match self {
            PolicyView::InMemoryOnly => set![AbstractResourceLocation::InMemory],
            PolicyView::FilesystemRelativeOnly(_) => set![AbstractResourceLocation::RelativePath],
            PolicyView::PreferInMemoryFallbackFilesystemRelative(_) => set![
                AbstractResourceLocation::InMemory,
                AbstractResourceLocation::RelativePath
            ],
        }
    }
}

impl View for PythonResourcesPolicy {
    type V = PolicyView;

    open spec fn view(&self) -> PolicyView {
        match self {
            PythonResourcesPolicy::InMemoryOnly => PolicyView::InMemoryOnly,
            PythonResourcesPolicy::FilesystemRelativeOnly(p) => PolicyView::FilesystemRelativeOnly(
                p@,
            ),
            PythonResourcesPolicy::PreferInMemoryFallbackFilesystemRelative(p) => {
                PolicyView::PreferInMemoryFallbackFilesystemRelative(p@)
            },
        }
    }
}

impl Clone for PythonResourcesPolicy {
    fn clone(&self) -> (r: Self)
        ensures
            r@ == self@,
    {
        match self {
            PythonResourcesPolicy::InMemoryOnly => PythonResourcesPolicy::InMemoryOnly,
            PythonResourcesPolicy::FilesystemRelativeOnly(p) => {
                PythonResourcesPolicy::FilesystemRelativeOnly(p.clone())
            },
            PythonResourcesPolicy::PreferInMemoryFallbackFilesystemRelative(p) => {
                PythonResourcesPolicy::PreferInMemoryFallbackFilesystemRelative(p.clone())
            },
        }
    }
}

impl PythonResourcesPolicy {
    /// The kinds of place that the policy admits, the preferred one first.
    pub fn allowed_locations(&self) -> (r: Vec<AbstractResourceLocation>)
        ensures
            r@.to_set() == self@.locations(),
            r@.no_duplicates(),
    {
        let mut r: Vec<AbstractResourceLocation> = Vec::new();
        match self {
            PythonResourcesPolicy::InMemoryOnly => {
                r.push(AbstractResourceLocation::InMemory);
            },
            PythonResourcesPolicy::FilesystemRelativeOnly(_) => {
                r.push(AbstractResourceLocation::RelativePath);
            },
            PythonResourcesPolicy::PreferInMemoryFallbackFilesystemRelative(_) => {
                r.push(AbstractResourceLocation::InMemory);
                r.push(AbstractResourceLocation::RelativePath);
            },
        }
        proof {
            let s = r@;
            assert forall|k: AbstractResourceLocation|
                s.to_set().contains(k) <==> self@.locations().contains(k) by {
                if self@.locations().contains(k) {
                    if s.len() == 1 {
                        assert(s[0] == k);
                    } else if k == AbstractResourceLocation::InMemory {
                        assert(s[0] == k);
                    } else {
                        assert(s[1] == k);
                    }
                }
            }
            assert(s.to_set() =~= self@.locations());
        }
        r
    }
}

/// How the interpreter's library is linked into the binary.
#[derive(Debug, Clone, Copy, PartialEq, Eq, Structural)]
pub enum LibpythonLinkMode {
    /// The interpreter is linked into the binary itself.
    Static,
    /// The interpreter is a shared library beside the binary.
    Dynamic,
}

/// The license of a component.
#[derive(Debug, PartialEq)]
pub struct LicenseInfo {
    /// SPDX license shortnames.
    pub licenses: Vec<String>,
    /// Suggested filename for the license.
    pub license_filename: String,
    /// Text of the license.
    pub license_text: String,
}

/// What a `LicenseInfo` stands for.
pub struct LicenseInfoView {
    pub licenses: Seq<Seq<char>>,
    pub license_filename: Seq<char>,
    pub license_text: Seq<char>,
}

impl View for LicenseInfo {
    type V = LicenseInfoView;

    open spec fn view(&self) -> LicenseInfoView {
        LicenseInfoView {
            licenses: self.licenses@.map_values(|s: String| s@),
            license_filename: self.license_filename@,
            license_text: self.license_text@,
        }
    }
}

impl Clone for LicenseInfo {
    fn clone(&self) -> (r: Self)
        ensures
            r@ == self@,
    {
        let licenses = self.licenses.clone();
        assert(licenses@.map_values(|s: String| s@) =~= self.licenses@.map_values(
            |s: String| s@,
        ));
        LicenseInfo {
            licenses,
            license_filename: self.license_filename.clone(),
            license_text: self.license_text.clone(),
        }
    }
}

/// A library that an extension module is linked against.
#[derive(Debug, PartialEq)]
pub struct LibraryDependency {
    /// The name that the linker knows the library by.
    pub name: String,
    /// The static form of the library.
    pub static_library: Option<DataLocation>,
    /// The file name that the static form is written as.
    pub static_filename: Option<String>,
    /// The shared form of the library.
    pub dynamic_library: Option<DataLocation>,
    /// The file name that the shared form is written as.
    pub dynamic_filename: Option<String>,
    /// Whether this is a system framework.
    pub framework: bool,
    /// Whether this is a system library.
    pub system: bool,
}

/// What a `LibraryDependency` stands for.
pub struct LibraryDependencyView {
    pub name: Seq<char>,
    pub static_library: Option<DataLocationView>,
    pub static_filename: Option<Seq<char>>,
    pub dynamic_library: Option<DataLocationView>,
    pub dynamic_filename: Option<Seq<char>>,
    pub framework: bool,
    pub system: bool,
}

impl View for LibraryDependency {
    type V = LibraryDependencyView;

    open spec fn view(&self) -> LibraryDependencyView {
        LibraryDependencyView {
            name: self.name@,
            static_library: view_of(self.static_library),
            static_filename: text_of(self.static_filename),
            dynamic_library: view_of(self.dynamic_library),
            dynamic_filename: text_of(self.dynamic_filename),
            framework: self.framework,
            system: self.system,
        }
    }
}

impl Clone for LibraryDependency {
    fn clone(&self) -> (r: Self)
        ensures
            r@ == self@,
    {
        LibraryDependency {
            name: self.name.clone(),
            static_library: self.static_library.clone(),
            static_filename: clone_text(&self.static_filename),
            dynamic_library: self.dynamic_library.clone(),
            dynamic_filename: clone_text(&self.dynamic_filename),
            framework: self.framework,
            system: self.system,
        }
    }
}

/// An extension module: native code that the interpreter imports.
#[derive(Debug, Clone, PartialEq)]
pub struct PythonExtensionModule {
    /// The name of the module that the extension provides.
    pub name: String,
    /// The C function that initialises the module.
    pub init_fn: Option<String>,
    /// The suffix of the file that holds the module.
    pub extension_file_suffix: String,
    /// The module as a shared library.
    pub shared_library: Option<DataLocation>,
    /// The object files that are linked to give the module.
    pub object_file_data: Vec<DataLocation>,
    /// Whether the module is a package.
    pub is_package: bool,
    /// The libraries that the module is linked against.
    pub link_libraries: Vec<LibraryDependency>,
    /// Whether the module comes with the interpreter.
    pub is_stdlib: bool,
    /// Whether the distribution builds the module into the interpreter.
    pub builtin_default: bool,
    /// Whether the interpreter cannot start without the module.
    pub required: bool,
    /// The name of this variant, where a module comes in several.
    pub variant: Option<String>,
    /// The licenses of the module.
    pub licenses: Option<Vec<LicenseInfo>>,
    /// Whether the module and its libraries are in the public domain.
    pub license_public_domain: Option<bool>,
}

/// What a `PythonExtensionModule` stands for.
pub struct ExtensionModuleView {
    pub name: Seq<char>,
    pub init_fn: Option<Seq<char>>,
    pub extension_file_suffix: Seq<char>,
    pub shared_library: Option<DataLocationView>,
    pub object_file_data: Seq<DataLocationView>,
    pub is_package: bool,
    pub link_libraries: Seq<LibraryDependencyView>,
    pub is_stdlib: bool,
    pub builtin_default: bool,
    pub required: bool,
    pub variant: Option<Seq<char>>,
    pub licenses: Option<Seq<LicenseInfoView>>,
    pub license_public_domain: Option<bool>,
}

impl View for PythonExtensionModule {
    type V = ExtensionModuleView;

    open spec fn view(&self) -> ExtensionModuleView {
        ExtensionModuleView {
            name: self.name@,
            init_fn: text_of(self.init_fn),
            extension_file_suffix: self.extension_file_suffix@,
            shared_library: view_of(self.shared_library),
            object_file_data: views(self.object_file_data@),
            is_package: self.is_package,
            link_libraries: views(self.link_libraries@),
            is_stdlib: self.is_stdlib,
            builtin_default: self.builtin_default,
            required: self.required,
            variant: text_of(self.variant),
            licenses: match self.licenses {
                Some(l) => Some(views(l@)),
                None => None,
            },
            license_public_domain: self.license_public_domain,
        }
    }
}

impl ExtensionModuleView {
    /// The names of the libraries that the module needs in shared form, in
    /// the order in which the module lists them.
    pub open spec fn dynamic_library_names(self) -> Seq<Seq<char>> {
        self.link_libraries.filter(|l: LibraryDependencyView| l.dynamic_library is Some).map_values(
            |l: LibraryDependencyView| l.name,
        )
    }
}

/// How far bytecode is optimised.
#[derive(Debug, Clone, Copy, PartialEq, Eq, Structural)]
pub enum BytecodeOptimizationLevel {
    Zero,
    One,
    Two,
}

/// The source of a module.
#[derive(Debug, Clone, PartialEq)]
pub struct PythonModuleSource {
    /// The full name of the module.
    pub name: String,
    /// The source code.
    pub source: DataLocation,
    /// Whether the module is a package.
    pub is_package: bool,
    /// The tag of bytecode files made from the source.
    pub cache_tag: String,
    /// Whether the module comes with the interpreter.
    pub is_stdlib: bool,
    /// Whether the module holds tests.
    pub is_test: bool,
}

/// What a `PythonModuleSource` stands for.
pub struct ModuleSourceView {
    pub name: Seq<char>,
    pub source: DataLocationView,
    pub is_package: bool,
    pub cache_tag: Seq<char>,
    pub is_stdlib: bool,
    pub is_test: bool,
}

impl View for PythonModuleSource {
    type V = ModuleSourceView;

    open spec fn view(&self) -> ModuleSourceView {
        ModuleSourceView {
            name: self.name@,
            source: self.source@,
            is_package: self.is_package,
            cache_tag: self.cache_tag@,
            is_stdlib: self.is_stdlib,
            is_test: self.is_test,
        }
    }
}

impl PythonModuleSource {
    /// The request to compile this source at the given level.
    pub fn as_bytecode_module(&self, optimize_level: BytecodeOptimizationLevel) -> (r:
        PythonModuleBytecodeFromSource)
        ensures
            r@ == (BytecodeRequestView {
                name: self@.name,
                source: self@.source,
                optimize_level,
                is_package: self@.is_package,
                cache_tag: self@.cache_tag,
                is_stdlib: self@.is_stdlib,
                is_test: self@.is_test,
            }),
    {
        PythonModuleBytecodeFromSource {
            name: self.name.clone(),
            source: self.source.clone(),
            optimize_level,
            is_package: self.is_package,
            cache_tag: self.cache_tag.clone(),
            is_stdlib: self.is_stdlib,
            is_test: self.is_test,
        }
    }
}

/// A request for the bytecode of a module, to be compiled from its source.
#[derive(Debug, Clone, PartialEq)]
pub struct PythonModuleBytecodeFromSource {
    /// The full name of the module.
    pub name: String,
    /// The source code.
    pub source: DataLocation,
    /// How far the bytecode is optimised.
    pub optimize_level: BytecodeOptimizationLevel,
    /// Whether the module is a package.
    pub is_package: bool,
    /// The tag of the bytecode file.
    pub cache_tag: String,
    /// Whether the module comes with the interpreter.
    pub is_stdlib: bool,
    /// Whether the module holds tests.
    pub is_test: bool,
}

/// What a `PythonModuleBytecodeFromSource` stands for.
pub struct BytecodeRequestView {
    pub name: Seq<char>,
    pub source: DataLocationView,
    pub optimize_level: BytecodeOptimizationLevel,
    pub is_package: bool,
    pub cache_tag: Seq<char>,
    pub is_stdlib: bool,
    pub is_test: bool,
}

impl View for PythonModuleBytecodeFromSource {
    type V = BytecodeRequestView;

    open spec fn view(&self) -> BytecodeRequestView {
        BytecodeRequestView {
            name: self.name@,
            source: self.source@,
            optimize_level: self.optimize_level,
            is_package: self.is_package,
            cache_tag: self.cache_tag@,
            is_stdlib: self.is_stdlib,
            is_test: self.is_test,
        }
    }
}

/// A data file of a package.
#[derive(Debug, Clone, PartialEq)]
pub struct PythonPackageResource {
    /// The innermost package that the file belongs to.
    pub leaf_package: String,
    /// The path of the file within that package.
    pub relative_name: String,
    /// The content of the file.
    pub data: DataLocation,
    /// Whether the package comes with the interpreter.
    pub is_stdlib: bool,
    /// Whether the package holds tests.
    pub is_test: bool,
}

/// What a `PythonPackageResource` stands for.
pub struct PackageResourceView {
    pub leaf_package: Seq<char>,
    pub relative_name: Seq<char>,
    pub data: DataLocationView,
    pub is_stdlib: bool,
    pub is_test: bool,
}

impl View for PythonPackageResource {
    type V = PackageResourceView;

    open spec fn view(&self) -> PackageResourceView {
        PackageResourceView {
            leaf_package: self.leaf_package@,
            relative_name: self.relative_name@,
            data: self.data@,
            is_stdlib: self.is_stdlib,
            is_test: self.is_test,
        }
    }
}

/// The kind of directory that holds the metadata of an installed package.
#[derive(Debug, Clone, Copy, PartialEq, Eq, Structural)]
pub enum PythonPackageDistributionResourceFlavor {
    /// A `.dist-info` directory.
    DistInfo,
    /// An `.egg-info` directory.
    EggInfo,
}

/// A file of the metadata of an installed package.
#[derive(Debug, Clone, PartialEq)]
pub struct PythonPackageDistributionResource {
    /// The kind of directory that holds the file.
    pub location: PythonPackageDistributionResourceFlavor,
    /// The package that the metadata describes.
    pub package: String,
    /// The version of the package.
    pub version: String,
    /// The name of the file within the directory.
    pub name: String,
    /// The content of the file.
    pub data: DataLocation,
}

/// What a `PythonPackageDistributionResource` stands for.
pub struct DistributionResourceView {
    pub location: PythonPackageDistributionResourceFlavor,
    pub package: Seq<char>,
    pub version: Seq<char>,
    pub name: Seq<char>,
    pub data: DataLocationView,
}

impl View for PythonPackageDistributionResource {
    type V = DistributionResourceView;

    open spec fn view(&self) -> DistributionResourceView {
        DistributionResourceView {
            location: self.location,
            package: self.package@,
            version: self.version@,
            name: self.name@,
            data: self.data@,
        }
    }
}

/// The bytecode of a module.
#[derive(Debug, Clone, PartialEq)]
pub struct PythonModuleBytecode {
    /// The full name of the module.
    pub name: String,
    /// The bytecode.
    pub bytecode: DataLocation,
    /// How far the bytecode is optimised.
    pub optimize_level: BytecodeOptimizationLevel,
    /// Whether the module is a package.
    pub is_package: bool,
    /// The tag of the bytecode file.
    pub cache_tag: String,
    /// Whether the module comes with the interpreter.
    pub is_stdlib: bool,
    /// Whether the module holds tests.
    pub is_test: bool,
}

/// Anything that the interpreter can load or read.
#[derive(Debug, Clone, PartialEq)]
pub enum PythonResource {
    /// The source of a module.
    ModuleSource(PythonModuleSource),
    /// A request for the bytecode of a module.
    ModuleBytecodeRequest(PythonModuleBytecodeFromSource),
    /// The bytecode of a module.
    ModuleBytecode(PythonModuleBytecode),
    /// A data file of a package.
    Resource(PythonPackageResource),
    /// A file of the metadata of a package.
    DistributionResource(PythonPackageDistributionResource),
    /// An extension module as a shared library.
    ExtensionModuleDynamicLibrary(PythonExtensionModule),
    /// An extension module as object files.
    ExtensionModuleStaticallyLinked(PythonExtensionModule),
    /// An egg.
    EggFile(DataLocation),
    /// A path extension file.
    PathExtension(DataLocation),
}

impl PythonResource {
    /// The name by which a resource belongs to a package, where it has one.
    pub open spec fn package_name(self) -> Option<Seq<char>> {
        match self {
            PythonResource::ModuleSource(m) => Some(m.name@),
            PythonResource::ModuleBytecodeRequest(m) => Some(m.name@),
            PythonResource::ModuleBytecode(m) => Some(m.name@),
            PythonResource::Resource(r) => Some(r.leaf_package@),
            PythonResource::DistributionResource(r) => Some(r.package@),
            PythonResource::ExtensionModuleDynamicLibrary(m) => Some(m.name@),
            PythonResource::ExtensionModuleStaticallyLinked(m) => Some(m.name@),
            PythonResource::EggFile(_) => None,
            PythonResource::PathExtension(_) => None,
        }
    }
}

/// The items of `s` of which `wanted` holds, in their order.
pub open spec fn kept<T>(s: Seq<T>, wanted: spec_fn(T) -> bool) -> Seq<T>
    decreases s.len(),
{
    if s.len() == 0 {
        Seq::empty()
    } else if wanted(s.last()) {
        kept(s.drop_last(), wanted).push(s.last())
    } else {
        kept(s.drop_last(), wanted)
    }
}

} // verus!
