//! The resource collector of the `python-packaging` crate, as this library
//! sees it.
//!
//! The collector is kept as it is. What it holds is named here as a map from
//! resource names to records, and each of its methods that the library calls
//! has a contract over that map. None of these contracts is proved: they say
//! what the collector's source shows.

use crate::policy::{ExtensionModuleFilter, PackagingPolicyView, PythonPackagingPolicy};
use crate::resource::{
    AbstractResourceLocation, BytecodeOptimizationLevel, BytecodeRequestView,
    ConcreteResourceLocation, DataLocation, DataLocationView, DistributionResourceView,
    ExtensionModuleView, LibraryDependency, LibraryDependencyView, LicenseInfo, LocationView,
    ModuleSourceView, PackageResourceView, PythonExtensionModule, PythonModuleBytecodeFromSource,
    PythonModuleSource, PythonPackageDistributionResource, PythonPackageDistributionResourceFlavor,
    PythonPackageResource,
};
use crate::string_set::{texts, StringSet};
use crate::text::increasing;
use python_packaging::licensing::LicenseInfo as OutsideLicense;
use python_packaging::location::AbstractResourceLocation as OutsideKind;
use python_packaging::location::ConcreteResourceLocation as OutsidePlace;
use python_packaging::policy::ExtensionModuleFilter as OutsideFilter;
use python_packaging::policy::PythonPackagingPolicy as OutsidePolicy;
use python_packaging::resource as outside;
use python_packaging::resource::DataLocation as OutsideData;
use python_packaging::resource::LibraryDependency as OutsideLibrary;
use python_packaging::resource::PythonExtensionModule as OutsideExtensionModule;
use python_packaging::resource::PythonExtensionModuleVariants as OutsideVariants;
use python_packaging::resource_collection::CompiledResourcesCollection;
use python_packaging::resource_collection::PythonResourceCollector;
use vstd::prelude::*;

verus! {

/// The collector of `python-packaging`. What it holds is named below.
#[verifier::external_type_specification]
#[verifier::external_body]
pub struct ExPythonResourceCollector(PythonResourceCollector);

/// The error of `anyhow`, which `python-packaging` fails with. It is carried
/// to where its text is taken.
#[verifier::external_type_specification]
#[verifier::external_body]
pub struct ExAnyhowError(anyhow::Error);

/// The `DataLocation` of `python-packaging`, carried from where it is made to
/// the call that takes it.
#[verifier::external_type_specification]
#[verifier::external_body]
pub struct ExOutsideData(OutsideData);

/// The `ConcreteResourceLocation` of `python-packaging`, carried from where
/// it is made to the call that takes it.
#[verifier::external_type_specification]
#[verifier::external_body]
pub struct ExOutsidePlace(OutsidePlace);

/// The `LibraryDependency` of `python-packaging`, carried from where it is
/// made to the call that takes it.
#[verifier::external_type_specification]
#[verifier::external_body]
pub struct ExOutsideLibrary(OutsideLibrary);

/// The `LicenseInfo` of `python-packaging`, carried from where it is made to
/// the call that takes it.
#[verifier::external_type_specification]
#[verifier::external_body]
pub struct ExOutsideLicense(OutsideLicense);

/// The `PythonExtensionModule` of `python-packaging`, carried from where it
/// is made to the call that takes it.
#[verifier::external_type_specification]
#[verifier::external_body]
pub struct ExOutsideExtensionModule(OutsideExtensionModule);

/// The `CompiledResourcesCollection` of `python-packaging`: the resources of
/// a collector after compilation. What it holds is named below.
#[verifier::external_type_specification]
#[verifier::external_body]
pub struct ExCompiledResourcesCollection<'a>(CompiledResourcesCollection<'a>);

/// The `PythonPackagingPolicy` of `python-packaging`, carried from where it
/// is made to the call that takes it.
#[verifier::external_type_specification]
#[verifier::external_body]
pub struct ExOutsidePolicy(OutsidePolicy);

/// Where the bytecode of a module comes from.
pub enum BytecodeProviderView {
    /// The bytecode itself.
    Provided(DataLocationView),
    /// The source that it is compiled from.
    FromSource(DataLocationView),
}

/// What the collector holds under one name: one field for each thing that can
/// be placed under the name, in memory or below a path, and the flags that say
/// what the name is.
pub struct ResourceRecord {
    pub is_package: bool,
    pub is_namespace_package: bool,
    pub in_memory_source: Option<DataLocationView>,
    pub in_memory_bytecode: Option<BytecodeProviderView>,
    pub in_memory_bytecode_opt1: Option<BytecodeProviderView>,
    pub in_memory_bytecode_opt2: Option<BytecodeProviderView>,
    pub in_memory_extension_module_shared_library: Option<DataLocationView>,
    pub in_memory_resources: Option<Map<Seq<char>, DataLocationView>>,
    pub in_memory_distribution_resources: Option<Map<Seq<char>, DataLocationView>>,
    pub in_memory_shared_library: Option<DataLocationView>,
    pub shared_library_dependency_names: Option<Seq<Seq<char>>>,
    /// The prefix and the source.
    pub relative_path_module_source: Option<(Seq<char>, DataLocationView)>,
    /// The prefix, the cache tag and the bytecode.
    pub relative_path_bytecode: Option<(Seq<char>, Seq<char>, BytecodeProviderView)>,
    pub relative_path_bytecode_opt1: Option<(Seq<char>, Seq<char>, BytecodeProviderView)>,
    pub relative_path_bytecode_opt2: Option<(Seq<char>, Seq<char>, BytecodeProviderView)>,
    /// The path of the file and its content.
    pub relative_path_extension_module_shared_library: Option<(Seq<char>, DataLocationView)>,
    /// For each file name, the path of the file and its content.
    pub relative_path_package_resources: Option<Map<Seq<char>, (Seq<char>, DataLocationView)>>,
    pub relative_path_distribution_resources: Option<
        Map<Seq<char>, (Seq<char>, DataLocationView)>,
    >,
    /// The prefix, the file name and the content.
    pub relative_path_shared_library: Option<(Seq<char>, Seq<char>, DataLocationView)>,
    pub is_module: bool,
    pub is_builtin_extension_module: bool,
    pub is_frozen_module: bool,
    pub is_extension_module: bool,
    pub is_shared_library: bool,
}

impl ResourceRecord {
    /// The record of a name under which nothing was added yet.
    pub open spec fn empty() -> ResourceRecord {
        ResourceRecord {
            is_package: false,
            is_namespace_package: false,
            in_memory_source: None,
            in_memory_bytecode: None,
            in_memory_bytecode_opt1: None,
            in_memory_bytecode_opt2: None,
            in_memory_extension_module_shared_library: None,
            in_memory_resources: None,
            in_memory_distribution_resources: None,
            in_memory_shared_library: None,
            shared_library_dependency_names: None,
            relative_path_module_source: None,
            relative_path_bytecode: None,
            relative_path_bytecode_opt1: None,
            relative_path_bytecode_opt2: None,
            relative_path_extension_module_shared_library: None,
            relative_path_package_resources: None,
            relative_path_distribution_resources: None,
            relative_path_shared_library: None,
            is_module: false,
            is_builtin_extension_module: false,
            is_frozen_module: false,
            is_extension_module: false,
            is_shared_library: false,
        }
    }

    /// Whether bytes are embedded in the binary under this name.
    pub open spec fn placed_in_memory(self) -> bool {
        ||| self.in_memory_source is Some
        ||| self.in_memory_bytecode is Some
        ||| self.in_memory_bytecode_opt1 is Some
        ||| self.in_memory_bytecode_opt2 is Some
        ||| self.in_memory_extension_module_shared_library is Some
        ||| self.in_memory_resources is Some
        ||| self.in_memory_distribution_resources is Some
        ||| self.in_memory_shared_library is Some
    }

    /// Whether files are installed beside the binary under this name.
    pub open spec fn placed_on_disk(self) -> bool {
        ||| self.relative_path_module_source is Some
        ||| self.relative_path_bytecode is Some
        ||| self.relative_path_bytecode_opt1 is Some
        ||| self.relative_path_bytecode_opt2 is Some
        ||| self.relative_path_extension_module_shared_library is Some
        ||| self.relative_path_package_resources is Some
        ||| self.relative_path_distribution_resources is Some
        ||| self.relative_path_shared_library is Some
    }
}

/// The records of a collection.
pub type Records = Map<Seq<char>, ResourceRecord>;

/// A collection without records.
pub open spec fn no_records() -> Records {
    Map::empty()
}

/// The record under `name`; the empty one where there is none yet.
pub open spec fn record_at(m: Records, name: Seq<char>) -> ResourceRecord {
    if m.contains_key(name) {
        m[name]
    } else {
        ResourceRecord::empty()
    }
}

/// The files of a record that may not exist yet.
pub open spec fn files_of<V>(o: Option<Map<Seq<char>, V>>) -> Map<Seq<char>, V> {
    match o {
        Some(m) => m,
        None => Map::empty(),
    }
}

/// The record after the source of a module was placed.
pub open spec fn with_module_source(
    old: ResourceRecord,
    module: ModuleSourceView,
    location: LocationView,
) -> ResourceRecord {
    let r = ResourceRecord { is_module: true, is_package: module.is_package, ..old };
    match location {
        LocationView::InMemory => ResourceRecord { in_memory_source: Some(module.source), ..r },
        LocationView::RelativePath(prefix) => ResourceRecord {
            relative_path_module_source: Some((prefix, module.source)),
            ..r
        },
    }
}

/// The record after a request for bytecode was placed.
pub open spec fn with_bytecode_request(
    old: ResourceRecord,
    module: BytecodeRequestView,
    location: LocationView,
) -> ResourceRecord {
    let r = ResourceRecord { is_module: true, is_package: module.is_package, ..old };
    let code = BytecodeProviderView::FromSource(module.source);
    match location {
        LocationView::InMemory => match module.optimize_level {
            BytecodeOptimizationLevel::Zero => ResourceRecord {
                in_memory_bytecode: Some(code),
                ..r
            },
            BytecodeOptimizationLevel::One => ResourceRecord {
                in_memory_bytecode_opt1: Some(code),
                ..r
            },
            BytecodeOptimizationLevel::Two => ResourceRecord {
                in_memory_bytecode_opt2: Some(code),
                ..r
            },
        },
        LocationView::RelativePath(prefix) => match module.optimize_level {
            BytecodeOptimizationLevel::Zero => ResourceRecord {
                relative_path_bytecode: Some((prefix, module.cache_tag, code)),
                ..r
            },
            BytecodeOptimizationLevel::One => ResourceRecord {
                relative_path_bytecode_opt1: Some((prefix, module.cache_tag, code)),
                ..r
            },
            BytecodeOptimizationLevel::Two => ResourceRecord {
                relative_path_bytecode_opt2: Some((prefix, module.cache_tag, code)),
                ..r
            },
        },
    }
}

/// The record of a package after one of its data files was placed; `path` is
/// where the file goes when it is placed on disk.
pub open spec fn with_package_resource(
    old: ResourceRecord,
    resource: PackageResourceView,
    location: LocationView,
    path: Seq<char>,
) -> ResourceRecord {
    let r = ResourceRecord { is_module: true, is_package: true, ..old };
    match location {
        LocationView::InMemory => ResourceRecord {
            in_memory_resources: Some(
                files_of(old.in_memory_resources).insert(resource.relative_name, resource.data),
            ),
            ..r
        },
        LocationView::RelativePath(_) => ResourceRecord {
            relative_path_package_resources: Some(
                files_of(old.relative_path_package_resources).insert(
                    resource.relative_name,
                    (path, resource.data),
                ),
            ),
            ..r
        },
    }
}

/// The record of a package after a file of its metadata was placed; `path` is
/// where the file goes when it is placed on disk.
pub open spec fn with_distribution_resource(
    old: ResourceRecord,
    resource: DistributionResourceView,
    location: LocationView,
    path: Seq<char>,
) -> ResourceRecord {
    let r = ResourceRecord { is_module: true, is_package: true, ..old };
    match location {
        LocationView::InMemory => ResourceRecord {
            in_memory_distribution_resources: Some(
                files_of(old.in_memory_distribution_resources).insert(
                    resource.name,
                    resource.data,
                ),
            ),
            ..r
        },
        LocationView::RelativePath(_) => ResourceRecord {
            relative_path_distribution_resources: Some(
                files_of(old.relative_path_distribution_resources).insert(
                    resource.name,
                    (path, resource.data),
                ),
            ),
            ..r
        },
    }
}

/// The record after an extension module was placed as a shared library with
/// the content `bytes`; `path` is where the file goes when it is placed on
/// disk.
pub open spec fn with_extension_module(
    old: ResourceRecord,
    module: ExtensionModuleView,
    location: LocationView,
    path: Seq<char>,
    bytes: Seq<u8>,
) -> ResourceRecord {
    let r = ResourceRecord {
        is_extension_module: true,
        is_package: old.is_package || module.is_package,
        shared_library_dependency_names: Some(module.dynamic_library_names()),
        ..old
    };
    match location {
        LocationView::InMemory => ResourceRecord {
            in_memory_extension_module_shared_library: Some(DataLocationView::Memory(bytes)),
            ..r
        },
        LocationView::RelativePath(_) => ResourceRecord {
            relative_path_extension_module_shared_library: Some(
                (path, DataLocationView::Memory(bytes)),
            ),
            ..r
        },
    }
}

/// The records after the shared form of each library in `links` that has one
/// was placed in memory, in the order of `links`.
pub open spec fn with_libraries_in_memory(m: Records, links: Seq<LibraryDependencyView>) -> Records
    decreases links.len(),
{
    if links.len() == 0 {
        m
    } else {
        let before = with_libraries_in_memory(m, links.drop_last());
        let link = links.last();
        if link.dynamic_library is Some {
            before.insert(
                link.name,
                ResourceRecord {
                    is_shared_library: true,
                    in_memory_shared_library: link.dynamic_library,
                    ..record_at(before, link.name)
                },
            )
        } else {
            before
        }
    }
}

/// The content that a record holds for an extension module at the kind of
/// place that `location` is.
pub open spec fn extension_module_bytes(r: ResourceRecord, location: LocationView) -> Seq<u8> {
    match location {
        LocationView::InMemory => match r.in_memory_extension_module_shared_library {
            Some(DataLocationView::Memory(b)) => b,
            _ => Seq::empty(),
        },
        LocationView::RelativePath(_) => match r.relative_path_extension_module_shared_library {
            Some((_, DataLocationView::Memory(b))) => b,
            _ => Seq::empty(),
        },
    }
}

/// The prefix of a place on disk; empty for the place in memory.
pub open spec fn prefix_of(location: LocationView) -> Seq<char> {
    match location {
        LocationView::InMemory => Seq::empty(),
        LocationView::RelativePath(p) => p,
    }
}

/// Whether the records under every name but those of `names` are the same in
/// `a` and in `b`.
pub open spec fn same_but(a: Records, b: Records, names: Set<Seq<char>>) -> bool {
    forall|n: Seq<char>|
        !names.contains(n) ==> (a.contains_key(n) == b.contains_key(n) && (a.contains_key(n)
            ==> a[n] == b[n]))
}

/// The records after the shared form of each library in `links` that has one
/// was placed on disk, in the directory `dir`, in the order of `links`.
pub open spec fn with_libraries_on_disk(
    m: Records,
    links: Seq<LibraryDependencyView>,
    dir: Seq<char>,
) -> Records
    decreases links.len(),
{
    if links.len() == 0 {
        m
    } else {
        let before = with_libraries_on_disk(m, links.drop_last(), dir);
        let link = links.last();
        match (link.dynamic_library, link.dynamic_filename) {
            (Some(data), Some(filename)) => before.insert(
                link.name,
                ResourceRecord {
                    is_shared_library: true,
                    relative_path_shared_library: Some((dir, filename, data)),
                    ..record_at(before, link.name)
                },
            ),
            _ => before,
        }
    }
}

/// Whether one of the libraries has a shared form.
pub open spec fn some_shared(links: Seq<LibraryDependencyView>) -> bool {
    exists|i: int| 0 <= i < links.len() && (#[trigger] links[i]).dynamic_library is Some
}

/// Whether every library that has a shared form has a file name for it.
pub open spec fn shared_named(links: Seq<LibraryDependencyView>) -> bool {
    forall|i: int|
        0 <= i < links.len() && (#[trigger] links[i]).dynamic_library is Some
            ==> links[i].dynamic_filename is Some
}

/// The text of a directory; empty where there is none.
pub open spec fn directory_text(dir: Option<Seq<char>>) -> Seq<char> {
    match dir {
        Some(d) => d,
        None => Seq::empty(),
    }
}

/// Whether the libraries that an extension module needs in shared form can
/// be placed on disk beside it: each has a file name, and the file of the
/// module has a directory, `dir`, if one is needed.
pub open spec fn libraries_placeable(module: ExtensionModuleView, dir: Option<Seq<char>>) -> bool {
    &&& shared_named(module.link_libraries)
    &&& some_shared(module.link_libraries) ==> dir is Some
}

/// What holds of the records before and after an extension module was placed
/// as a shared library: the libraries that it needs in shared form are placed
/// first, in memory or in the directory of the module's file, and then the
/// module. `path` is the path of the module's file and `dir` its directory.
pub open spec fn extension_module_added(
    before: Records,
    after: Records,
    module: ExtensionModuleView,
    location: LocationView,
    path: Seq<char>,
    dir: Option<Seq<char>>,
) -> bool {
    let bytes = extension_module_bytes(record_at(after, module.name), location);
    let libs = match location {
        LocationView::InMemory => with_libraries_in_memory(before, module.link_libraries),
        LocationView::RelativePath(_) => with_libraries_on_disk(
            before,
            module.link_libraries,
            directory_text(dir),
        ),
    };
    &&& module.shared_library is Some
    &&& module.shared_library matches Some(DataLocationView::Memory(d)) ==> bytes == d
    &&& location is RelativePath ==> libraries_placeable(module, dir)
    &&& after == libs.insert(
        module.name,
        with_extension_module(record_at(libs, module.name), module, location, path, bytes),
    )
}

/// What holds of the records before and after an extension module was refused.
/// In memory nothing has changed. On disk, records of libraries that the
/// module needs in shared form may have been added or changed, but not in
/// what they hold of an extension module.
pub open spec fn extension_module_refused(
    before: Records,
    after: Records,
    module: ExtensionModuleView,
    location: LocationView,
) -> bool {
    &&& location is InMemory ==> after == before
    &&& location is RelativePath ==> {
        &&& same_but(before, after, module.dynamic_library_names().to_set())
        &&& record_at(after, module.name).relative_path_extension_module_shared_library
            == record_at(before, module.name).relative_path_extension_module_shared_library
        &&& record_at(after, module.name).in_memory_extension_module_shared_library == record_at(
            before,
            module.name,
        ).in_memory_extension_module_shared_library
    }
}

/// Whether the collector owes success when this extension module is placed at
/// `location`: the place is admitted, the module's shared library is held in
/// memory, and, on disk, the libraries that the module needs in shared form
/// can be placed beside it.
pub open spec fn extension_module_accepted(
    locations: Set<AbstractResourceLocation>,
    extension_locations: Set<AbstractResourceLocation>,
    module: ExtensionModuleView,
    location: LocationView,
    dir: Option<Seq<char>>,
) -> bool {
    &&& locations.contains(location.kind())
    &&& extension_locations.contains(location.kind())
    &&& module.shared_library matches Some(DataLocationView::Memory(_))
    &&& location is RelativePath ==> libraries_placeable(module, dir)
}

/// Whether the collector refuses, whatever else holds, to place this
/// extension module at `location`.
pub open spec fn extension_module_rejected(
    locations: Set<AbstractResourceLocation>,
    extension_locations: Set<AbstractResourceLocation>,
    module: ExtensionModuleView,
    location: LocationView,
) -> bool {
    ||| !locations.contains(location.kind())
    ||| !extension_locations.contains(location.kind())
    ||| module.shared_library is None
}

/// The records that a collector holds, by name.
pub uninterp spec fn collector_records(c: PythonResourceCollector) -> Records;

/// The tag of bytecode files that a collector was made with.
pub uninterp spec fn collector_cache_tag(c: PythonResourceCollector) -> Seq<char>;

/// The kinds of place at which a collector admits resources.
pub uninterp spec fn collector_locations(c: PythonResourceCollector) -> Set<
    AbstractResourceLocation,
>;

/// The kinds of place at which a collector admits extension modules, beside
/// the former.
pub uninterp spec fn collector_extension_locations(c: PythonResourceCollector) -> Set<
    AbstractResourceLocation,
>;

/// The path at which `PythonExtensionModule::resolve_path` puts the file of the
/// extension module `name` with the file suffix `suffix` below `prefix`, as
/// text, on the platform that the library is built for.
pub uninterp spec fn extension_module_path(
    prefix: Seq<char>,
    name: Seq<char>,
    suffix: Seq<char>,
) -> Seq<char>;

/// The directory of the file of the extension module `name` with the file
/// suffix `suffix` below `prefix`: what `Path::parent` gives for the path
/// that `PythonExtensionModule::resolve_path` makes, as text; none where that
/// path has no parent.
pub uninterp spec fn extension_module_directory(
    prefix: Seq<char>,
    name: Seq<char>,
    suffix: Seq<char>,
) -> Option<Seq<char>>;

/// The path at which `PythonPackageResource::resolve_path` puts the file
/// `relative_name` of the package `leaf_package` below `prefix`, as text, on
/// the platform that the library is built for.
pub uninterp spec fn package_resource_path(
    prefix: Seq<char>,
    leaf_package: Seq<char>,
    relative_name: Seq<char>,
) -> Seq<char>;

/// The path at which `PythonPackageDistributionResource::resolve_path` puts
/// the metadata file `name` of `package` in `version` below `prefix`, in a
/// directory of the given kind, as text, on the platform that the library is
/// built for.
pub uninterp spec fn distribution_resource_path(
    prefix: Seq<char>,
    location: PythonPackageDistributionResourceFlavor,
    package: Seq<char>,
    version: Seq<char>,
    name: Seq<char>,
) -> Seq<char>;

/// What a collector tells of one record.
#[derive(Debug, Clone, Copy, PartialEq, Eq)]
pub struct ResourceSummary {
    pub is_package: bool,
    pub is_module: bool,
    pub is_builtin_extension_module: bool,
    pub is_extension_module: bool,
    pub is_shared_library: bool,
    /// Whether the source of the module is embedded.
    pub in_memory_source: bool,
    /// Whether the source of the module is installed as a file.
    pub relative_path_source: bool,
    /// Whether the extension module is embedded as a shared library.
    pub in_memory_extension_module: bool,
    /// Whether the extension module is installed as a shared library file.
    pub relative_path_extension_module: bool,
    /// Whether the shared library is embedded.
    pub in_memory_shared_library: bool,
    /// Whether the shared library is installed as a file.
    pub relative_path_shared_library: bool,
}

/// The summary of a record.
pub open spec fn summary_of(r: ResourceRecord) -> ResourceSummary {
    ResourceSummary {
        is_package: r.is_package,
        is_module: r.is_module,
        is_builtin_extension_module: r.is_builtin_extension_module,
        is_extension_module: r.is_extension_module,
        is_shared_library: r.is_shared_library,
        in_memory_source: r.in_memory_source is Some,
        relative_path_source: r.relative_path_module_source is Some,
        in_memory_extension_module: r.in_memory_extension_module_shared_library is Some,
        relative_path_extension_module: r.relative_path_extension_module_shared_library is Some,
        in_memory_shared_library: r.in_memory_shared_library is Some,
        relative_path_shared_library: r.relative_path_shared_library is Some,
    }
}

/// Makes the `DataLocation` of `python-packaging` that holds what `d` holds.
#[verifier::external_body]
pub(crate) fn outside_data(d: &DataLocation) -> OutsideData {
    match d {
        DataLocation::Path(p) => OutsideData::Path(p.into()),
        DataLocation::Memory(b) => OutsideData::Memory(b.clone()),
    }
}

/// Makes the `ConcreteResourceLocation` of `python-packaging` that holds what
/// `l` holds.
#[verifier::external_body]
pub(crate) fn outside_location(l: &ConcreteResourceLocation) -> OutsidePlace {
    match l {
        ConcreteResourceLocation::InMemory => OutsidePlace::InMemory,
        ConcreteResourceLocation::RelativePath(p) => OutsidePlace::RelativePath(p.clone()),
    }
}

/// Makes the `LibraryDependency` of `python-packaging` that holds what `l`
/// holds.
#[verifier::external_body]
pub(crate) fn outside_library(l: &LibraryDependency) -> OutsideLibrary {
    OutsideLibrary {
        name: l.name.clone(),
        static_library: l.static_library.as_ref().map(outside_data),
        static_filename: l.static_filename.as_ref().map(|f| f.into()),
        dynamic_library: l.dynamic_library.as_ref().map(outside_data),
        dynamic_filename: l.dynamic_filename.as_ref().map(|f| f.into()),
        framework: l.framework,
        system: l.system,
    }
}

/// Makes the `LicenseInfo` of `python-packaging` that holds what `l` holds.
#[verifier::external_body]
pub(crate) fn outside_license(l: &LicenseInfo) -> OutsideLicense {
    OutsideLicense {
        licenses: l.licenses.clone(),
        license_filename: l.license_filename.clone(),
        license_text: l.license_text.clone(),
    }
}

/// Makes the `PythonExtensionModule` of `python-packaging` that holds what
/// `m` holds.
#[verifier::external_body]
pub(crate) fn outside_extension_module(m: &PythonExtensionModule) -> OutsideExtensionModule {
    OutsideExtensionModule {
        name: m.name.clone(), init_fn: m.init_fn.clone(),
        extension_file_suffix: m.extension_file_suffix.clone(),
        shared_library: m.shared_library.as_ref().map(outside_data),
        object_file_data: m.object_file_data.iter().map(outside_data).collect(),
        is_package: m.is_package,
        link_libraries: m.link_libraries.iter().map(outside_library).collect(),
        is_stdlib: m.is_stdlib, builtin_default: m.builtin_default, required: m.required,
        variant: m.variant.clone(),
        licenses: m.licenses.as_ref().map(|v| v.iter().map(outside_license).collect()),
        license_public_domain: m.license_public_domain,
    }
}

/// The text of an error of an outside crate.
#[verifier::external_body]
pub(crate) fn error_text(e: &anyhow::Error) -> String {
    format!("{:#}", e)
}

/// `PythonResourceCollector::new`: a collector that holds nothing, admits
/// resources at the kinds of place in `allowed`, and extension modules at
/// those in `allowed_extension`. It keeps the tag of bytecode files that it
/// is given; no method changes it.
#[verifier::external_body]
pub(crate) fn collector_new(
    allowed: &Vec<AbstractResourceLocation>,
    allowed_extension: &Vec<AbstractResourceLocation>,
    allow_new_builtin: bool,
    cache_tag: &str,
) -> (made: PythonResourceCollector)
    ensures
        collector_records(made) == no_records(),
        collector_locations(made) == allowed@.to_set(),
        collector_extension_locations(made) == allowed_extension@.to_set(),
        collector_cache_tag(made) == cache_tag@,
{
    let kind = |k: &AbstractResourceLocation| match k {
        AbstractResourceLocation::InMemory => OutsideKind::InMemory,
        AbstractResourceLocation::RelativePath => OutsideKind::RelativePath,
    };
    PythonResourceCollector::new(
        allowed.iter().map(kind).collect(),
        allowed_extension.iter().map(kind).collect(),
        allow_new_builtin,
        cache_tag,
    )
}

/// `Clone::clone` of `PythonResourceCollector`, which the crate derives: the
/// copy holds and admits what the collector does.
pub assume_specification[ <PythonResourceCollector as Clone>::clone ](
    c: &PythonResourceCollector,
) -> (r: PythonResourceCollector)
    ensures
        collector_records(r) == collector_records(*c),
        collector_locations(r) == collector_locations(*c),
        collector_extension_locations(r) == collector_extension_locations(*c),
        collector_cache_tag(r) == collector_cache_tag(*c),
;

/// `PythonResourceCollector::add_python_module_source`: refused where the
/// collector does not admit the kind of place; else the source is set in the
/// module's record, in place of one set before at that kind of place.
#[verifier::external_body]
pub(crate) fn collector_add_module_source(
    c: &mut PythonResourceCollector,
    module: &PythonModuleSource,
    location: &ConcreteResourceLocation,
) -> (r: Result<(), anyhow::Error>)
    ensures
        collector_locations(*final(c)) == collector_locations(*old(c)),
        collector_extension_locations(*final(c)) == collector_extension_locations(*old(c)),
        collector_cache_tag(*final(c)) == collector_cache_tag(*old(c)),
        r is Ok == collector_locations(*old(c)).contains(location@.kind()),
        r is Err ==> collector_records(*final(c)) == collector_records(*old(c)),
        r is Ok ==> collector_records(*final(c)) == collector_records(*old(c)).insert(
            module@.name,
            with_module_source(record_at(collector_records(*old(c)), module@.name), module@, location@),
        ),
{
    let m = outside::PythonModuleSource {
        name: module.name.clone(),
        source: outside_data(&module.source),
        is_package: module.is_package,
        cache_tag: module.cache_tag.clone(),
        is_stdlib: module.is_stdlib,
        is_test: module.is_test,
    };
    c.add_python_module_source(&m, &outside_location(location))
}

/// `PythonResourceCollector::add_python_module_bytecode_from_source`: refused
/// where the collector does not admit the kind of place; else the request is
/// set in the module's record, at the place and under the level asked for.
#[verifier::external_body]
pub(crate) fn collector_add_bytecode_request(
    c: &mut PythonResourceCollector,
    module: &PythonModuleBytecodeFromSource,
    location: &ConcreteResourceLocation,
) -> (r: Result<(), anyhow::Error>)
    ensures
        collector_locations(*final(c)) == collector_locations(*old(c)),
        collector_extension_locations(*final(c)) == collector_extension_locations(*old(c)),
        collector_cache_tag(*final(c)) == collector_cache_tag(*old(c)),
        r is Ok == collector_locations(*old(c)).contains(location@.kind()),
        r is Err ==> collector_records(*final(c)) == collector_records(*old(c)),
        r is Ok ==> collector_records(*final(c)) == collector_records(*old(c)).insert(
            module@.name,
            with_bytecode_request(
                record_at(collector_records(*old(c)), module@.name),
                module@,
                location@,
            ),
        ),
{
    let m = outside::PythonModuleBytecodeFromSource {
        name: module.name.clone(), source: outside_data(&module.source),
        optimize_level: match module.optimize_level {
            BytecodeOptimizationLevel::Zero => outside::BytecodeOptimizationLevel::Zero,
            BytecodeOptimizationLevel::One => outside::BytecodeOptimizationLevel::One,
            BytecodeOptimizationLevel::Two => outside::BytecodeOptimizationLevel::Two,
        },
        is_package: module.is_package, cache_tag: module.cache_tag.clone(),
        is_stdlib: module.is_stdlib, is_test: module.is_test,
    };
    c.add_python_module_bytecode_from_source(&m, &outside_location(location))
}

/// `PythonResourceCollector::add_python_package_resource`: refused where the
/// collector does not admit the kind of place; else the file is set, under its
/// relative name, in the record of its package, which becomes a package.
#[verifier::external_body]
pub(crate) fn collector_add_package_resource(
    c: &mut PythonResourceCollector,
    resource: &PythonPackageResource,
    location: &ConcreteResourceLocation,
) -> (r: Result<(), anyhow::Error>)
    ensures
        collector_locations(*final(c)) == collector_locations(*old(c)),
        collector_extension_locations(*final(c)) == collector_extension_locations(*old(c)),
        collector_cache_tag(*final(c)) == collector_cache_tag(*old(c)),
        r is Ok == collector_locations(*old(c)).contains(location@.kind()),
        r is Err ==> collector_records(*final(c)) == collector_records(*old(c)),
        r is Ok ==> collector_records(*final(c)) == collector_records(*old(c)).insert(
            resource@.leaf_package,
            with_package_resource(
                record_at(collector_records(*old(c)), resource@.leaf_package),
                resource@,
                location@,
                package_resource_path(
                    prefix_of(location@),
                    resource@.leaf_package,
                    resource@.relative_name,
                ),
            ),
        ),
{
    let p = outside::PythonPackageResource {
        leaf_package: resource.leaf_package.clone(),
        relative_name: resource.relative_name.clone(),
        data: outside_data(&resource.data),
        is_stdlib: resource.is_stdlib,
        is_test: resource.is_test,
    };
    c.add_python_package_resource(&p, &outside_location(location))
}

/// `PythonResourceCollector::add_python_package_distribution_resource`:
/// refused where the collector does not admit the kind of place; else the file
/// is set, under its name, in the record of its package, which becomes a
/// package.
#[verifier::external_body]
pub(crate) fn collector_add_distribution_resource(
    c: &mut PythonResourceCollector,
    resource: &PythonPackageDistributionResource,
    location: &ConcreteResourceLocation,
) -> (r: Result<(), anyhow::Error>)
    ensures
        collector_locations(*final(c)) == collector_locations(*old(c)),
        collector_extension_locations(*final(c)) == collector_extension_locations(*old(c)),
        collector_cache_tag(*final(c)) == collector_cache_tag(*old(c)),
        r is Ok == collector_locations(*old(c)).contains(location@.kind()),
        r is Err ==> collector_records(*final(c)) == collector_records(*old(c)),
        r is Ok ==> collector_records(*final(c)) == collector_records(*old(c)).insert(
            resource@.package,
            with_distribution_resource(
                record_at(collector_records(*old(c)), resource@.package),
                resource@,
                location@,
                distribution_resource_path(
                    prefix_of(location@),
                    resource@.location,
                    resource@.package,
                    resource@.version,
                    resource@.name,
                ),
            ),
        ),
{
    let p = outside::PythonPackageDistributionResource {
        location: match resource.location {
            PythonPackageDistributionResourceFlavor::DistInfo => outside::PythonPackageDistributionResourceFlavor::DistInfo,
            PythonPackageDistributionResourceFlavor::EggInfo => outside::PythonPackageDistributionResourceFlavor::EggInfo,
        },
        package: resource.package.clone(), version: resource.version.clone(),
        name: resource.name.clone(), data: outside_data(&resource.data),
    };
    c.add_python_package_distribution_resource(&p, &outside_location(location))
}

/// `PythonResourceCollector::add_python_extension_module`: places an extension
/// module as a shared library, after the libraries that it needs in shared
/// form. It is refused where the collector does not admit the kind of place,
/// for resources or for extension modules, and where the module has no shared
/// library. Where the shared library is a file, the file is read, so the
/// outcome and the content depend on the disk. A module whose shared library
/// is held in memory is accepted wherever the collector admits the place; on
/// disk, if its libraries can be placed beside it.
#[verifier::external_body]
pub(crate) fn collector_add_extension_module(
    c: &mut PythonResourceCollector,
    module: &PythonExtensionModule,
    location: &ConcreteResourceLocation,
) -> (r: Result<(), anyhow::Error>)
    ensures
        collector_locations(*final(c)) == collector_locations(*old(c)),
        collector_extension_locations(*final(c)) == collector_extension_locations(*old(c)),
        collector_cache_tag(*final(c)) == collector_cache_tag(*old(c)),
        extension_module_rejected(
            collector_locations(*old(c)),
            collector_extension_locations(*old(c)),
            module@,
            location@,
        ) ==> r is Err && collector_records(*final(c)) == collector_records(*old(c)),
        extension_module_accepted(
            collector_locations(*old(c)),
            collector_extension_locations(*old(c)),
            module@,
            location@,
            extension_module_directory(
                prefix_of(location@),
                module@.name,
                module@.extension_file_suffix,
            ),
        ) ==> r is Ok,
        r is Ok ==> extension_module_added(
            collector_records(*old(c)),
            collector_records(*final(c)),
            module@,
            location@,
            extension_module_path(
                prefix_of(location@),
                module@.name,
                module@.extension_file_suffix,
            ),
            extension_module_directory(
                prefix_of(location@),
                module@.name,
                module@.extension_file_suffix,
            ),
        ),
        r is Err ==> extension_module_refused(
            collector_records(*old(c)),
            collector_records(*final(c)),
            module@,
            location@,
        ),
{
    c.add_python_extension_module(&outside_extension_module(module), &outside_location(location))
}

/// `PythonResourceCollector::filter_resources_mut`, with the filter that keeps
/// a record where `keep` holds its name: the records under the other names
/// are dropped.
#[verifier::external_body]
pub(crate) fn collector_retain(c: &mut PythonResourceCollector, keep: &StringSet) -> (r: Result<
    (),
    anyhow::Error,
>)
    ensures
        collector_locations(*final(c)) == collector_locations(*old(c)),
        collector_extension_locations(*final(c)) == collector_extension_locations(*old(c)),
        collector_cache_tag(*final(c)) == collector_cache_tag(*old(c)),
        r is Ok,
        collector_records(*final(c)) == collector_records(*old(c)).restrict(keep@),
{
    c.filter_resources_mut(|resource| keep.contains(&resource.name))
}

/// `PythonResourceCollector::iter_resources`: the names of the records in
/// increasing order, each with the summary of its record.
#[verifier::external_body]
pub(crate) fn collector_summaries(c: &PythonResourceCollector) -> (r: Vec<(String, ResourceSummary)>)
    ensures
        increasing(r@.map_values(|e: (String, ResourceSummary)| e.0@)),
        r@.map_values(|e: (String, ResourceSummary)| e.0@).to_set() == collector_records(*c).dom(),
        forall|i: int|
            0 <= i < r.len() ==> (#[trigger] r[i]).1 == summary_of(collector_records(*c)[r[i].0@]),
{
    c.iter_resources().map(|(name, r)| (name.clone(), ResourceSummary {
        is_package: r.is_package, is_module: r.is_module,
        is_builtin_extension_module: r.is_builtin_extension_module,
        is_extension_module: r.is_extension_module, is_shared_library: r.is_shared_library,
        in_memory_source: r.in_memory_source.is_some(),
        relative_path_source: r.relative_path_module_source.is_some(),
        in_memory_extension_module: r.in_memory_extension_module_shared_library.is_some(),
        relative_path_extension_module: r.relative_path_extension_module_shared_library.is_some(),
        in_memory_shared_library: r.in_memory_shared_library.is_some(),
        relative_path_shared_library: r.relative_path_shared_library.is_some(),
    })).collect()
}

/// A file to install beside the binary.
#[derive(Debug, Clone, PartialEq)]
pub struct FileInstall {
    /// The path of the file, relative to the binary.
    pub path: String,
    /// The content of the file.
    pub data: DataLocation,
    /// Whether the file is executable.
    pub executable: bool,
}

/// What a `FileInstall` stands for.
pub struct FileInstallView {
    pub path: Seq<char>,
    pub data: DataLocationView,
    pub executable: bool,
}

impl View for FileInstall {
    type V = FileInstallView;

    open spec fn view(&self) -> FileInstallView {
        FileInstallView { path: self.path@, data: self.data@, executable: self.executable }
    }
}

/// The names of the resources of a compiled collection, in increasing order.
pub uninterp spec fn compiled_names(c: CompiledResourcesCollection<'static>) -> Seq<Seq<char>>;

/// The files that a compiled collection wants installed beside the binary, in
/// the order in which it lists them.
pub uninterp spec fn compiled_files(c: CompiledResourcesCollection<'static>) -> Seq<
    FileInstallView,
>;

/// The bytes that `CompiledResourcesCollection::write_packed_resources_v1`
/// writes for a compiled collection: the packed form of its resources. The
/// layout is the writer's; in the version of `python-packaging` that is
/// linked here, the method hands the resources to the writer of the second
/// version of the format, whatever its name says.
pub uninterp spec fn compiled_packed(c: CompiledResourcesCollection<'static>) -> Seq<u8>;

/// Makes the location that holds what a `DataLocation` of `python-packaging`
/// holds.
#[verifier::external_body]
pub(crate) fn inside_data(d: &OutsideData) -> DataLocation {
    match d {
        OutsideData::Path(p) => DataLocation::Path(p.display().to_string()),
        OutsideData::Memory(b) => DataLocation::Memory(b.clone()),
    }
}

/// `Default::default` of `CompiledResourcesCollection`, which the crate
/// derives: a compiled collection without resources and without files.
#[verifier::external_body]
pub(crate) fn compiled_empty<'a>() -> (r: CompiledResourcesCollection<'a>)
    ensures
        compiled_names(r).len() == 0,
        compiled_files(r).len() == 0,
{
    CompiledResourcesCollection::default()
}

/// The keys of the field `resources` of a compiled collection.
#[verifier::external_body]
pub(crate) fn compiled_resource_names<'a>(c: &CompiledResourcesCollection<'a>) -> (r: Vec<String>)
    ensures
        texts(r@) == compiled_names(*c),
        increasing(texts(r@)),
{
    c.resources.keys().cloned().collect()
}

/// The field `extra_files` of a compiled collection.
#[verifier::external_body]
pub(crate) fn compiled_file_installs<'a>(c: &CompiledResourcesCollection<'a>) -> (r: Vec<
    FileInstall,
>)
    ensures
        r@.map_values(|f: FileInstall| f@) == compiled_files(*c),
{
    c.extra_files.iter().map(|(path, data, executable)| FileInstall {
        path: path.display().to_string(),
        data: inside_data(data),
        executable: *executable,
    }).collect()
}

/// `CompiledResourcesCollection::write_packed_resources_v1`, writing to the
/// end of a vector: on success the packed form of the collection is added;
/// on failure a part of it may be. Which version of the format is written is
/// the method's to say.
#[verifier::external_body]
pub(crate) fn compiled_write_packed<'a>(
    c: &CompiledResourcesCollection<'a>,
    out: &mut Vec<u8>,
) -> (r: Result<(), anyhow::Error>)
    ensures
        r is Ok ==> final(out)@ == old(out)@ + compiled_packed(*c),
        r is Err ==> old(out)@.is_prefix_of(final(out)@),
{
    c.write_packed_resources_v1(out)
}

/// `DataLocation::resolve` of `python-packaging`: the content that a location
/// stands for. A location in memory gives what it holds; a file is read, and
/// the outcome depends on the disk.
#[verifier::external_body]
pub(crate) fn resolve_data(d: &DataLocation) -> (r: Result<Vec<u8>, anyhow::Error>)
    ensures
        d@ is Memory ==> r is Ok,
        r matches Ok(v) ==> (d@ is Memory ==> d@->Memory_0 == v@),
{
    outside_data(d).resolve()
}

/// Makes the library that holds what a `LibraryDependency` of
/// `python-packaging` holds.
#[verifier::external_body]
pub(crate) fn inside_library(l: &OutsideLibrary) -> LibraryDependency {
    LibraryDependency {
        name: l.name.clone(),
        static_library: l.static_library.as_ref().map(inside_data),
        static_filename: l.static_filename.as_ref().map(|f| f.display().to_string()),
        dynamic_library: l.dynamic_library.as_ref().map(inside_data),
        dynamic_filename: l.dynamic_filename.as_ref().map(|f| f.display().to_string()),
        framework: l.framework,
        system: l.system,
    }
}

/// Makes the license that holds what a `LicenseInfo` of `python-packaging`
/// holds.
#[verifier::external_body]
pub(crate) fn inside_license(l: &OutsideLicense) -> LicenseInfo {
    LicenseInfo {
        licenses: l.licenses.clone(),
        license_filename: l.license_filename.clone(),
        license_text: l.license_text.clone(),
    }
}

/// Makes the extension module that holds what a `PythonExtensionModule` of
/// `python-packaging` holds.
#[verifier::external_body]
pub(crate) fn inside_extension_module(m: &OutsideExtensionModule) -> PythonExtensionModule {
    PythonExtensionModule {
        name: m.name.clone(), init_fn: m.init_fn.clone(),
        extension_file_suffix: m.extension_file_suffix.clone(),
        shared_library: m.shared_library.as_ref().map(inside_data),
        object_file_data: m.object_file_data.iter().map(inside_data).collect(),
        is_package: m.is_package,
        link_libraries: m.link_libraries.iter().map(inside_library).collect(),
        is_stdlib: m.is_stdlib, builtin_default: m.builtin_default, required: m.required,
        variant: m.variant.clone(),
        licenses: m.licenses.as_ref().map(|v| v.iter().map(inside_license).collect()),
        license_public_domain: m.license_public_domain,
    }
}

/// Makes the `PythonPackagingPolicy` of `python-packaging` that chooses
/// extension modules as `p` does: with its filter, its preferred variants and
/// its extension modules that do not work.
#[verifier::external_body]
pub(crate) fn outside_policy(p: &PythonPackagingPolicy) -> OutsidePolicy {
    let mut r = OutsidePolicy::default();
    r.set_extension_module_filter(match p.get_extension_module_filter() {
        ExtensionModuleFilter::Minimal => OutsideFilter::Minimal,
        ExtensionModuleFilter::All => OutsideFilter::All,
        ExtensionModuleFilter::NoLibraries => OutsideFilter::NoLibraries,
        ExtensionModuleFilter::NoGPL => OutsideFilter::NoGPL,
    });
    for (k, v) in p.get_preferred_extension_module_variants().items() {
        r.set_preferred_extension_module_variant(k, v);
    }
    for (t, es) in p.get_broken_extensions().items() {
        es.iter().for_each(|e| r.register_broken_extension(t, e));
    }
    r
}

/// The variants of extension modules, each list taken for what it stands
/// for.
pub open spec fn variant_views(v: Seq<(String, Vec<PythonExtensionModule>)>) -> Seq<
    Seq<ExtensionModuleView>,
> {
    v.map_values(|e: (String, Vec<PythonExtensionModule>)| e.1@.map_values(|m: PythonExtensionModule| m@))
}

/// The extension modules that `PythonPackagingPolicy::resolve_python_extension_modules`
/// chooses for a target, of extension modules given with their variants.
pub uninterp spec fn resolved_extension_modules(
    policy: PackagingPolicyView,
    variants: Seq<Seq<ExtensionModuleView>>,
    target_triple: Seq<char>,
) -> Seq<ExtensionModuleView>;

/// Whether the policy holds that the extension module `name` does not work on
/// `target_triple`.
pub open spec fn broken_on(policy: PackagingPolicyView, target_triple: Seq<char>, name: Seq<char>) -> bool {
    policy.broken_extensions.contains_key(target_triple)
        && policy.broken_extensions[target_triple].contains(name)
}

/// Whether `module` is one of `variants`.
pub open spec fn among(module: ExtensionModuleView, variants: Seq<ExtensionModuleView>) -> bool {
    exists|k: int| 0 <= k < variants.len() && #[trigger] variants[k] == module
}

/// What the source of the choice shows of every outcome: each module that is
/// chosen is a variant of one of the extension modules; and under the filter
/// that takes all, a variant is chosen of each extension module but those
/// whose first variant has a name that does not work on the target.
pub open spec fn chosen_of(
    policy: PackagingPolicyView,
    variants: Seq<Seq<ExtensionModuleView>>,
    target_triple: Seq<char>,
    chosen: Seq<ExtensionModuleView>,
) -> bool {
    &&& forall|j: int|
        0 <= j < chosen.len() ==> exists|i: int|
            0 <= i < variants.len() && among(#[trigger] chosen[j], #[trigger] variants[i])
    &&& policy.extension_module_filter is All ==> forall|i: int|
        0 <= i < variants.len() && !broken_on(policy, target_triple, (#[trigger] variants[i])[0].name)
            ==> exists|j: int| 0 <= j < chosen.len() && among(#[trigger] chosen[j], variants[i])
}

/// `PythonPackagingPolicy::resolve_python_extension_modules`: the extension
/// modules that the policy chooses for a target. Every extension module has
/// to come with a variant at least: the first variant is read without a
/// test. With that, nothing in the choice fails. Whatever is chosen is a copy
/// of a variant that was given; the filter that takes all passes over an
/// extension module only where its name does not work on the target.
#[verifier::external_body]
pub(crate) fn policy_resolve_extension_modules(
    policy: &PythonPackagingPolicy,
    variants: &Vec<(String, Vec<PythonExtensionModule>)>,
    target_triple: &str,
) -> (r: Result<Vec<PythonExtensionModule>, anyhow::Error>)
    requires
        forall|i: int| 0 <= i < variants.len() ==> (#[trigger] variants[i]).1.len() > 0,
    ensures
        r is Ok,
        r matches Ok(v) ==> v@.map_values(|m: PythonExtensionModule| m@)
            == resolved_extension_modules(policy@, variant_views(variants@), target_triple@),
        r matches Ok(v) ==> chosen_of(
            policy@,
            variant_views(variants@),
            target_triple@,
            v@.map_values(|m: PythonExtensionModule| m@),
        ),
{
    let vs: Vec<OutsideVariants> = variants.iter().map(
        |v| v.1.iter().map(outside_extension_module).collect()).collect();
    let found = outside_policy(policy).resolve_python_extension_modules(vs.iter(), target_triple)?;
    Ok(found.iter().map(inside_extension_module).collect())
}

} // verus!
