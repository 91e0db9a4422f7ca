//! The builder of a self-contained Python binary, and how it places
//! extension modules.

use crate::build_state::distribution_build_state;
use crate::collector::{
    distribution_resource_path, error_text, extension_module_bytes, extension_module_path,
    package_resource_path, policy_resolve_extension_modules, record_at, resolve_data,
    resolved_extension_modules, with_bytecode_request, with_distribution_resource,
    with_extension_module, with_module_source, with_package_resource, ResourceRecord,
    ResourceSummary,
};
use crate::embedded_resource::{
    distribution_module_in_memory, every_location, external_module_linked_in, linked_in,
    module_on_disk, resource_added, shared_library_in_memory, shared_library_module, CollectionView,
    PrePackagedResources,
};
use crate::error::PackagingError;
use crate::paths::{file_name_of, path_file_name};
use crate::policy::{PackagingPolicyView, PythonPackagingPolicy};
use crate::resource::{
    text_of, views, AbstractResourceLocation, BytecodeOptimizationLevel, BytecodeRequestView,
    ConcreteResourceLocation, DataLocationView, ExtensionModuleView, LibpythonLinkMode,
    LocationView, ModuleSourceView, PolicyView, PythonExtensionModule,
    PythonModuleBytecodeFromSource, PythonModuleSource, PythonPackageDistributionResource,
    PythonPackageResource, PythonResourcesPolicy,
};
use crate::standalone_distribution::{
    in_memory_loading_of, link_mode_of, link_support_of, stdlib_resources, stdlib_sources,
    BinaryLibpythonLinkMode, StandaloneDistribution,
};
use crate::string_set::StringSet;
use vstd::prelude::*;

verus! {

/// The allocator that the interpreter takes raw memory from.
#[derive(Debug, Clone, Copy, PartialEq, Eq, Structural)]
pub enum RawAllocator {
    Jemalloc,
    Rust,
    System,
}

/// How the embedded interpreter is set up.
#[derive(Debug, Clone, Copy, PartialEq, Eq, Structural)]
pub struct EmbeddedPythonConfig {
    /// The allocator that the interpreter takes raw memory from.
    pub raw_allocator: RawAllocator,
}

/// Where an extension module of the distribution goes.
pub enum Placement {
    /// Into the interpreter.
    Builtin,
    /// Into memory.
    InMemory,
    /// Into a file below the prefix.
    RelativePath(Seq<char>),
    /// Into memory, and where that fails into a file below the prefix.
    InMemoryThenRelativePath(Seq<char>),
}

/// Where an extension module of the distribution goes: into the interpreter
/// if the distribution builds it in already or if the interpreter is linked
/// statically; else where the policy wants it.
pub open spec fn distribution_placement(
    policy: PolicyView,
    link_mode: LibpythonLinkMode,
    builtin_default: bool,
) -> Placement {
    if builtin_default || link_mode == LibpythonLinkMode::Static {
        Placement::Builtin
    } else {
        match policy {
            PolicyView::InMemoryOnly => Placement::InMemory,
            PolicyView::FilesystemRelativeOnly(prefix) => Placement::RelativePath(prefix),
            PolicyView::PreferInMemoryFallbackFilesystemRelative(prefix) => {
                Placement::InMemoryThenRelativePath(prefix)
            },
        }
    }
}

/// What a builder stands for.
pub struct BuilderView {
    /// The name of the binary.
    pub name: Seq<char>,
    /// The target triple that the build runs on.
    pub host_triple: Seq<char>,
    /// The target triple that the binary is built for.
    pub target_triple: Seq<char>,
    /// The path of an interpreter that runs during the build.
    pub python_exe: Seq<char>,
    /// The tag of bytecode files.
    pub cache_tag: Seq<char>,
    /// How the embedded interpreter is set up.
    pub config: EmbeddedPythonConfig,
    /// What is packaged, how, and where resources are placed.
    pub packaging: PackagingPolicyView,
    /// How the interpreter's library is linked.
    pub link_mode: LibpythonLinkMode,
    /// Whether the binary can load extension modules from memory.
    pub in_memory_loading: bool,
    /// Whether the binary can load extension modules from files.
    pub file_loading: bool,
    /// The path of the interpreter's shared library, where the distribution
    /// has one.
    pub shared_library: Option<Seq<char>>,
    /// The distribution that the binary is built from.
    pub distribution: StandaloneDistribution,
    /// The resources collected so far.
    pub collection: CollectionView,
}

impl BuilderView {
    /// Where resources are placed.
    pub open spec fn policy(self) -> PolicyView {
        self.packaging.resources_policy
    }

    /// The collection admits resources where the policy wants them, and
    /// extension modules everywhere.
    pub open spec fn wf(self) -> bool {
        &&& self.collection.locations == self.policy().locations()
        &&& self.collection.extension_locations == every_location()
    }

    /// The same builder with another collection.
    pub open spec fn with_collection(self, collection: CollectionView) -> BuilderView {
        BuilderView { collection, ..self }
    }
}

/// The path of the file of an extension module below `prefix`.
pub open spec fn file_path_of(module: ExtensionModuleView, prefix: Seq<char>) -> Seq<char> {
    extension_module_path(prefix, module.name, module.extension_file_suffix)
}

/// The directory of the file of an extension module below `prefix`.
pub open spec fn directory_of(module: ExtensionModuleView, prefix: Seq<char>) -> Option<
    Seq<char>,
> {
    crate::collector::extension_module_directory(prefix, module.name, module.extension_file_suffix)
}

/// What holds when the builder was to have an extension module of the
/// distribution loaded from memory: where the binary cannot do that, it is
/// refused and nothing has changed.
pub open spec fn in_memory_attempt(
    before: BuilderView,
    after: CollectionView,
    r: Result<(), PackagingError>,
    module: ExtensionModuleView,
) -> bool {
    if before.in_memory_loading {
        distribution_module_in_memory(
            before.collection,
            after,
            r,
            module,
            file_path_of(module, Seq::empty()),
        )
    } else {
        r == Err::<(), PackagingError>(PackagingError::InMemoryLoadingUnsupported) && after
            == before.collection
    }
}

/// What holds when the builder was to have an extension module of the
/// distribution installed as a file below `prefix`: where the binary cannot
/// load such files, it is refused and nothing has changed.
pub open spec fn relative_path_attempt(
    before: BuilderView,
    after: CollectionView,
    r: Result<(), PackagingError>,
    module: ExtensionModuleView,
    prefix: Seq<char>,
) -> bool {
    if before.file_loading {
        module_on_disk(
            before.collection,
            after,
            r,
            module,
            prefix,
            file_path_of(module, prefix),
            directory_of(module, prefix),
            true,
        )
    } else {
        r == Err::<(), PackagingError>(PackagingError::FileLoadingUnsupported) && after
            == before.collection
    }
}

/// The result of two attempts of which the first failed with `first` and the
/// second went as `second` says: success if the second went well, else the
/// failure of the first.
pub open spec fn retried(
    r: Result<(), PackagingError>,
    first: PackagingError,
    second: Result<(), PackagingError>,
) -> bool {
    match second {
        Ok(_) => r is Ok,
        Err(_) => r == Err::<(), PackagingError>(first),
    }
}

/// What holds when an extension module of the distribution was added. Under
/// the policy that prefers memory, an attempt in memory that fails changes
/// nothing and is followed by an attempt below the prefix; where that fails
/// too, the failure of the attempt in memory is the result.
pub open spec fn distribution_module_added(
    before: BuilderView,
    after: CollectionView,
    r: Result<(), PackagingError>,
    module: ExtensionModuleView,
) -> bool {
    match distribution_placement(before.policy(), before.link_mode, module.builtin_default) {
        Placement::Builtin => r is Ok && linked_in(
            before.collection,
            after,
            module.name,
            distribution_build_state(module),
            before.collection.records,
        ),
        Placement::InMemory => in_memory_attempt(before, after, r, module),
        Placement::RelativePath(prefix) => relative_path_attempt(before, after, r, module, prefix),
        Placement::InMemoryThenRelativePath(prefix) => {
            ||| r is Ok && in_memory_attempt(before, after, r, module)
            ||| exists|first: PackagingError, second: Result<(), PackagingError>| #[trigger]
                retried(r, first, second) && in_memory_attempt(
                    before,
                    before.collection,
                    Err::<(), PackagingError>(first),
                    module,
                ) && relative_path_attempt(before, after, second, module, prefix)
        },
    }
}

/// What holds when the shared library of an extension module was to be
/// loaded from memory: its content is had, which may take reading a file, and
/// the collection is asked to hold it in memory.
pub open spec fn shared_library_loaded(
    before: CollectionView,
    after: CollectionView,
    r: Result<(), PackagingError>,
    module: ExtensionModuleView,
) -> bool {
    let admitted = before.locations.contains(AbstractResourceLocation::InMemory)
        && before.extension_locations.contains(AbstractResourceLocation::InMemory);
    let bytes = extension_module_bytes(record_at(after.records, module.name), LocationView::InMemory);
    &&& module.shared_library is Some
    &&& r is Err ==> after == before
    &&& r matches Err(e) ==> (e is Unresolved && module.shared_library->0 is Path) || (e
        is Collector && !admitted)
    &&& module.shared_library->0 is Memory ==> r is Ok == admitted
    &&& r is Ok ==> {
        &&& admitted
        &&& module.shared_library matches Some(DataLocationView::Memory(d)) ==> bytes == d
        &&& shared_library_in_memory(before, after, r, module.name, module.is_package, bytes)
    }
}

/// What holds when an extension module that does not come with the
/// distribution was to be loaded from memory: as a shared library where the
/// binary can do that and the module has one; else it is linked into the
/// interpreter where it has object files; else it is refused.
pub open spec fn in_memory_dynamic_module_added(
    before: BuilderView,
    after: CollectionView,
    r: Result<(), PackagingError>,
    module: ExtensionModuleView,
) -> bool {
    if before.in_memory_loading && module.shared_library is Some {
        shared_library_loaded(before.collection, after, r, module)
    } else if module.object_file_data.len() > 0 {
        external_module_linked_in(before.collection, after, r, module)
    } else if module.shared_library is Some {
        r == Err::<(), PackagingError>(PackagingError::InMemoryLoadingUnsupported) && after
            == before.collection
    } else {
        r == Err::<(), PackagingError>(PackagingError::NoObjectFiles) && after == before.collection
    }
}

/// What holds when an extension module that does not come with the
/// distribution was to be installed as a file below `prefix`.
pub open spec fn relative_path_dynamic_module_added(
    before: BuilderView,
    after: CollectionView,
    r: Result<(), PackagingError>,
    module: ExtensionModuleView,
    prefix: Seq<char>,
) -> bool {
    if module.shared_library is None {
        r == Err::<(), PackagingError>(PackagingError::NoSharedLibrary) && after
            == before.collection
    } else if before.file_loading {
        module_on_disk(
            before.collection,
            after,
            r,
            module,
            prefix,
            file_path_of(module, prefix),
            directory_of(module, prefix),
            false,
        )
    } else {
        r == Err::<(), PackagingError>(PackagingError::FileLoadingUnsupported) && after
            == before.collection
    }
}

/// What holds when an extension module that does not come with the
/// distribution was added as a shared library, placed where the policy wants
/// it. A policy that admits one kind of place fails where the binary cannot
/// load from there. The policy that admits both takes memory where the binary
/// can load from memory; an attempt in memory that fails changes nothing and
/// is followed by an attempt below the prefix, and where that fails too, the
/// failure of the attempt in memory is the result. Where the binary cannot
/// load from memory, it takes files where the binary can load from files.
pub open spec fn dynamic_module_added(
    before: BuilderView,
    after: CollectionView,
    r: Result<(), PackagingError>,
    module: ExtensionModuleView,
) -> bool {
    if module.shared_library is None {
        r == Err::<(), PackagingError>(PackagingError::NoSharedLibrary) && after
            == before.collection
    } else {
        match before.policy() {
            PolicyView::InMemoryOnly => if before.in_memory_loading {
                shared_library_loaded(before.collection, after, r, module)
            } else {
                (r matches Err(PackagingError::InMemoryOnlyUnsupported(n)) && n@ == module.name)
                    && after == before.collection
            },
            PolicyView::FilesystemRelativeOnly(prefix) => if before.file_loading {
                module_on_disk(
                    before.collection,
                    after,
                    r,
                    module,
                    prefix,
                    file_path_of(module, prefix),
                    directory_of(module, prefix),
                    false,
                )
            } else {
                r == Err::<(), PackagingError>(PackagingError::FilesystemOnlyUnsupported) && after
                    == before.collection
            },
            PolicyView::PreferInMemoryFallbackFilesystemRelative(prefix) => if before.in_memory_loading {
                ||| r is Ok && shared_library_loaded(before.collection, after, r, module)
                ||| exists|first: PackagingError, second: Result<(), PackagingError>| #[trigger]
                    retried(r, first, second) && shared_library_loaded(
                        before.collection,
                        before.collection,
                        Err::<(), PackagingError>(first),
                        module,
                    ) && relative_path_dynamic_module_added(before, after, second, module, prefix)
            } else if before.file_loading {
                module_on_disk(
                    before.collection,
                    after,
                    r,
                    module,
                    prefix,
                    file_path_of(module, prefix),
                    directory_of(module, prefix),
                    false,
                )
            } else {
                r == Err::<(), PackagingError>(PackagingError::NoLoadingMechanism) && after
                    == before.collection
            },
        }
    }
}

/// What a new builder stands for: a binary named `name`, built on
/// `host_triple` for `target_triple` from `distribution`, without resources,
/// whose collection admits resources where the policy wants them and
/// extension modules everywhere.
pub open spec fn fresh_builder(
    host_triple: Seq<char>,
    target_triple: Seq<char>,
    name: Seq<char>,
    distribution: StandaloneDistribution,
    link_mode: LibpythonLinkMode,
    in_memory_loading: bool,
    packaging: PackagingPolicyView,
    config: EmbeddedPythonConfig,
) -> BuilderView {
    BuilderView {
        name,
        host_triple,
        target_triple,
        python_exe: distribution.python_exe@,
        cache_tag: distribution.cache_tag@,
        config,
        packaging,
        link_mode,
        in_memory_loading,
        file_loading: distribution.file_loadable(),
        shared_library: text_of(distribution.libpython_shared_library),
        distribution,
        collection: CollectionView {
            records: crate::collector::no_records(),
            states: Map::empty(),
            locations: packaging.resources_policy.locations(),
            extension_locations: every_location(),
            cache_tag: distribution.cache_tag@,
        },
    }
}

/// A self-contained Python binary before it is built.
#[derive(Debug)]
pub struct StandalonePythonExecutableBuilder {
    /// The target triple that the build runs on.
    host_triple: String,
    /// The target triple that the binary is built for.
    target_triple: String,
    /// The name of the binary.
    exe_name: String,
    /// The distribution that the binary is built from.
    distribution: StandaloneDistribution,
    /// How the interpreter's library is linked.
    link_mode: LibpythonLinkMode,
    /// Whether the binary can load extension modules from memory.
    supports_in_memory_dynamically_linked_extension_loading: bool,
    /// What is packaged, and how.
    packaging_policy: PythonPackagingPolicy,
    /// The resources of the binary.
    resources: PrePackagedResources,
    /// How the embedded interpreter is set up.
    config: EmbeddedPythonConfig,
    /// The path of an interpreter that runs during the build.
    python_exe: String,
}

impl View for StandalonePythonExecutableBuilder {
    type V = BuilderView;

    closed spec fn view(&self) -> BuilderView {
        BuilderView {
            name: self.exe_name@,
            host_triple: self.host_triple@,
            target_triple: self.target_triple@,
            python_exe: self.python_exe@,
            cache_tag: self.distribution.cache_tag@,
            config: self.config,
            packaging: self.packaging_policy@,
            link_mode: self.link_mode,
            in_memory_loading: self.supports_in_memory_dynamically_linked_extension_loading,
            file_loading: self.distribution.file_loadable(),
            shared_library: text_of(self.distribution.libpython_shared_library),
            distribution: self.distribution,
            collection: self.resources@,
        }
    }
}

impl StandalonePythonExecutableBuilder {
    /// A builder without resources, for a binary named `name` that is built
    /// on `host_triple` for `target_triple` from `distribution`.
    pub fn new(
        host_triple: &str,
        target_triple: &str,
        name: &str,
        distribution: StandaloneDistribution,
        link_mode: LibpythonLinkMode,
        supports_in_memory_dynamically_linked_extension_loading: bool,
        packaging_policy: PythonPackagingPolicy,
        config: EmbeddedPythonConfig,
    ) -> (r: Self)
        ensures
            r@.wf(),
            r@ == fresh_builder(
                host_triple@,
                target_triple@,
                name@,
                distribution,
                link_mode,
                supports_in_memory_dynamically_linked_extension_loading,
                packaging_policy@,
                config,
            ),
    {
        let resources = PrePackagedResources::new(
            packaging_policy.get_resources_policy(),
            distribution.cache_tag(),
        );
        let python_exe = distribution.python_exe_path().to_owned();
        StandalonePythonExecutableBuilder {
            host_triple: host_triple.to_owned(),
            target_triple: target_triple.to_owned(),
            exe_name: name.to_owned(),
            distribution,
            link_mode,
            supports_in_memory_dynamically_linked_extension_loading,
            packaging_policy,
            resources,
            config,
            python_exe,
        }
    }

    /// The name of the binary.
    pub fn name(&self) -> (r: String)
        ensures
            r@ == self@.name,
    {
        self.exe_name.clone()
    }

    /// The target triple that the build runs on.
    pub fn host_triple(&self) -> (r: &str)
        ensures
            r@ == self@.host_triple,
    {
        self.host_triple.as_str()
    }

    /// The target triple that the binary is built for.
    pub fn target_triple(&self) -> (r: &str)
        ensures
            r@ == self@.target_triple,
    {
        self.target_triple.as_str()
    }

    /// How the interpreter's library is linked.
    pub fn libpython_link_mode(&self) -> (r: LibpythonLinkMode)
        ensures
            r == self@.link_mode,
    {
        self.link_mode
    }

    /// The tag of bytecode files.
    pub fn cache_tag(&self) -> (r: &str)
        ensures
            r@ == self@.cache_tag,
    {
        self.distribution.cache_tag()
    }

    /// What is packaged, and how.
    pub fn python_packaging_policy(&self) -> (r: &PythonPackagingPolicy)
        ensures
            r@ == self@.packaging,
    {
        &self.packaging_policy
    }

    /// The path of an interpreter that runs during the build.
    pub fn python_exe_path(&self) -> (r: &str)
        ensures
            r@ == self@.python_exe,
    {
        self.python_exe.as_str()
    }

    /// The distribution that the binary is built from.
    pub fn distribution(&self) -> (r: &StandaloneDistribution)
        ensures
            *r == self@.distribution,
    {
        &self.distribution
    }

    /// The resources of the binary.
    pub fn resources(&self) -> (r: &PrePackagedResources)
        ensures
            r@ == self@.collection,
    {
        &self.resources
    }

    /// How the embedded interpreter is set up.
    pub fn config(&self) -> (r: EmbeddedPythonConfig)
        ensures
            r == self@.config,
    {
        self.config
    }

    /// The names of the records of the resources in increasing order, each
    /// with what the record says of itself.
    pub fn iter_resources(&self) -> (r: Vec<(String, ResourceSummary)>)
        ensures
            crate::text::increasing(r@.map_values(|e: (String, ResourceSummary)| e.0@)),
            r@.map_values(|e: (String, ResourceSummary)| e.0@).to_set()
                == self@.collection.records.dom(),
            forall|i: int|
                0 <= i < r.len() ==> (#[trigger] r[i]).1 == crate::collector::summary_of(
                    self@.collection.records[r[i].0@],
                ),
    {
        self.resources.iter_resources()
    }

    /// The names of the extension modules that are linked into the
    /// interpreter, in increasing order.
    pub fn builtin_extension_module_names(&self) -> (r: Vec<String>)
        ensures
            crate::text::increasing(crate::string_set::texts(r@)),
            crate::string_set::texts(r@).to_set() == self@.collection.states.dom(),
    {
        self.resources.builtin_extension_module_names()
    }

    /// Whether the interpreter takes raw memory from jemalloc.
    pub fn requires_jemalloc(&self) -> (r: bool)
        ensures
            r == (self@.config.raw_allocator == RawAllocator::Jemalloc),
    {
        self.config.raw_allocator == RawAllocator::Jemalloc
    }

    /// Embeds the source of a module in the binary.
    pub fn add_in_memory_module_source(&mut self, module: &PythonModuleSource) -> (r: Result<
        (),
        PackagingError,
    >)
        ensures
            old(self)@.wf() ==> final(self)@.wf(),
            final(self)@ == old(self)@.with_collection(final(self)@.collection),
            resource_added(
                old(self)@.collection,
                final(self)@.collection,
                r,
                AbstractResourceLocation::InMemory,
                module@.name,
                with_module_source(
                    record_at(old(self)@.collection.records, module@.name),
                    module@,
                    LocationView::InMemory,
                ),
            ),
    {
        self.resources.add_python_module_source(module, &ConcreteResourceLocation::InMemory)
    }

    /// Installs the source of a module as a file below `prefix`.
    pub fn add_relative_path_module_source(
        &mut self,
        prefix: &str,
        module: &PythonModuleSource,
    ) -> (r: Result<(), PackagingError>)
        ensures
            old(self)@.wf() ==> final(self)@.wf(),
            final(self)@ == old(self)@.with_collection(final(self)@.collection),
            resource_added(
                old(self)@.collection,
                final(self)@.collection,
                r,
                AbstractResourceLocation::RelativePath,
                module@.name,
                with_module_source(
                    record_at(old(self)@.collection.records, module@.name),
                    module@,
                    LocationView::RelativePath(prefix@),
                ),
            ),
    {
        self.resources.add_python_module_source(
            module,
            &ConcreteResourceLocation::RelativePath(prefix.to_owned()),
        )
    }

    /// Embeds a request for the bytecode of a module in the binary.
    pub fn add_in_memory_module_bytecode(
        &mut self,
        module: &PythonModuleBytecodeFromSource,
    ) -> (r: Result<(), PackagingError>)
        ensures
            old(self)@.wf() ==> final(self)@.wf(),
            final(self)@ == old(self)@.with_collection(final(self)@.collection),
            resource_added(
                old(self)@.collection,
                final(self)@.collection,
                r,
                AbstractResourceLocation::InMemory,
                module@.name,
                with_bytecode_request(
                    record_at(old(self)@.collection.records, module@.name),
                    module@,
                    LocationView::InMemory,
                ),
            ),
    {
        self.resources.add_python_module_bytecode_from_source(
            module,
            &ConcreteResourceLocation::InMemory,
        )
    }

    /// Has the bytecode of a module installed as a file below `prefix`.
    pub fn add_relative_path_module_bytecode(
        &mut self,
        prefix: &str,
        module: &PythonModuleBytecodeFromSource,
    ) -> (r: Result<(), PackagingError>)
        ensures
            old(self)@.wf() ==> final(self)@.wf(),
            final(self)@ == old(self)@.with_collection(final(self)@.collection),
            resource_added(
                old(self)@.collection,
                final(self)@.collection,
                r,
                AbstractResourceLocation::RelativePath,
                module@.name,
                with_bytecode_request(
                    record_at(old(self)@.collection.records, module@.name),
                    module@,
                    LocationView::RelativePath(prefix@),
                ),
            ),
    {
        self.resources.add_python_module_bytecode_from_source(
            module,
            &ConcreteResourceLocation::RelativePath(prefix.to_owned()),
        )
    }

    /// Embeds a data file of a package in the binary.
    pub fn add_in_memory_package_resource(&mut self, resource: &PythonPackageResource) -> (r:
        Result<(), PackagingError>)
        ensures
            old(self)@.wf() ==> final(self)@.wf(),
            final(self)@ == old(self)@.with_collection(final(self)@.collection),
            resource_added(
                old(self)@.collection,
                final(self)@.collection,
                r,
                AbstractResourceLocation::InMemory,
                resource@.leaf_package,
                with_package_resource(
                    record_at(old(self)@.collection.records, resource@.leaf_package),
                    resource@,
                    LocationView::InMemory,
                    package_resource_path(
                        Seq::empty(),
                        resource@.leaf_package,
                        resource@.relative_name,
                    ),
                ),
            ),
    {
        self.resources.add_python_package_resource(resource, &ConcreteResourceLocation::InMemory)
    }

    /// Installs a data file of a package as a file below `prefix`.
    pub fn add_relative_path_package_resource(
        &mut self,
        prefix: &str,
        resource: &PythonPackageResource,
    ) -> (r: Result<(), PackagingError>)
        ensures
            old(self)@.wf() ==> final(self)@.wf(),
            final(self)@ == old(self)@.with_collection(final(self)@.collection),
            resource_added(
                old(self)@.collection,
                final(self)@.collection,
                r,
                AbstractResourceLocation::RelativePath,
                resource@.leaf_package,
                with_package_resource(
                    record_at(old(self)@.collection.records, resource@.leaf_package),
                    resource@,
                    LocationView::RelativePath(prefix@),
                    package_resource_path(prefix@, resource@.leaf_package, resource@.relative_name),
                ),
            ),
    {
        self.resources.add_python_package_resource(
            resource,
            &ConcreteResourceLocation::RelativePath(prefix.to_owned()),
        )
    }

    /// Embeds a file of the metadata of a package in the binary.
    pub fn add_in_memory_package_distribution_resource(
        &mut self,
        resource: &PythonPackageDistributionResource,
    ) -> (r: Result<(), PackagingError>)
        ensures
            old(self)@.wf() ==> final(self)@.wf(),
            final(self)@ == old(self)@.with_collection(final(self)@.collection),
            resource_added(
                old(self)@.collection,
                final(self)@.collection,
                r,
                AbstractResourceLocation::InMemory,
                resource@.package,
                with_distribution_resource(
                    record_at(old(self)@.collection.records, resource@.package),
                    resource@,
                    LocationView::InMemory,
                    distribution_resource_path(
                        Seq::empty(),
                        resource@.location,
                        resource@.package,
                        resource@.version,
                        resource@.name,
                    ),
                ),
            ),
    {
        self.resources.add_python_package_distribution_resource(
            resource,
            &ConcreteResourceLocation::InMemory,
        )
    }

    /// Installs a file of the metadata of a package as a file below `prefix`.
    pub fn add_relative_path_package_distribution_resource(
        &mut self,
        prefix: &str,
        resource: &PythonPackageDistributionResource,
    ) -> (r: Result<(), PackagingError>)
        ensures
            old(self)@.wf() ==> final(self)@.wf(),
            final(self)@ == old(self)@.with_collection(final(self)@.collection),
            resource_added(
                old(self)@.collection,
                final(self)@.collection,
                r,
                AbstractResourceLocation::RelativePath,
                resource@.package,
                with_distribution_resource(
                    record_at(old(self)@.collection.records, resource@.package),
                    resource@,
                    LocationView::RelativePath(prefix@),
                    distribution_resource_path(
                        prefix@,
                        resource@.location,
                        resource@.package,
                        resource@.version,
                        resource@.name,
                    ),
                ),
            ),
    {
        self.resources.add_python_package_distribution_resource(
            resource,
            &ConcreteResourceLocation::RelativePath(prefix.to_owned()),
        )
    }

    /// Has an extension module of the distribution linked into the
    /// interpreter.
    pub fn add_builtin_distribution_extension_module(
        &mut self,
        extension_module: &PythonExtensionModule,
    ) -> (r: Result<(), PackagingError>)
        ensures
            old(self)@.wf() ==> final(self)@.wf(),
            final(self)@ == old(self)@.with_collection(final(self)@.collection),
            r is Ok,
            linked_in(
                old(self)@.collection,
                final(self)@.collection,
                extension_module@.name,
                distribution_build_state(extension_module@),
                old(self)@.collection.records,
            ),
    {
        self.resources.add_builtin_distribution_extension_module(extension_module)
    }

    /// Has an extension module of the distribution loaded from memory. It is
    /// refused where the binary cannot do that.
    pub fn add_in_memory_distribution_extension_module(
        &mut self,
        extension_module: &PythonExtensionModule,
    ) -> (r: Result<(), PackagingError>)
        ensures
            old(self)@.wf() ==> final(self)@.wf(),
            final(self)@ == old(self)@.with_collection(final(self)@.collection),
            in_memory_attempt(old(self)@, final(self)@.collection, r, extension_module@),
    {
        if !self.supports_in_memory_dynamically_linked_extension_loading {
            return Err(PackagingError::InMemoryLoadingUnsupported);
        }
        self.resources.add_in_memory_distribution_extension_module(extension_module)
    }

    /// Has an extension module of the distribution installed as a file below
    /// `prefix`. It is refused where the binary cannot load such files.
    pub fn add_relative_path_distribution_extension_module(
        &mut self,
        prefix: &str,
        extension_module: &PythonExtensionModule,
    ) -> (r: Result<(), PackagingError>)
        ensures
            old(self)@.wf() ==> final(self)@.wf(),
            final(self)@ == old(self)@.with_collection(final(self)@.collection),
            relative_path_attempt(
                old(self)@,
                final(self)@.collection,
                r,
                extension_module@,
                prefix@,
            ),
    {
        if self.distribution.is_extension_module_file_loadable() {
            self.resources.add_relative_path_distribution_extension_module(prefix, extension_module)
        } else {
            Err(PackagingError::FileLoadingUnsupported)
        }
    }

    /// Adds an extension module of the distribution where it belongs: into
    /// the interpreter if the distribution builds it in already or if the
    /// interpreter is linked statically, whatever the policy; else where the
    /// policy wants it. Under the policy that prefers memory, a module that
    /// cannot be loaded from memory is installed as a file.
    pub fn add_distribution_extension_module(
        &mut self,
        extension_module: &PythonExtensionModule,
    ) -> (r: Result<(), PackagingError>)
        ensures
            old(self)@.wf() ==> final(self)@.wf(),
            final(self)@ == old(self)@.with_collection(final(self)@.collection),
            distribution_module_added(old(self)@, final(self)@.collection, r, extension_module@),
    {
        if extension_module.builtin_default {
            return self.add_builtin_distribution_extension_module(extension_module);
        }
        let policy = self.packaging_policy.get_resources_policy().clone();
        match policy {
            PythonResourcesPolicy::InMemoryOnly => match self.link_mode {
                LibpythonLinkMode::Static => self.add_builtin_distribution_extension_module(
                    extension_module,
                ),
                LibpythonLinkMode::Dynamic => self.add_in_memory_distribution_extension_module(
                    extension_module,
                ),
            },
            PythonResourcesPolicy::FilesystemRelativeOnly(prefix) => match self.link_mode {
                LibpythonLinkMode::Static => self.add_builtin_distribution_extension_module(
                    extension_module,
                ),
                LibpythonLinkMode::Dynamic => {
                    self.add_relative_path_distribution_extension_module(
                        prefix.as_str(),
                        extension_module,
                    )
                },
            },
            PythonResourcesPolicy::PreferInMemoryFallbackFilesystemRelative(prefix) => {
                match self.link_mode {
                    LibpythonLinkMode::Static => self.add_builtin_distribution_extension_module(
                        extension_module,
                    ),
                    LibpythonLinkMode::Dynamic => {
                        let first = self.add_in_memory_distribution_extension_module(
                            extension_module,
                        );
                        match first {
                            Ok(()) => Ok(()),
                            Err(e) => {
                                assert(self@ == old(self)@);
                                assert(in_memory_attempt(
                                    old(self)@,
                                    old(self)@.collection,
                                    Err::<(), PackagingError>(e),
                                    extension_module@,
                                ));
                                let second = self.add_relative_path_distribution_extension_module(
                                    prefix.as_str(),
                                    extension_module,
                                );
                                let r = match second {
                                    Ok(()) => Ok(()),
                                    Err(_) => Err(e),
                                };
                                assert(retried(r, e, second));
                                r
                            },
                        }
                    },
                }
            },
        }
    }

    /// Has the shared library of an extension module loaded from memory.
    fn load_shared_library(&mut self, extension_module: &PythonExtensionModule) -> (r: Result<
        (),
        PackagingError,
    >)
        requires
            extension_module@.shared_library is Some,
        ensures
            old(self)@.wf() ==> final(self)@.wf(),
            final(self)@ == old(self)@.with_collection(final(self)@.collection),
            shared_library_loaded(
                old(self)@.collection,
                final(self)@.collection,
                r,
                extension_module@,
            ),
    {
        let data = match &extension_module.shared_library {
            Some(location) => match resolve_data(location) {
                Ok(data) => data,
                Err(e) => {
                    return Err(PackagingError::Unresolved(error_text(&e)));
                },
            },
            None => {
                return Err(PackagingError::NoSharedLibrary);
            },
        };
        let r = self.resources.add_in_memory_extension_module_shared_library(
            extension_module.name.as_str(),
            extension_module.is_package,
            data.as_slice(),
        );
        proof {
            if r is Ok {
                let name = extension_module@.name;
                let after = self@.collection.records;
                assert(after[name] == with_extension_module(
                    record_at(old(self)@.collection.records, name),
                    shared_library_module(name, extension_module@.is_package, data@),
                    LocationView::InMemory,
                    Seq::empty(),
                    data@,
                ));
                assert(extension_module_bytes(record_at(after, name), LocationView::InMemory)
                    == data@);
            }
        }
        r
    }

    /// Has an extension module that does not come with the distribution
    /// loaded from memory, as a shared library where that can be done, else
    /// as a part of the interpreter.
    pub fn add_in_memory_dynamic_extension_module(
        &mut self,
        extension_module: &PythonExtensionModule,
    ) -> (r: Result<(), PackagingError>)
        ensures
            old(self)@.wf() ==> final(self)@.wf(),
            final(self)@ == old(self)@.with_collection(final(self)@.collection),
            in_memory_dynamic_module_added(
                old(self)@,
                final(self)@.collection,
                r,
                extension_module@,
            ),
    {
        if self.supports_in_memory_dynamically_linked_extension_loading
            && extension_module.shared_library.is_some() {
            self.load_shared_library(extension_module)
        } else if extension_module.object_file_data.len() > 0 {
            self.resources.add_builtin_extension_module(extension_module)
        } else if extension_module.shared_library.is_some() {
            Err(PackagingError::InMemoryLoadingUnsupported)
        } else {
            Err(PackagingError::NoObjectFiles)
        }
    }

    /// Has an extension module that does not come with the distribution
    /// installed as a file below `prefix`.
    pub fn add_relative_path_dynamic_extension_module(
        &mut self,
        prefix: &str,
        extension_module: &PythonExtensionModule,
    ) -> (r: Result<(), PackagingError>)
        ensures
            old(self)@.wf() ==> final(self)@.wf(),
            final(self)@ == old(self)@.with_collection(final(self)@.collection),
            relative_path_dynamic_module_added(
                old(self)@,
                final(self)@.collection,
                r,
                extension_module@,
                prefix@,
            ),
    {
        if extension_module.shared_library.is_none() {
            return Err(PackagingError::NoSharedLibrary);
        }
        if self.distribution.is_extension_module_file_loadable() {
            self.resources.add_relative_path_extension_module(extension_module, prefix)
        } else {
            Err(PackagingError::FileLoadingUnsupported)
        }
    }

    /// Adds an extension module that does not come with the distribution as
    /// a shared library, placed where the policy wants it.
    pub fn add_dynamic_extension_module(&mut self, extension_module: &PythonExtensionModule) -> (r:
        Result<(), PackagingError>)
        ensures
            old(self)@.wf() ==> final(self)@.wf(),
            final(self)@ == old(self)@.with_collection(final(self)@.collection),
            dynamic_module_added(old(self)@, final(self)@.collection, r, extension_module@),
    {
        if extension_module.shared_library.is_none() {
            return Err(PackagingError::NoSharedLibrary);
        }
        let policy = self.packaging_policy.get_resources_policy().clone();
        match policy {
            PythonResourcesPolicy::InMemoryOnly => {
                if self.supports_in_memory_dynamically_linked_extension_loading {
                    self.load_shared_library(extension_module)
                } else {
                    Err(PackagingError::InMemoryOnlyUnsupported(extension_module.name.clone()))
                }
            },
            PythonResourcesPolicy::FilesystemRelativeOnly(prefix) => {
                if self.distribution.is_extension_module_file_loadable() {
                    self.resources.add_relative_path_extension_module(
                        extension_module,
                        prefix.as_str(),
                    )
                } else {
                    Err(PackagingError::FilesystemOnlyUnsupported)
                }
            },
            PythonResourcesPolicy::PreferInMemoryFallbackFilesystemRelative(prefix) => {
                if self.supports_in_memory_dynamically_linked_extension_loading {
                    match self.load_shared_library(extension_module) {
                        Ok(()) => Ok(()),
                        Err(e) => {
                            assert(self@ == old(self)@);
                            assert(shared_library_loaded(
                                old(self)@.collection,
                                old(self)@.collection,
                                Err::<(), PackagingError>(e),
                                extension_module@,
                            ));
                            let second = self.add_relative_path_dynamic_extension_module(
                                prefix.as_str(),
                                extension_module,
                            );
                            let r = match second {
                                Ok(()) => Ok(()),
                                Err(_) => Err(e),
                            };
                            assert(retried(r, e, second));
                            r
                        },
                    }
                } else if self.distribution.is_extension_module_file_loadable() {
                    self.resources.add_relative_path_extension_module(
                        extension_module,
                        prefix.as_str(),
                    )
                } else {
                    Err(PackagingError::NoLoadingMechanism)
                }
            },
        }
    }

    /// Has an extension module that does not come with the distribution
    /// linked into the interpreter.
    pub fn add_static_extension_module(&mut self, extension_module: &PythonExtensionModule) -> (r:
        Result<(), PackagingError>)
        ensures
            old(self)@.wf() ==> final(self)@.wf(),
            final(self)@ == old(self)@.with_collection(final(self)@.collection),
            external_module_linked_in(
                old(self)@.collection,
                final(self)@.collection,
                r,
                extension_module@,
            ),
    {
        self.resources.add_builtin_extension_module(extension_module)
    }

    /// Drops every resource and every extension module whose name is not in
    /// `resource_names`.
    pub fn filter_resources_from_files(&mut self, resource_names: &StringSet) -> (r: Result<
        (),
        PackagingError,
    >)
        ensures
            old(self)@.wf() ==> final(self)@.wf(),
            final(self)@ == old(self)@.with_collection(final(self)@.collection),
            r is Ok,
            final(self)@.collection == crate::embedded_resource::filtered(
                old(self)@.collection,
                resource_names@,
            ),
    {
        self.resources.filter_from_files(resource_names)
    }
}

/// What holds of a collection before and after one item was handled, and of
/// how that went.
pub type Step<T> = spec_fn(CollectionView, CollectionView, Result<(), PackagingError>, T) -> bool;

/// Whether `step` holds of the collections `b` and `a`, of `r` and of `item`.
pub open spec fn holds<T>(
    step: Step<T>,
    b: CollectionView,
    a: CollectionView,
    r: Result<(), PackagingError>,
    item: T,
) -> bool {
    step(b, a, r, item)
}

/// Whether `trace` holds the collections that were passed through while
/// `items` were handled one after the other, each as `step` says, up to the
/// first failure: the collection before the first item, and the collection
/// after each item that was handled. Every item but the last that was
/// handled went well, and that one went as `r` says; where `r` is no
/// failure, all items were handled.
pub open spec fn traced<T>(
    step: Step<T>,
    r: Result<(), PackagingError>,
    items: Seq<T>,
    trace: Seq<CollectionView>,
) -> bool {
    let n = trace.len() - 1;
    &&& 0 <= n <= items.len()
    &&& forall|i: int|
        0 <= i < n - 1 ==> #[trigger] holds(
            step,
            trace[i],
            trace[i + 1],
            Ok::<(), PackagingError>(()),
            items[i],
        )
    &&& n > 0 ==> holds(step, trace[n - 1], trace[n], r, items[n - 1])
    &&& n == 0 ==> r is Ok
    &&& r is Ok ==> n == items.len()
}

/// What holds when `items` were handled one after the other, each as `step`
/// says, up to the first failure: the collection went from `before` to
/// `after` through a trace of collections.
pub open spec fn all_done<T>(
    step: Step<T>,
    before: CollectionView,
    after: CollectionView,
    r: Result<(), PackagingError>,
    items: Seq<T>,
) -> bool {
    exists|trace: Seq<CollectionView>| #[trigger]
        traced(step, r, items, trace) && trace[0] == before && trace.last() == after
}

/// Where the first `k` items went well and the next went as `r` says, the
/// trace with the collection after that item is the trace of the first
/// `k + 1` items, and, where `r` is a failure, of all items.
pub proof fn lemma_one_more<T>(
    step: Step<T>,
    trace: Seq<CollectionView>,
    after: CollectionView,
    r: Result<(), PackagingError>,
    items: Seq<T>,
    k: int,
)
    requires
        0 <= k < items.len(),
        trace.len() == k + 1,
        traced(step, Ok::<(), PackagingError>(()), items.take(k), trace),
        holds(step, trace.last(), after, r, items[k]),
    ensures
        traced(step, r, items.take(k + 1), trace.push(after)),
        r is Err ==> traced(step, r, items, trace.push(after)),
{
    let more = trace.push(after);
    let head = items.take(k);
    assert forall|i: int| 0 <= i < k implies #[trigger] holds(
        step,
        more[i],
        more[i + 1],
        Ok::<(), PackagingError>(()),
        items[i],
    ) by {
        assert(more[i] == trace[i] && more[i + 1] == trace[i + 1]);
        assert(head[i] == items[i]);
        if i < k - 1 {
            assert(holds(step, trace[i], trace[i + 1], Ok::<(), PackagingError>(()), head[i]));
        } else {
            assert(holds(step, trace[k - 1], trace[k], Ok::<(), PackagingError>(()), head[k - 1]));
        }
    }
    assert(more[k] == trace.last());
    assert(items.take(k + 1)[k] == items[k]);
    assert forall|i: int| 0 <= i < k implies #[trigger] holds(
        step,
        more[i],
        more[i + 1],
        Ok::<(), PackagingError>(()),
        items.take(k + 1)[i],
    ) by {
        assert(items.take(k + 1)[i] == items[i]);
    }
}

/// Whether two collections admit the same kinds of place.
pub open spec fn same_places(a: CollectionView, b: CollectionView) -> bool {
    a.locations == b.locations && a.extension_locations == b.extension_locations
}

/// The step of adding an extension module of the distribution.
pub open spec fn module_step(settings: BuilderView) -> Step<ExtensionModuleView> {
    |b: CollectionView, a: CollectionView, r: Result<(), PackagingError>, m: ExtensionModuleView|
        distribution_module_added(settings.with_collection(b), a, r, m)
}

/// The request for the bytecode of a source, not optimised.
pub open spec fn bytecode_request_of(source: ModuleSourceView) -> BytecodeRequestView {
    BytecodeRequestView {
        name: source.name,
        source: source.source,
        optimize_level: BytecodeOptimizationLevel::Zero,
        is_package: source.is_package,
        cache_tag: source.cache_tag,
        is_stdlib: source.is_stdlib,
        is_test: source.is_test,
    }
}

/// What holds when the source of a module was offered: it is placed where
/// the policy wants it, if the policy wants it at all.
pub open spec fn source_offered(
    settings: BuilderView,
    packaging: PackagingPolicyView,
    b: CollectionView,
    a: CollectionView,
    r: Result<(), PackagingError>,
    source: ModuleSourceView,
) -> bool {
    if packaging.includes_source(source) {
        placed_by_policy(
            settings.with_collection(b),
            a,
            r,
            source.name,
            with_module_source(record_at(b.records, source.name), source, LocationView::InMemory),
            with_module_source(
                record_at(b.records, source.name),
                source,
                LocationView::RelativePath(policy_prefix(settings.policy())),
            ),
        )
    } else {
        r is Ok && a == b
    }
}

/// What holds when the bytecode of a source was offered: a request for it is
/// placed where the policy wants it, if the policy wants it at all.
pub open spec fn bytecode_offered(
    settings: BuilderView,
    packaging: PackagingPolicyView,
    b: CollectionView,
    a: CollectionView,
    r: Result<(), PackagingError>,
    source: ModuleSourceView,
) -> bool {
    let module = bytecode_request_of(source);
    if packaging.includes_bytecode(module) {
        placed_by_policy(
            settings.with_collection(b),
            a,
            r,
            module.name,
            with_bytecode_request(
                record_at(b.records, module.name),
                module,
                LocationView::InMemory,
            ),
            with_bytecode_request(
                record_at(b.records, module.name),
                module,
                LocationView::RelativePath(policy_prefix(settings.policy())),
            ),
        )
    } else {
        r is Ok && a == b
    }
}

/// The step of offering a source and then its bytecode; the bytecode is not
/// offered where the source failed.
pub open spec fn source_step(settings: BuilderView, packaging: PackagingPolicyView) -> Step<
    ModuleSourceView,
> {
    |b: CollectionView, a: CollectionView, r: Result<(), PackagingError>, source: ModuleSourceView|
        {
            ||| r is Err && source_offered(settings, packaging, b, a, r, source)
            ||| exists|mid: CollectionView| #[trigger]
                source_offered(
                    settings,
                    packaging,
                    b,
                    mid,
                    Ok::<(), PackagingError>(()),
                    source,
                ) && bytecode_offered(settings, packaging, mid, a, r, source)
        }
}

/// The step of offering a data file of a package: it is placed where the
/// policy wants it, if the policy wants it at all.
pub open spec fn resource_step(settings: BuilderView, packaging: PackagingPolicyView) -> Step<
    crate::resource::PackageResourceView,
> {
    |
        b: CollectionView,
        a: CollectionView,
        r: Result<(), PackagingError>,
        resource: crate::resource::PackageResourceView,
    |
        if packaging.includes_resource(resource) {
            placed_by_policy(
                settings.with_collection(b),
                a,
                r,
                resource.leaf_package,
                with_package_resource(
                    record_at(b.records, resource.leaf_package),
                    resource,
                    LocationView::InMemory,
                    package_resource_path(
                        Seq::empty(),
                        resource.leaf_package,
                        resource.relative_name,
                    ),
                ),
                with_package_resource(
                    record_at(b.records, resource.leaf_package),
                    resource,
                    LocationView::RelativePath(policy_prefix(settings.policy())),
                    package_resource_path(
                        policy_prefix(settings.policy()),
                        resource.leaf_package,
                        resource.relative_name,
                    ),
                ),
            )
        } else {
            r is Ok && a == b
        }
}

/// The variants of the extension modules of a distribution, each list taken
/// for what it stands for, in the order of the modules' names.
pub open spec fn variants_of(entries: Seq<(Seq<char>, Vec<PythonExtensionModule>)>) -> Seq<
    Seq<ExtensionModuleView>,
> {
    entries.map_values(
        |e: (Seq<char>, Vec<PythonExtensionModule>)|
            e.1@.map_values(|m: PythonExtensionModule| m@),
    )
}

/// Whether every extension module comes with a variant at least.
pub open spec fn all_have_variants(entries: Seq<(Seq<char>, Vec<PythonExtensionModule>)>) -> bool {
    forall|i: int| 0 <= i < entries.len() ==> (#[trigger] entries[i]).1.len() > 0
}

/// Whether the extension module at `i` is the first that comes without a
/// variant.
pub open spec fn first_without_variant(
    entries: Seq<(Seq<char>, Vec<PythonExtensionModule>)>,
    i: int,
) -> bool {
    &&& 0 <= i < entries.len()
    &&& entries[i].1.len() == 0
    &&& forall|j: int| 0 <= j < i ==> (#[trigger] entries[j]).1.len() > 0
}

/// The failures that come of placing a resource or an extension module.
pub open spec fn placement_failure(e: PackagingError) -> bool {
    ||| e is Collector
    ||| e is InMemoryWithoutSharedLibrary
    ||| e is RelativePathWithoutSharedLibrary
    ||| e is InMemoryLoadingUnsupported
    ||| e is FileLoadingUnsupported
}

/// Whether success is owed when an extension module of the distribution is
/// added to a builder with these settings: it is linked in; or the binary
/// can load it from where the policy wants it, that place is admitted, and
/// its shared library is held in memory. Under the policy that prefers
/// memory, one of the two places is enough.
pub open spec fn placement_owed(settings: BuilderView, module: ExtensionModuleView) -> bool {
    let locations = settings.collection.locations;
    let extension_locations = settings.collection.extension_locations;
    let in_memory = settings.in_memory_loading && crate::collector::extension_module_accepted(
        locations,
        extension_locations,
        module,
        LocationView::InMemory,
        None,
    );
    let below = |prefix: Seq<char>|
        settings.file_loading && crate::collector::extension_module_accepted(
            locations,
            extension_locations,
            module,
            LocationView::RelativePath(prefix),
            directory_of(module, prefix),
        );
    match distribution_placement(settings.policy(), settings.link_mode, module.builtin_default) {
        Placement::Builtin => true,
        Placement::InMemory => in_memory,
        Placement::RelativePath(prefix) => below(prefix),
        Placement::InMemoryThenRelativePath(prefix) => in_memory || below(prefix),
    }
}

/// Whether success is owed for each of these extension modules.
pub open spec fn placements_owed(settings: BuilderView, modules: Seq<ExtensionModuleView>) -> bool {
    forall|i: int| 0 <= i < modules.len() ==> placement_owed(settings, #[trigger] modules[i])
}

/// What holds when the resources of a distribution were added: first the
/// extension modules, then the sources with their bytecode, then the data
/// files; each kind one after the other, all up to the first failure.
pub open spec fn distribution_resources_added(
    before: BuilderView,
    packaging: PackagingPolicyView,
    after: CollectionView,
    r: Result<(), PackagingError>,
    modules: Seq<ExtensionModuleView>,
    sources: Seq<ModuleSourceView>,
    datas: Seq<crate::resource::PackageResourceView>,
) -> bool {
    let first = module_step(before);
    ||| r is Err && all_done(first, before.collection, after, r, modules)
    ||| exists|m1: CollectionView| #[trigger]
        all_done(first, before.collection, m1, Ok::<(), PackagingError>(()), modules) && {
            let second = source_step(before.with_collection(m1), packaging);
            ||| r is Err && all_done(second, m1, after, r, sources)
            ||| exists|m2: CollectionView| #[trigger]
                all_done(second, m1, m2, Ok::<(), PackagingError>(()), sources) && all_done(
                    resource_step(before.with_collection(m2), packaging),
                    m2,
                    after,
                    r,
                    datas,
                )
        }
}

/// What holds when a builder was to add what its distribution offers and
/// its policy wants. Where the distribution names an extension module
/// without a variant, it fails with the name of the first such module and
/// nothing has changed, and only then does it fail so. Else the extension
/// modules that the policy chooses, the sources of the standard library and
/// its data files were added, up to the first failure. Where the collection
/// admits what the policy wants, sources and data files do not fail: then
/// success is owed where it is owed for each extension module that the
/// policy chooses. What is chosen is a variant of an extension module of the
/// distribution, and under the filter that takes all, one of each that works
/// on the target.
pub open spec fn distribution_resources_offered(
    before: BuilderView,
    after: CollectionView,
    r: Result<(), PackagingError>,
) -> bool {
    let d = before.distribution;
    let entries = d.extension_modules.entries();
    let modules = resolved_extension_modules(
        before.packaging,
        variants_of(entries),
        before.target_triple,
    );
    &&& (r matches Err(e) && e is NoVariants) == !all_have_variants(entries)
    &&& !all_have_variants(entries) ==> after == before.collection && exists|i: int| #[trigger]
        first_without_variant(entries, i) && (r matches Err(PackagingError::NoVariants(n)) && n@
            == entries[i].0)
    &&& all_have_variants(entries) ==> distribution_resources_added(
        before,
        before.packaging,
        after,
        r,
        modules,
        stdlib_sources(d),
        stdlib_resources(d),
    )
    &&& all_have_variants(entries) && before.wf() && placements_owed(before, modules) ==> r is Ok
    &&& all_have_variants(entries) ==> crate::collector::chosen_of(
        before.packaging,
        variants_of(entries),
        before.target_triple,
        modules,
    )
}

/// What holds when a resource was placed where the policy wants it, with
/// `in_memory` as the record of `name` if it goes into memory and `on_disk`
/// as its record if it goes below the prefix of the policy. Under the policy
/// that prefers memory, the resource goes on disk where the collection does
/// not admit it in memory.
pub open spec fn placed_by_policy(
    before: BuilderView,
    after: CollectionView,
    r: Result<(), PackagingError>,
    name: Seq<char>,
    in_memory: ResourceRecord,
    on_disk: ResourceRecord,
) -> bool {
    match before.policy() {
        PolicyView::InMemoryOnly => resource_added(
            before.collection,
            after,
            r,
            AbstractResourceLocation::InMemory,
            name,
            in_memory,
        ),
        PolicyView::FilesystemRelativeOnly(_) => resource_added(
            before.collection,
            after,
            r,
            AbstractResourceLocation::RelativePath,
            name,
            on_disk,
        ),
        PolicyView::PreferInMemoryFallbackFilesystemRelative(_) => {
            if before.collection.locations.contains(AbstractResourceLocation::InMemory) {
                resource_added(
                    before.collection,
                    after,
                    r,
                    AbstractResourceLocation::InMemory,
                    name,
                    in_memory,
                )
            } else {
                resource_added(
                    before.collection,
                    after,
                    r,
                    AbstractResourceLocation::RelativePath,
                    name,
                    on_disk,
                )
            }
        },
    }
}

/// The prefix of a policy; empty where it has none.
pub open spec fn policy_prefix(policy: PolicyView) -> Seq<char> {
    match policy {
        PolicyView::InMemoryOnly => Seq::empty(),
        PolicyView::FilesystemRelativeOnly(p) => p,
        PolicyView::PreferInMemoryFallbackFilesystemRelative(p) => p,
    }
}

/// What is needed to link a binary against the interpreter's library.
#[derive(Debug, Clone, PartialEq)]
pub struct PythonLinkingInfo {
    /// The file name of the library to link against.
    pub libpythonxy_filename: String,
    /// The content of that library.
    pub libpythonxy_data: Vec<u8>,
    /// The path of the interpreter's shared library, where it is linked
    /// dynamically.
    pub libpython_filename: Option<String>,
    /// The file name of the library that holds the configuration of the
    /// embedded interpreter.
    pub libpyembeddedconfig_filename: Option<String>,
    /// The content of that library.
    pub libpyembeddedconfig_data: Option<Vec<u8>>,
    /// Lines for the build tool.
    pub cargo_metadata: Vec<String>,
}

/// The interpreter's library, built for static linking.
#[derive(Debug, Clone, PartialEq)]
pub struct LinkedLibpython {
    /// The path of the library.
    pub libpython_path: String,
    /// The content of the library.
    pub libpython_data: Vec<u8>,
    /// The path of the library that holds the configuration of the embedded
    /// interpreter.
    pub libpyembeddedconfig_path: String,
    /// The content of that library.
    pub libpyembeddedconfig_data: Vec<u8>,
    /// Lines for the build tool.
    pub cargo_metadata: Vec<String>,
}

/// What the linking info of a binary is: with a statically linked
/// interpreter, the library that was built and its configuration, each under
/// its file name; with a dynamically linked one, the import library
/// `pythonXY.lib` without content, and the path of the shared library.
pub open spec fn linking_info_resolved(
    r: Result<PythonLinkingInfo, PackagingError>,
    link_mode: LibpythonLinkMode,
    shared_library: Option<Seq<char>>,
    linked: Option<LinkedLibpython>,
) -> bool {
    match link_mode {
        LibpythonLinkMode::Dynamic => r matches Ok(info) && {
            &&& info.libpythonxy_filename@ == "pythonXY.lib"@
            &&& info.libpythonxy_data@ == Seq::<u8>::empty()
            &&& text_of(info.libpython_filename) == shared_library
            &&& info.libpyembeddedconfig_filename is None
            &&& info.libpyembeddedconfig_data is None
            &&& info.cargo_metadata@ == Seq::<String>::empty()
        },
        LibpythonLinkMode::Static => match linked {
            None => r == Err::<PythonLinkingInfo, PackagingError>(
                PackagingError::MissingLinkedLibrary,
            ),
            Some(library) => if file_name_of(library.libpython_path@) is None || file_name_of(
                library.libpyembeddedconfig_path@,
            ) is None {
                r == Err::<PythonLinkingInfo, PackagingError>(PackagingError::NoFileName)
            } else {
                r matches Ok(info) && {
                    &&& Some(info.libpythonxy_filename@) == file_name_of(library.libpython_path@)
                    &&& info.libpythonxy_data == library.libpython_data
                    &&& info.libpython_filename is None
                    &&& text_of(info.libpyembeddedconfig_filename) == file_name_of(
                        library.libpyembeddedconfig_path@,
                    )
                    &&& info.libpyembeddedconfig_data == Some(library.libpyembeddedconfig_data)
                    &&& info.cargo_metadata == library.cargo_metadata
                }
            },
        },
    }
}

impl StandalonePythonExecutableBuilder {
    /// Adds the source of a module where the policy wants it.
    pub fn add_module_source(&mut self, module: &PythonModuleSource) -> (r: Result<
        (),
        PackagingError,
    >)
        ensures
            old(self)@.wf() ==> final(self)@.wf(),
            final(self)@ == old(self)@.with_collection(final(self)@.collection),
            placed_by_policy(
                old(self)@,
                final(self)@.collection,
                r,
                module@.name,
                with_module_source(
                    record_at(old(self)@.collection.records, module@.name),
                    module@,
                    LocationView::InMemory,
                ),
                with_module_source(
                    record_at(old(self)@.collection.records, module@.name),
                    module@,
                    LocationView::RelativePath(policy_prefix(old(self)@.policy())),
                ),
            ),
    {
        let policy = self.packaging_policy.get_resources_policy().clone();
        match policy {
            PythonResourcesPolicy::InMemoryOnly => self.add_in_memory_module_source(module),
            PythonResourcesPolicy::FilesystemRelativeOnly(prefix) => {
                self.add_relative_path_module_source(prefix.as_str(), module)
            },
            PythonResourcesPolicy::PreferInMemoryFallbackFilesystemRelative(prefix) => {
                match self.add_in_memory_module_source(module) {
                    Ok(()) => Ok(()),
                    Err(_) => self.add_relative_path_module_source(prefix.as_str(), module),
                }
            },
        }
    }

    /// Adds a request for the bytecode of a module where the policy wants it.
    pub fn add_module_bytecode(&mut self, module: &PythonModuleBytecodeFromSource) -> (r: Result<
        (),
        PackagingError,
    >)
        ensures
            old(self)@.wf() ==> final(self)@.wf(),
            final(self)@ == old(self)@.with_collection(final(self)@.collection),
            placed_by_policy(
                old(self)@,
                final(self)@.collection,
                r,
                module@.name,
                with_bytecode_request(
                    record_at(old(self)@.collection.records, module@.name),
                    module@,
                    LocationView::InMemory,
                ),
                with_bytecode_request(
                    record_at(old(self)@.collection.records, module@.name),
                    module@,
                    LocationView::RelativePath(policy_prefix(old(self)@.policy())),
                ),
            ),
    {
        let policy = self.packaging_policy.get_resources_policy().clone();
        match policy {
            PythonResourcesPolicy::InMemoryOnly => self.add_in_memory_module_bytecode(module),
            PythonResourcesPolicy::FilesystemRelativeOnly(prefix) => {
                self.add_relative_path_module_bytecode(prefix.as_str(), module)
            },
            PythonResourcesPolicy::PreferInMemoryFallbackFilesystemRelative(prefix) => {
                match self.add_in_memory_module_bytecode(module) {
                    Ok(()) => Ok(()),
                    Err(_) => self.add_relative_path_module_bytecode(prefix.as_str(), module),
                }
            },
        }
    }

    /// Adds a data file of a package where the policy wants it.
    pub fn add_package_resource(&mut self, resource: &PythonPackageResource) -> (r: Result<
        (),
        PackagingError,
    >)
        ensures
            old(self)@.wf() ==> final(self)@.wf(),
            final(self)@ == old(self)@.with_collection(final(self)@.collection),
            placed_by_policy(
                old(self)@,
                final(self)@.collection,
                r,
                resource@.leaf_package,
                with_package_resource(
                    record_at(old(self)@.collection.records, resource@.leaf_package),
                    resource@,
                    LocationView::InMemory,
                    package_resource_path(
                        Seq::empty(),
                        resource@.leaf_package,
                        resource@.relative_name,
                    ),
                ),
                with_package_resource(
                    record_at(old(self)@.collection.records, resource@.leaf_package),
                    resource@,
                    LocationView::RelativePath(policy_prefix(old(self)@.policy())),
                    package_resource_path(
                        policy_prefix(old(self)@.policy()),
                        resource@.leaf_package,
                        resource@.relative_name,
                    ),
                ),
            ),
    {
        let policy = self.packaging_policy.get_resources_policy().clone();
        match policy {
            PythonResourcesPolicy::InMemoryOnly => self.add_in_memory_package_resource(resource),
            PythonResourcesPolicy::FilesystemRelativeOnly(prefix) => {
                self.add_relative_path_package_resource(prefix.as_str(), resource)
            },
            PythonResourcesPolicy::PreferInMemoryFallbackFilesystemRelative(prefix) => {
                match self.add_in_memory_package_resource(resource) {
                    Ok(()) => Ok(()),
                    Err(_) => self.add_relative_path_package_resource(prefix.as_str(), resource),
                }
            },
        }
    }

    /// Adds extension modules of the distribution, each where it belongs,
    /// one after the other. It stops at the first failure.
    pub fn add_distribution_extension_modules(&mut self, modules: &Vec<PythonExtensionModule>) -> (r:
        Result<(), PackagingError>)
        ensures
            final(self)@ == old(self)@.with_collection(final(self)@.collection),
            same_places(old(self)@.collection, final(self)@.collection),
            all_done(
                module_step(old(self)@),
                old(self)@.collection,
                final(self)@.collection,
                r,
                views(modules@),
            ),
            r matches Err(e) ==> placement_failure(e),
            placements_owed(old(self)@, views(modules@)) ==> r is Ok,
            old(self)@.wf() ==> final(self)@.wf(),
    {
        let ghost step = module_step(old(self)@);
        let ghost items = views(modules@);
        let ghost mut trace = seq![self@.collection];
        let mut i: usize = 0;
        while i < modules.len()
            invariant
                i <= modules.len(),
                step == module_step(old(self)@),
                items == views(modules@),
                self@ == old(self)@.with_collection(self@.collection),
                same_places(old(self)@.collection, self@.collection),
                trace.len() == i + 1,
                trace[0] == old(self)@.collection,
                trace.last() == self@.collection,
                traced(step, Ok::<(), PackagingError>(()), items.take(i as int), trace),
            decreases modules.len() - i,
        {
            let r = self.add_distribution_extension_module(&modules[i]);
            proof {
                assert(items[i as int] == modules[i as int]@);
                assert(r matches Err(e) ==> placement_failure(e));
                assert(placement_owed(old(self)@, items[i as int]) ==> r is Ok);
                assert(holds(step, trace.last(), self@.collection, r, items[i as int]));
                lemma_one_more(step, trace, self@.collection, r, items, i as int);
                trace = trace.push(self@.collection);
            }
            match r {
                Ok(()) => {
                    assert(r->Ok_0 == ());
                },
                Err(e) => {
                    return Err(e);
                },
            }
            i += 1;
        }
        assert(items.take(i as int) =~= items);
        Ok(())
    }

    /// Adds sources of modules, and requests for their bytecode, as far as
    /// the policy wants them and where it wants them, one module after the
    /// other. It stops at the first failure.
    pub fn add_distribution_sources(&mut self, sources: &Vec<PythonModuleSource>) -> (r: Result<
        (),
        PackagingError,
    >)
        ensures
            final(self)@ == old(self)@.with_collection(final(self)@.collection),
            same_places(old(self)@.collection, final(self)@.collection),
            all_done(
                source_step(old(self)@, old(self)@.packaging),
                old(self)@.collection,
                final(self)@.collection,
                r,
                views(sources@),
            ),
            r matches Err(e) ==> placement_failure(e),
            old(self)@.wf() ==> r is Ok && final(self)@.wf(),
    {
        let ghost settings = old(self)@;
        let ghost packaging = old(self)@.packaging;
        let ghost step = source_step(settings, packaging);
        let ghost items = views(sources@);
        let ghost mut trace = seq![self@.collection];
        let mut i: usize = 0;
        while i < sources.len()
            invariant
                i <= sources.len(),
                settings == old(self)@,
                packaging == old(self)@.packaging,
                step == source_step(settings, packaging),
                items == views(sources@),
                self@ == old(self)@.with_collection(self@.collection),
                same_places(old(self)@.collection, self@.collection),
                trace.len() == i + 1,
                trace[0] == old(self)@.collection,
                trace.last() == self@.collection,
                traced(step, Ok::<(), PackagingError>(()), items.take(i as int), trace),
            decreases sources.len() - i,
        {
            let source = &sources[i];
            let ghost start = self@.collection;
            assert(items[i as int] == source@);
            if self.packaging_policy.includes_source(source) {
                let r = self.add_module_source(source);
                match r {
                    Ok(()) => {},
                    Err(e) => {
                        proof {
                            assert(source_offered(
                                settings,
                                packaging,
                                start,
                                self@.collection,
                                r,
                                source@,
                            ));
                            assert(holds(step, start, self@.collection, r, source@));
                            lemma_one_more(step, trace, self@.collection, r, items, i as int);
                            trace = trace.push(self@.collection);
                        }
                        return Err(e);
                    },
                }
            }
            let ghost mid = self@.collection;
            assert(source_offered(
                settings,
                packaging,
                start,
                mid,
                Ok::<(), PackagingError>(()),
                source@,
            ));
            let bytecode = source.as_bytecode_module(BytecodeOptimizationLevel::Zero);
            assert(bytecode@ == bytecode_request_of(source@));
            let r = if self.packaging_policy.includes_bytecode(&bytecode) {
                self.add_module_bytecode(&bytecode)
            } else {
                Ok(())
            };
            proof {
                assert(bytecode_offered(settings, packaging, mid, self@.collection, r, source@));
                assert(holds(step, start, self@.collection, r, source@));
                lemma_one_more(step, trace, self@.collection, r, items, i as int);
                trace = trace.push(self@.collection);
            }
            match r {
                Ok(()) => {
                    assert(r->Ok_0 == ());
                },
                Err(e) => {
                    return Err(e);
                },
            }
            i += 1;
        }
        assert(items.take(i as int) =~= items);
        Ok(())
    }

    /// Adds data files of packages, as far as the policy wants them and
    /// where it wants them, one after the other. It stops at the first
    /// failure.
    pub fn add_distribution_package_resources(&mut self, datas: &Vec<PythonPackageResource>) -> (r:
        Result<(), PackagingError>)
        ensures
            final(self)@ == old(self)@.with_collection(final(self)@.collection),
            same_places(old(self)@.collection, final(self)@.collection),
            all_done(
                resource_step(old(self)@, old(self)@.packaging),
                old(self)@.collection,
                final(self)@.collection,
                r,
                views(datas@),
            ),
            r matches Err(e) ==> placement_failure(e),
            old(self)@.wf() ==> r is Ok && final(self)@.wf(),
    {
        let ghost settings = old(self)@;
        let ghost packaging = old(self)@.packaging;
        let ghost step = resource_step(settings, packaging);
        let ghost items = views(datas@);
        let ghost mut trace = seq![self@.collection];
        let mut i: usize = 0;
        while i < datas.len()
            invariant
                i <= datas.len(),
                settings == old(self)@,
                packaging == old(self)@.packaging,
                step == resource_step(settings, packaging),
                items == views(datas@),
                self@ == old(self)@.with_collection(self@.collection),
                same_places(old(self)@.collection, self@.collection),
                trace.len() == i + 1,
                trace[0] == old(self)@.collection,
                trace.last() == self@.collection,
                traced(step, Ok::<(), PackagingError>(()), items.take(i as int), trace),
            decreases datas.len() - i,
        {
            let ghost start = self@.collection;
            assert(items[i as int] == datas[i as int]@);
            let r = if self.packaging_policy.includes_resource(&datas[i]) {
                self.add_package_resource(&datas[i])
            } else {
                Ok(())
            };
            proof {
                assert(holds(step, start, self@.collection, r, items[i as int]));
                lemma_one_more(step, trace, self@.collection, r, items, i as int);
                trace = trace.push(self@.collection);
            }
            match r {
                Ok(()) => {
                    assert(r->Ok_0 == ());
                },
                Err(e) => {
                    return Err(e);
                },
            }
            i += 1;
        }
        assert(items.take(i as int) =~= items);
        Ok(())
    }

    /// Adds what the distribution offers and the policy wants: the extension
    /// modules that the policy chooses, each where it belongs; the sources of
    /// the standard library and requests for their bytecode; its data files.
    /// It stops at the first failure. Where the distribution names an
    /// extension module without a variant, it fails with the name of the
    /// first such module before anything is added, and only then with that
    /// failure. Where the collection admits what the policy wants, sources
    /// and data files do not fail, so that success is owed where it is owed
    /// for each of the extension modules that the policy chooses.
    pub fn add_distribution_resources(&mut self) -> (r: Result<(), PackagingError>)
        ensures
            final(self)@ == old(self)@.with_collection(final(self)@.collection),
            same_places(old(self)@.collection, final(self)@.collection),
            old(self)@.wf() ==> final(self)@.wf(),
            distribution_resources_offered(old(self)@, final(self)@.collection, r),
    {
        let variants = self.distribution.extension_modules.items();
        let ghost entries = self@.distribution.extension_modules.entries();
        let mut k: usize = 0;
        while k < variants.len()
            invariant
                k <= variants.len(),
                self@ == old(self)@,
                crate::name_map::entries_of(variants@) == entries,
                entries == self@.distribution.extension_modules.entries(),
                forall|i: int| 0 <= i < k ==> (#[trigger] variants[i]).1.len() > 0,
            decreases variants.len() - k,
        {
            if variants[k].1.len() == 0 {
                proof {
                    assert forall|j: int| 0 <= j < k implies (#[trigger] entries[j]).1.len()
                        > 0 by {
                        assert(entries[j].1 == variants[j].1);
                    }
                    assert(entries[k as int].1 == variants[k as int].1);
                    assert(entries[k as int].0 == variants[k as int].0@);
                    assert(first_without_variant(entries, k as int));
                }
                return Err(PackagingError::NoVariants(variants[k].0.clone()));
            }
            k += 1;
        }
        proof {
            assert forall|j: int| 0 <= j < entries.len() implies (#[trigger] entries[j]).1.len()
                > 0 by {
                assert(entries[j].1 == variants[j].1);
            }
            assert(all_have_variants(entries));
        }
        let extensions = policy_resolve_extension_modules(
            &self.packaging_policy,
            variants,
            self.target_triple.as_str(),
        ).unwrap();
        proof {
            assert(crate::collector::variant_views(variants@) =~= variants_of(
                self.distribution.extension_modules.entries(),
            ));
        }
        let sources = match self.distribution.source_modules() {
            Ok(sources) => sources,
            Err(e) => {
                return Err(e);
            },
        };
        let datas = match self.distribution.resource_datas() {
            Ok(datas) => datas,
            Err(e) => {
                return Err(e);
            },
        };
        let ghost before = self@;
        let ghost packaging = self@.packaging;
        assert(before == old(self)@);
        let ghost modules = resolved_extension_modules(
            packaging,
            variants_of(before.distribution.extension_modules.entries()),
            before.target_triple,
        );
        let ghost wanted_sources = stdlib_sources(before.distribution);
        let ghost wanted_datas = stdlib_resources(before.distribution);
        assert(views(extensions@) == modules);
        assert(views(sources@) == wanted_sources);
        assert(views(datas@) == wanted_datas);
        let r1 = self.add_distribution_extension_modules(&extensions);
        let ghost first = self@.collection;
        assert(all_done(module_step(before), before.collection, first, r1, modules));
        match r1 {
            Ok(()) => {},
            Err(e) => {
                return Err(e);
            },
        }
        assert(r1->Ok_0 == ());
        assert(all_done(
            module_step(before),
            before.collection,
            first,
            Ok::<(), PackagingError>(()),
            modules,
        ));
        assert(self@ == before.with_collection(first));
        let r2 = self.add_distribution_sources(&sources);
        let ghost second = self@.collection;
        assert(all_done(
            source_step(before.with_collection(first), packaging),
            first,
            second,
            r2,
            wanted_sources,
        ));
        match r2 {
            Ok(()) => {},
            Err(e) => {
                assert(distribution_resources_added(
                    before,
                    packaging,
                    second,
                    r2,
                    modules,
                    wanted_sources,
                    wanted_datas,
                ));
                return Err(e);
            },
        }
        assert(r2->Ok_0 == ());
        assert(all_done(
            source_step(before.with_collection(first), packaging),
            first,
            second,
            Ok::<(), PackagingError>(()),
            wanted_sources,
        ));
        assert(self@ == before.with_collection(second));
        let r3 = self.add_distribution_package_resources(&datas);
        assert(all_done(
            resource_step(before.with_collection(second), packaging),
            second,
            self@.collection,
            r3,
            wanted_datas,
        ));
        assert(distribution_resources_added(
            before,
            packaging,
            self@.collection,
            r3,
            modules,
            wanted_sources,
            wanted_datas,
        ));
        r3
    }

    /// What is needed to link the binary against the interpreter's library.
    /// With a statically linked interpreter that takes the library that was
    /// built for it.
    pub fn resolve_python_linking_info(&self, linked: Option<LinkedLibpython>) -> (r: Result<
        PythonLinkingInfo,
        PackagingError,
    >)
        ensures
            linking_info_resolved(r, self@.link_mode, self@.shared_library, linked),
    {
        match self.link_mode {
            LibpythonLinkMode::Static => {
                let library = match linked {
                    Some(library) => library,
                    None => {
                        return Err(PackagingError::MissingLinkedLibrary);
                    },
                };
                let libpythonxy_filename = match path_file_name(library.libpython_path.as_str()) {
                    Some(name) => name,
                    None => {
                        return Err(PackagingError::NoFileName);
                    },
                };
                let config_filename = match path_file_name(
                    library.libpyembeddedconfig_path.as_str(),
                ) {
                    Some(name) => name,
                    None => {
                        return Err(PackagingError::NoFileName);
                    },
                };
                Ok(
                    PythonLinkingInfo {
                        libpythonxy_filename,
                        libpythonxy_data: library.libpython_data,
                        libpython_filename: None,
                        libpyembeddedconfig_filename: Some(config_filename),
                        libpyembeddedconfig_data: Some(library.libpyembeddedconfig_data),
                        cargo_metadata: library.cargo_metadata,
                    },
                )
            },
            LibpythonLinkMode::Dynamic => Ok(
                PythonLinkingInfo {
                    libpythonxy_filename: String::from_str("pythonXY.lib"),
                    libpythonxy_data: Vec::new(),
                    libpython_filename: crate::resource::clone_text(
                        &self.distribution.libpython_shared_library,
                    ),
                    libpyembeddedconfig_filename: None,
                    libpyembeddedconfig_data: None,
                    cargo_metadata: Vec::new(),
                },
            ),
        }
    }

    /// The interpreter's shared library that is installed beside the binary:
    /// its path and the file name to install it under. There is one where the
    /// interpreter is linked dynamically and the distribution has a shared
    /// library.
    pub fn libpython_install(&self) -> (r: Result<Option<(String, String)>, PackagingError>)
        ensures
            match (self@.link_mode, self@.shared_library) {
                (LibpythonLinkMode::Dynamic, Some(path)) => match file_name_of(path) {
                    Some(name) => r matches Ok(Some(found)) && found.0@ == path && found.1@ == name,
                    None => r == Err::<Option<(String, String)>, PackagingError>(
                        PackagingError::NoFileName,
                    ),
                },
                _ => r matches Ok(None),
            },
    {
        match self.link_mode {
            LibpythonLinkMode::Static => Ok(None),
            LibpythonLinkMode::Dynamic => match &self.distribution.libpython_shared_library {
                None => Ok(None),
                Some(path) => match path_file_name(path.as_str()) {
                    Some(name) => Ok(Some((path.clone(), name))),
                    None => Err(PackagingError::NoFileName),
                },
            },
        }
    }
}

impl StandaloneDistribution {
    /// Makes the builder of a binary named `name`, built on `host_triple`
    /// for `target_triple` from this distribution, and adds what the
    /// distribution offers and the policy wants to a new builder. It fails
    /// where the distribution cannot be linked as wanted, and where adding
    /// fails.
    pub fn as_python_executable_builder(
        self,
        host_triple: &str,
        target_triple: &str,
        name: &str,
        libpython_link_mode: BinaryLibpythonLinkMode,
        policy: &PythonPackagingPolicy,
        config: EmbeddedPythonConfig,
    ) -> (r: Result<StandalonePythonExecutableBuilder, PackagingError>)
        ensures
            match link_mode_of(
                link_support_of(self.target_triple@, self.libpython_shared_library is Some),
                libpython_link_mode,
            ) {
                Err(e) => r is Err && r->Err_0 == e,
                Ok(link_mode) => {
                    let fresh = fresh_builder(
                        host_triple@,
                        target_triple@,
                        name@,
                        self,
                        link_mode,
                        in_memory_loading_of(
                            target_triple@,
                            self.python_symbol_visibility@,
                            self.extension_module_loading@.map_values(|s: String| s@),
                        ),
                        policy@,
                        config,
                    );
                    match r {
                        Ok(builder) => {
                            &&& builder@ == fresh.with_collection(builder@.collection)
                            &&& builder@.wf()
                            &&& distribution_resources_offered(
                                fresh,
                                builder@.collection,
                                Ok::<(), PackagingError>(()),
                            )
                        },
                        Err(e) => exists|after: CollectionView| #[trigger]
                            distribution_resources_offered(
                                fresh,
                                after,
                                Err::<(), PackagingError>(e),
                            ),
                    }
                },
            },
    {
        let link_mode = match self.libpython_link_mode(libpython_link_mode) {
            Ok(mode) => mode,
            Err(e) => {
                return Err(e);
            },
        };
        let supports = self.supports_in_memory_loading(target_triple);
        let mut builder = StandalonePythonExecutableBuilder::new(
            host_triple,
            target_triple,
            name,
            self,
            link_mode,
            supports,
            policy.clone(),
            config,
        );
        let ghost fresh = builder@;
        let added = builder.add_distribution_resources();
        match added {
            Ok(()) => {
                assert(added->Ok_0 == ());
                Ok(builder)
            },
            Err(e) => {
                assert(distribution_resources_offered(
                    fresh,
                    builder@.collection,
                    Err::<(), PackagingError>(e),
                ));
                Err(e)
            },
        }
    }
}

} // verus!
