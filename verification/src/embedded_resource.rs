//! The resources of a binary: collected before packaging, and packaged.

use crate::build_state::{
    distribution_build_state, external_build_state, BuildStateView, ExtensionModuleBuildState,
};
use crate::collector::{
    collector_add_bytecode_request, collector_add_distribution_resource,
    collector_add_extension_module, collector_add_module_source, collector_add_package_resource,
    collector_cache_tag, collector_extension_locations, collector_locations, collector_new,
    collector_records, collector_retain, collector_summaries, compiled_empty,
    compiled_file_installs, compiled_files, compiled_names, compiled_packed,
    compiled_resource_names, compiled_write_packed, distribution_resource_path, error_text,
    extension_module_accepted, extension_module_added, extension_module_directory,
    extension_module_path, extension_module_refused, extension_module_rejected, no_records,
    package_resource_path, prefix_of, record_at, resolve_data, summary_of,
    with_bytecode_request, with_distribution_resource, with_extension_module,
    with_libraries_in_memory, with_module_source, with_package_resource, FileInstall,
    FileInstallView, Records, ResourceRecord, ResourceSummary,
};
use crate::error::PackagingError;
use crate::name_map::{entries_map, entry_names, lemma_entry_at, NameMap};
use crate::resource::{
    views, AbstractResourceLocation, ConcreteResourceLocation, DataLocation, DataLocationView,
    ExtensionModuleView, LocationView, PythonExtensionModule, PythonModuleBytecodeFromSource,
    PythonModuleSource, PythonPackageDistributionResource, PythonPackageResource,
    PythonResourcesPolicy,
};
use crate::string_set::{texts, StringSet};
use crate::text::increasing;
use python_packaging::resource_collection::CompiledResourcesCollection;
use python_packaging::resource_collection::PythonResourceCollector;
use vstd::prelude::*;
use vstd::slice::slice_to_vec;
use vstd::string::StringExecFns;
use vstd::utf8::encode_utf8;

verus! {

/// The build states of a sequence of entries, each under its name.
pub open spec fn state_entries_of(s: Seq<(Seq<char>, ExtensionModuleBuildState)>) -> Seq<
    (Seq<char>, BuildStateView),
> {
    s.map_values(|e: (Seq<char>, ExtensionModuleBuildState)| (e.0, e.1@))
}

/// Entries with the same names, whose states stand for the same, stand for
/// the same build states.
pub proof fn lemma_same_states(
    a: Seq<(Seq<char>, ExtensionModuleBuildState)>,
    b: Seq<(Seq<char>, ExtensionModuleBuildState)>,
)
    requires
        increasing(entry_names(a)),
        a.len() == b.len(),
        forall|i: int| 0 <= i < a.len() ==> (#[trigger] b[i]).0 == a[i].0 && cloned(a[i].1, b[i].1),
    ensures
        state_entries_of(b) == state_entries_of(a),
        entries_map(b).map_values(|s: ExtensionModuleBuildState| s@) == entries_map(a).map_values(
            |s: ExtensionModuleBuildState| s@,
        ),
{
    assert(state_entries_of(b) =~= state_entries_of(a));
    assert(entry_names(b) =~= entry_names(a));
    let x = entries_map(b).map_values(|s: ExtensionModuleBuildState| s@);
    let y = entries_map(a).map_values(|s: ExtensionModuleBuildState| s@);
    assert forall|k: Seq<char>| x.contains_key(k) <==> y.contains_key(k) by {
        if entries_map(b).contains_key(k) {
            let i = crate::name_map::position_of(b, k);
            assert(a[i].0 == k);
        }
        if entries_map(a).contains_key(k) {
            let i = crate::name_map::position_of(a, k);
            assert(b[i].0 == k);
        }
    }
    assert forall|k: Seq<char>| x.contains_key(k) implies x[k] == y[k] by {
        let i = crate::name_map::position_of(a, k);
        assert(b[i].0 == k);
        lemma_entry_at(a, i);
        lemma_entry_at(b, i);
    }
    assert(x =~= y);
}

/// Both kinds of place.
pub open spec fn every_location() -> Set<AbstractResourceLocation> {
    set![AbstractResourceLocation::InMemory, AbstractResourceLocation::RelativePath]
}

/// The extension module that holds nothing but a name, whether it is a
/// package, and its shared library in memory.
pub open spec fn shared_library_module(
    name: Seq<char>,
    is_package: bool,
    data: Seq<u8>,
) -> ExtensionModuleView {
    ExtensionModuleView {
        name,
        init_fn: None,
        extension_file_suffix: Seq::empty(),
        shared_library: Some(DataLocationView::Memory(data)),
        object_file_data: Seq::empty(),
        is_package,
        link_libraries: Seq::empty(),
        is_stdlib: false,
        builtin_default: false,
        required: false,
        variant: None,
        licenses: None,
        license_public_domain: None,
    }
}

/// The failure that stands for a refusal of the collector.
fn refused(e: anyhow::Error) -> (r: PackagingError)
    ensures
        r is Collector,
{
    PackagingError::Collector(error_text(&e))
}

/// What a collection of resources stands for.
pub struct CollectionView {
    /// The records of the resources that are embedded or installed, by name.
    pub records: Records,
    /// The build states of the extension modules that are linked into the
    /// interpreter, by name.
    pub states: Map<Seq<char>, BuildStateView>,
    /// The kinds of place at which resources are admitted.
    pub locations: Set<AbstractResourceLocation>,
    /// The kinds of place at which extension modules are admitted, beside
    /// the former.
    pub extension_locations: Set<AbstractResourceLocation>,
    /// The tag of bytecode files that the collection was made with.
    pub cache_tag: Seq<char>,
}

/// What is left of a collection when the names outside of `keep` are
/// dropped.
pub open spec fn filtered(c: CollectionView, keep: Set<Seq<char>>) -> CollectionView {
    CollectionView { records: c.records.restrict(keep), states: c.states.restrict(keep), ..c }
}

/// Whether `after` differs from `before` in its records at most.
pub open spec fn records_only(before: CollectionView, after: CollectionView) -> bool {
    &&& after.states == before.states
    &&& after.locations == before.locations
    &&& after.extension_locations == before.extension_locations
    &&& after.cache_tag == before.cache_tag
}

/// What holds when a resource was to be put under `name`, with `record` as
/// the new record of that name: it is done if and only if the collection
/// admits the kind of place, and else nothing has changed.
pub open spec fn resource_added(
    before: CollectionView,
    after: CollectionView,
    r: Result<(), PackagingError>,
    kind: AbstractResourceLocation,
    name: Seq<char>,
    record: ResourceRecord,
) -> bool {
    &&& records_only(before, after)
    &&& r is Ok == before.locations.contains(kind)
    &&& r matches Err(e) ==> e is Collector && after.records == before.records
    &&& r is Ok ==> after.records == before.records.insert(name, record)
}

/// What holds when an extension module was made a part of the interpreter:
/// `state` is its build state, and the records are as `records` says.
pub open spec fn linked_in(
    before: CollectionView,
    after: CollectionView,
    name: Seq<char>,
    state: BuildStateView,
    records: Records,
) -> bool {
    &&& after.locations == before.locations
    &&& after.extension_locations == before.extension_locations
    &&& after.cache_tag == before.cache_tag
    &&& after.states == before.states.insert(name, state)
    &&& after.records == records
}

/// What holds when an extension module of the distribution was to be loaded
/// from memory.
pub open spec fn distribution_module_in_memory(
    before: CollectionView,
    after: CollectionView,
    r: Result<(), PackagingError>,
    module: ExtensionModuleView,
    path: Seq<char>,
) -> bool {
    &&& records_only(before, after)
    &&& module.shared_library is None ==> (r matches Err(
        PackagingError::InMemoryWithoutSharedLibrary(n),
    ) && n@ == module.name)
    &&& module.shared_library is Some ==> (r matches Err(e) ==> e is Collector)
    &&& extension_module_rejected(
        before.locations,
        before.extension_locations,
        module,
        LocationView::InMemory,
    ) ==> r is Err
    &&& extension_module_accepted(
        before.locations,
        before.extension_locations,
        module,
        LocationView::InMemory,
        None,
    ) ==> r is Ok
    &&& r is Err ==> after.records == before.records
    &&& r is Ok ==> extension_module_added(
        before.records,
        after.records,
        module,
        LocationView::InMemory,
        path,
        None,
    )
}

/// What holds when an extension module was to be installed as a file below
/// `prefix`: at `path`, in the directory `dir`. `missing` says whether a
/// module without a shared library is refused by this library, before the
/// collector is asked.
pub open spec fn module_on_disk(
    before: CollectionView,
    after: CollectionView,
    r: Result<(), PackagingError>,
    module: ExtensionModuleView,
    prefix: Seq<char>,
    path: Seq<char>,
    dir: Option<Seq<char>>,
    missing: bool,
) -> bool {
    &&& records_only(before, after)
    &&& missing && module.shared_library is None ==> (r matches Err(
        PackagingError::RelativePathWithoutSharedLibrary(n),
    ) && n@ == module.name)
    &&& !missing || module.shared_library is Some ==> (r matches Err(e) ==> e is Collector)
    &&& extension_module_rejected(
        before.locations,
        before.extension_locations,
        module,
        LocationView::RelativePath(prefix),
    ) ==> r is Err && after.records == before.records
    &&& extension_module_accepted(
        before.locations,
        before.extension_locations,
        module,
        LocationView::RelativePath(prefix),
        dir,
    ) ==> r is Ok
    &&& r is Err ==> extension_module_refused(
        before.records,
        after.records,
        module,
        LocationView::RelativePath(prefix),
    )
    &&& r is Ok ==> extension_module_added(
        before.records,
        after.records,
        module,
        LocationView::RelativePath(prefix),
        path,
        dir,
    )
}

/// What holds when an extension module that does not come with the
/// distribution was to be linked into the interpreter: it fails, with
/// nothing changed, where the module has no object files; else the build
/// state of the module is recorded, and the records of the resources are
/// left alone.
pub open spec fn external_module_linked_in(
    before: CollectionView,
    after: CollectionView,
    r: Result<(), PackagingError>,
    module: ExtensionModuleView,
) -> bool {
    if module.object_file_data.len() == 0 {
        (r matches Err(PackagingError::BuiltinWithoutObjectFiles(n)) && n@ == module.name)
            && after == before
    } else {
        r is Ok && linked_in(
            before,
            after,
            module.name,
            external_build_state(module),
            before.records,
        )
    }
}

/// What holds when a shared library in memory was to be loaded from memory
/// as an extension module.
pub open spec fn shared_library_in_memory(
    before: CollectionView,
    after: CollectionView,
    r: Result<(), PackagingError>,
    name: Seq<char>,
    is_package: bool,
    data: Seq<u8>,
) -> bool {
    &&& records_only(before, after)
    &&& r is Ok == (before.locations.contains(AbstractResourceLocation::InMemory)
        && before.extension_locations.contains(AbstractResourceLocation::InMemory))
    &&& r matches Err(e) ==> e is Collector && after.records == before.records
    &&& r is Ok ==> after.records == before.records.insert(
        name,
        with_extension_module(
            record_at(before.records, name),
            shared_library_module(name, is_package, data),
            LocationView::InMemory,
            Seq::empty(),
            data,
        ),
    )
}

/// The resources of a binary before they are packaged: the records of the
/// resources that are embedded or installed, and the build states of the
/// extension modules that are linked into the interpreter.
#[derive(Debug)]
pub struct PrePackagedResources {
    collector: PythonResourceCollector,
    extension_module_states: NameMap<ExtensionModuleBuildState>,
}

impl View for PrePackagedResources {
    type V = CollectionView;

    closed spec fn view(&self) -> CollectionView {
        CollectionView {
            records: collector_records(self.collector),
            states: self.extension_module_states@.map_values(|s: ExtensionModuleBuildState| s@),
            locations: collector_locations(self.collector),
            extension_locations: collector_extension_locations(self.collector),
            cache_tag: collector_cache_tag(self.collector),
        }
    }
}

impl Clone for PrePackagedResources {
    fn clone(&self) -> (r: Self)
        ensures
            r@ == self@,
            r.state_entries() == self.state_entries(),
    {
        let states = self.extension_module_states.clone();
        proof {
            lemma_same_states(self.extension_module_states.entries(), states.entries());
        }
        PrePackagedResources { collector: self.collector.clone(), extension_module_states: states }
    }
}

impl PrePackagedResources {
    /// The build states in increasing order of their names.
    pub closed spec fn state_entries(&self) -> Seq<(Seq<char>, BuildStateView)> {
        state_entries_of(self.extension_module_states.entries())
    }

    /// A collection that holds nothing and admits resources where the policy
    /// wants them. The cache tag names the bytecode files.
    pub fn new(policy: &PythonResourcesPolicy, cache_tag: &str) -> (r: Self)
        ensures
            r@ == (CollectionView {
                records: no_records(),
                states: Map::empty(),
                locations: policy@.locations(),
                extension_locations: every_location(),
                cache_tag: cache_tag@,
            }),
            r.state_entries() == Seq::<(Seq<char>, BuildStateView)>::empty(),
    {
        let allowed = policy.allowed_locations();
        let mut everywhere: Vec<AbstractResourceLocation> = Vec::new();
        everywhere.push(AbstractResourceLocation::InMemory);
        everywhere.push(AbstractResourceLocation::RelativePath);
        proof {
            assert(everywhere@[0] == AbstractResourceLocation::InMemory);
            assert(everywhere@[1] == AbstractResourceLocation::RelativePath);
            assert(everywhere@.to_set() =~= every_location());
        }
        let r = PrePackagedResources {
            collector: collector_new(&allowed, &everywhere, true, cache_tag),
            extension_module_states: NameMap::new(),
        };
        proof {
            assert(r@.states =~= Map::<Seq<char>, BuildStateView>::empty());
            assert(r.state_entries() =~= Seq::<(Seq<char>, BuildStateView)>::empty());
        }
        r
    }

    /// The collector that holds the records.
    pub fn collector(&self) -> (r: &PythonResourceCollector)
        ensures
            collector_records(*r) == self@.records,
    {
        &self.collector
    }

    /// The names of the records in increasing order, each with what the
    /// record says of itself.
    pub fn iter_resources(&self) -> (r: Vec<(String, ResourceSummary)>)
        ensures
            increasing(r@.map_values(|e: (String, ResourceSummary)| e.0@)),
            r@.map_values(|e: (String, ResourceSummary)| e.0@).to_set() == self@.records.dom(),
            forall|i: int|
                0 <= i < r.len() ==> (#[trigger] r[i]).1 == summary_of(self@.records[r[i].0@]),
    {
        collector_summaries(&self.collector)
    }

    /// The names of the extension modules that are linked into the
    /// interpreter, in increasing order.
    pub fn builtin_extension_module_names(&self) -> (r: Vec<String>)
        ensures
            texts(r@) == entry_names(self.state_entries()),
            increasing(texts(r@)),
            texts(r@).to_set() == self@.states.dom(),
    {
        let items = self.extension_module_states.items();
        let mut names: Vec<String> = Vec::new();
        let mut i: usize = 0;
        while i < items.len()
            invariant
                i <= items.len(),
                texts(names@) == entry_names(
                    state_entries_of(self.extension_module_states.entries()),
                ).take(i as int),
                crate::name_map::entries_of(items@) == self.extension_module_states.entries(),
            decreases items.len() - i,
        {
            let ghost before = names@;
            let name = items[i].0.clone();
            names.push(name);
            i += 1;
            proof {
                assert(texts(names@) =~= texts(before).push(name@));
                assert(texts(names@) =~= entry_names(
                    state_entries_of(self.extension_module_states.entries()),
                ).take(i as int));
            }
        }
        proof {
            let s = self.extension_module_states.entries();
            assert(texts(names@) =~= entry_names(state_entries_of(s)));
            assert(entry_names(state_entries_of(s)) =~= entry_names(s));
            assert forall|n: Seq<char>|
                texts(names@).to_set().contains(n) <==> self@.states.dom().contains(n) by {
                if texts(names@).to_set().contains(n) {
                    let k = choose|k: int| 0 <= k < names@.len() && texts(names@)[k] == n;
                    assert(s[k].0 == n);
                }
                if self@.states.dom().contains(n) {
                    let k = crate::name_map::position_of(s, n);
                    assert(entry_names(s)[k] == n);
                }
            }
            assert(texts(names@).to_set() =~= self@.states.dom());
        }
        names
    }

    /// The build state of the extension module `name`, if it is linked into
    /// the interpreter.
    pub fn extension_module_state(&self, name: &str) -> (r: Option<&ExtensionModuleBuildState>)
        ensures
            r is Some == self@.states.contains_key(name@),
            r matches Some(s) ==> s@ == self@.states[name@],
    {
        self.extension_module_states.get(name)
    }

    /// The number of extension modules that are linked into the interpreter.
    pub fn extension_module_count(&self) -> (n: usize)
        ensures
            n == self.state_entries().len(),
    {
        self.extension_module_states.len()
    }

    /// Adds the source of a module at `location`, in place of a source added
    /// before at that kind of place. It is refused where the collection does
    /// not admit the kind of place.
    pub fn add_python_module_source(
        &mut self,
        module: &PythonModuleSource,
        location: &ConcreteResourceLocation,
    ) -> (r: Result<(), PackagingError>)
        ensures
            resource_added(
                old(self)@,
                final(self)@,
                r,
                location@.kind(),
                module@.name,
                with_module_source(record_at(old(self)@.records, module@.name), module@, location@),
            ),
    {
        match collector_add_module_source(&mut self.collector, module, location) {
            Ok(()) => Ok(()),
            Err(e) => Err(refused(e)),
        }
    }

    /// Adds a request for the bytecode of a module at `location`, in place of
    /// one added before at that kind of place and for that level. It is
    /// refused where the collection does not admit the kind of place.
    pub fn add_python_module_bytecode_from_source(
        &mut self,
        module: &PythonModuleBytecodeFromSource,
        location: &ConcreteResourceLocation,
    ) -> (r: Result<(), PackagingError>)
        ensures
            resource_added(
                old(self)@,
                final(self)@,
                r,
                location@.kind(),
                module@.name,
                with_bytecode_request(
                    record_at(old(self)@.records, module@.name),
                    module@,
                    location@,
                ),
            ),
    {
        match collector_add_bytecode_request(&mut self.collector, module, location) {
            Ok(()) => Ok(()),
            Err(e) => Err(refused(e)),
        }
    }

    /// Adds a data file of a package at `location`, in place of the file of
    /// that name added before at that kind of place. It is refused where the
    /// collection does not admit the kind of place.
    pub fn add_python_package_resource(
        &mut self,
        resource: &PythonPackageResource,
        location: &ConcreteResourceLocation,
    ) -> (r: Result<(), PackagingError>)
        ensures
            resource_added(
                old(self)@,
                final(self)@,
                r,
                location@.kind(),
                resource@.leaf_package,
                with_package_resource(
                    record_at(old(self)@.records, resource@.leaf_package),
                    resource@,
                    location@,
                    package_resource_path(
                        prefix_of(location@),
                        resource@.leaf_package,
                        resource@.relative_name,
                    ),
                ),
            ),
    {
        match collector_add_package_resource(&mut self.collector, resource, location) {
            Ok(()) => Ok(()),
            Err(e) => Err(refused(e)),
        }
    }

    /// Adds a file of the metadata of a package at `location`, in place of
    /// the file of that name added before at that kind of place. It is
    /// refused where the collection does not admit the kind of place.
    pub fn add_python_package_distribution_resource(
        &mut self,
        resource: &PythonPackageDistributionResource,
        location: &ConcreteResourceLocation,
    ) -> (r: Result<(), PackagingError>)
        ensures
            resource_added(
                old(self)@,
                final(self)@,
                r,
                location@.kind(),
                resource@.package,
                with_distribution_resource(
                    record_at(old(self)@.records, resource@.package),
                    resource@,
                    location@,
                    distribution_resource_path(
                        prefix_of(location@),
                        resource@.location,
                        resource@.package,
                        resource@.version,
                        resource@.name,
                    ),
                ),
            ),
    {
        match collector_add_distribution_resource(&mut self.collector, resource, location) {
            Ok(()) => Ok(()),
            Err(e) => Err(refused(e)),
        }
    }

    /// Sets the build state of `name`.
    fn set_state(&mut self, name: String, state: ExtensionModuleBuildState)
        ensures
            linked_in(old(self)@, final(self)@, name@, state@, old(self)@.records),
    {
        self.extension_module_states.insert(name, state);
        assert(self@.states =~= old(self)@.states.insert(name@, state@));
    }

    /// Has an extension module of the distribution linked into the
    /// interpreter. Its build state is recorded under its name, in place of
    /// one recorded before; the records of the resources are left alone.
    pub fn add_builtin_distribution_extension_module(
        &mut self,
        module: &PythonExtensionModule,
    ) -> (r: Result<(), PackagingError>)
        ensures
            r is Ok,
            linked_in(
                old(self)@,
                final(self)@,
                module@.name,
                distribution_build_state(module@),
                old(self)@.records,
            ),
    {
        let state = ExtensionModuleBuildState::for_distribution_module(module);
        self.set_state(module.name.clone(), state);
        Ok(())
    }

    /// Has an extension module of the distribution loaded from memory. It
    /// fails, before anything is touched, where the module has no shared
    /// library. Else the module and the libraries that it needs in shared form
    /// are placed in memory, or nothing is.
    pub fn add_in_memory_distribution_extension_module(
        &mut self,
        module: &PythonExtensionModule,
    ) -> (r: Result<(), PackagingError>)
        ensures
            distribution_module_in_memory(
                old(self)@,
                final(self)@,
                r,
                module@,
                extension_module_path(
                    Seq::empty(),
                    module@.name,
                    module@.extension_file_suffix,
                ),
            ),
    {
        if module.shared_library.is_none() {
            return Err(PackagingError::InMemoryWithoutSharedLibrary(module.name.clone()));
        }
        let location = ConcreteResourceLocation::InMemory;
        match collector_add_extension_module(&mut self.collector, module, &location) {
            Ok(()) => Ok(()),
            Err(e) => Err(refused(e)),
        }
    }

    /// Has an extension module of the distribution installed as a file below
    /// `prefix`. It fails, before anything is touched, where the module has no
    /// shared library. Else the module is placed on disk, and the libraries
    /// that it needs in shared form beside it.
    pub fn add_relative_path_distribution_extension_module(
        &mut self,
        prefix: &str,
        module: &PythonExtensionModule,
    ) -> (r: Result<(), PackagingError>)
        ensures
            module_on_disk(
                old(self)@,
                final(self)@,
                r,
                module@,
                prefix@,
                extension_module_path(prefix@, module@.name, module@.extension_file_suffix),
                extension_module_directory(prefix@, module@.name, module@.extension_file_suffix),
                true,
            ),
    {
        if module.shared_library.is_none() {
            return Err(PackagingError::RelativePathWithoutSharedLibrary(module.name.clone()));
        }
        let location = ConcreteResourceLocation::RelativePath(prefix.to_owned());
        match collector_add_extension_module(&mut self.collector, module, &location) {
            Ok(()) => Ok(()),
            Err(e) => Err(refused(e)),
        }
    }

    /// Has an extension module that does not come with the distribution
    /// linked into the interpreter. It fails, before anything is touched,
    /// where the module has no object files. Else its build state is
    /// recorded under its name, in place of one recorded before; the records
    /// of the resources are left alone.
    pub fn add_builtin_extension_module(&mut self, module: &PythonExtensionModule) -> (r: Result<
        (),
        PackagingError,
    >)
        ensures
            external_module_linked_in(old(self)@, final(self)@, r, module@),
    {
        if module.object_file_data.len() == 0 {
            return Err(PackagingError::BuiltinWithoutObjectFiles(module.name.clone()));
        }
        let state = ExtensionModuleBuildState::for_external_module(module);
        self.set_state(module.name.clone(), state);
        Ok(())
    }

    /// Has the shared library `data` loaded from memory as the extension
    /// module `module`. It is accepted if and only if the collection admits
    /// resources, and extension modules, in memory.
    pub fn add_in_memory_extension_module_shared_library(
        &mut self,
        module: &str,
        is_package: bool,
        data: &[u8],
    ) -> (r: Result<(), PackagingError>)
        ensures
            shared_library_in_memory(old(self)@, final(self)@, r, module@, is_package, data@),
    {
        let em = PythonExtensionModule {
            name: module.to_owned(),
            init_fn: None,
            extension_file_suffix: String::new(),
            shared_library: Some(DataLocation::Memory(slice_to_vec(data))),
            object_file_data: Vec::new(),
            is_package,
            link_libraries: Vec::new(),
            is_stdlib: false,
            builtin_default: false,
            required: false,
            variant: None,
            licenses: None,
            license_public_domain: None,
        };
        proof {
            assert(views(em.object_file_data@) =~= Seq::empty());
            assert(views(em.link_libraries@) =~= Seq::empty());
            assert(em@ == shared_library_module(module@, is_package, data@));
        }
        let location = ConcreteResourceLocation::InMemory;
        let ghost before = self@.records;
        match collector_add_extension_module(&mut self.collector, &em, &location) {
            Ok(()) => {
                proof {
                    let path = extension_module_path(
                        Seq::empty(),
                        em@.name,
                        em@.extension_file_suffix,
                    );
                    assert(with_libraries_in_memory(before, em@.link_libraries) == before);
                    let r = record_at(before, module@);
                    assert(with_extension_module(r, em@, LocationView::InMemory, path, data@)
                        == with_extension_module(
                        r,
                        em@,
                        LocationView::InMemory,
                        Seq::empty(),
                        data@,
                    ));
                }
                Ok(())
            },
            Err(e) => Err(refused(e)),
        }
    }

    /// Has an extension module installed as a file below `prefix`, and the
    /// libraries that it needs in shared form beside it.
    pub fn add_relative_path_extension_module(
        &mut self,
        em: &PythonExtensionModule,
        prefix: &str,
    ) -> (r: Result<(), PackagingError>)
        ensures
            module_on_disk(
                old(self)@,
                final(self)@,
                r,
                em@,
                prefix@,
                extension_module_path(prefix@, em@.name, em@.extension_file_suffix),
                extension_module_directory(prefix@, em@.name, em@.extension_file_suffix),
                false,
            ),
    {
        let location = ConcreteResourceLocation::RelativePath(prefix.to_owned());
        match collector_add_extension_module(&mut self.collector, em, &location) {
            Ok(()) => Ok(()),
            Err(e) => Err(refused(e)),
        }
    }

    /// Drops every record and every build state whose name is not in
    /// `resource_names`.
    pub fn filter_from_files(&mut self, resource_names: &StringSet) -> (r: Result<
        (),
        PackagingError,
    >)
        ensures
            r is Ok,
            final(self)@ == filtered(old(self)@, resource_names@),
    {
        match collector_retain(&mut self.collector, resource_names) {
            Ok(()) => {},
            Err(e) => {
                return Err(refused(e));
            },
        }
        self.extension_module_states.retain_names(resource_names);
        assert(self@.states =~= old(self)@.states.restrict(resource_names@));
        Ok(())
    }
}

impl PrePackagedResources {
    /// Joins the build states with the resources that a compiler has made of
    /// the records.
    pub fn package<'a>(&self, compiled: CompiledResourcesCollection<'a>) -> (r:
        EmbeddedPythonResources<'a>)
        ensures
            r.compiled() == compiled,
            r.state_entries() == self.state_entries(),
            increasing(entry_names(r.state_entries())),
            entries_map(r.state_entries()) == self@.states,
    {
        let states = self.extension_module_states.clone();
        proof {
            let a = self.extension_module_states.entries();
            lemma_same_states(a, states.entries());
            assert(entry_names(state_entries_of(a)) =~= entry_names(a));
            lemma_state_entries_map(a);
        }
        EmbeddedPythonResources { resources: compiled, extension_modules: states }
    }
}

/// The map of the build states of entries is the map of the entries, each
/// state taken for what it stands for.
pub proof fn lemma_state_entries_map(a: Seq<(Seq<char>, ExtensionModuleBuildState)>)
    requires
        increasing(entry_names(a)),
    ensures
        entries_map(state_entries_of(a)) == entries_map(a).map_values(
            |s: ExtensionModuleBuildState| s@,
        ),
{
    let b = state_entries_of(a);
    assert(entry_names(b) =~= entry_names(a));
    let x = entries_map(b);
    let y = entries_map(a).map_values(|s: ExtensionModuleBuildState| s@);
    assert forall|k: Seq<char>| x.contains_key(k) <==> y.contains_key(k) by {
        if x.contains_key(k) {
            let i = crate::name_map::position_of(b, k);
            assert(a[i].0 == k);
        }
        if entries_map(a).contains_key(k) {
            let i = crate::name_map::position_of(a, k);
            assert(b[i].0 == k);
        }
    }
    assert forall|k: Seq<char>| x.contains_key(k) implies x[k] == y[k] by {
        let i = crate::name_map::position_of(a, k);
        assert(b[i].0 == k);
        lemma_entry_at(a, i);
        lemma_entry_at(b, i);
    }
    assert(x =~= y);
}

/// What is needed to link the interpreter.
#[derive(Debug, PartialEq)]
pub struct LibpythonLinkingInfo {
    /// The object files to link.
    pub object_files: Vec<DataLocation>,
    /// The libraries of the distribution to link against.
    pub link_libraries: StringSet,
    /// The frameworks to link against.
    pub link_frameworks: StringSet,
    /// The system libraries to link against.
    pub link_system_libraries: StringSet,
    /// The libraries that the toolchain of the host finds by itself.
    pub link_libraries_external: StringSet,
}

/// What a `LibpythonLinkingInfo` stands for.
pub struct LinkingInfoView {
    pub object_files: Seq<DataLocationView>,
    pub link_libraries: Set<Seq<char>>,
    pub link_frameworks: Set<Seq<char>>,
    pub link_system_libraries: Set<Seq<char>>,
    pub link_libraries_external: Set<Seq<char>>,
}

impl View for LibpythonLinkingInfo {
    type V = LinkingInfoView;

    open spec fn view(&self) -> LinkingInfoView {
        LinkingInfoView {
            object_files: views(self.object_files@),
            link_libraries: self.link_libraries@,
            link_frameworks: self.link_frameworks@,
            link_system_libraries: self.link_system_libraries@,
            link_libraries_external: self.link_libraries_external@,
        }
    }
}

/// What is needed to link one extension module.
pub open spec fn linking_info_of(s: BuildStateView) -> LinkingInfoView {
    LinkingInfoView {
        object_files: s.link_object_files,
        link_libraries: s.link_static_libraries.union(s.link_dynamic_libraries),
        link_frameworks: s.link_frameworks,
        link_system_libraries: s.link_system_libraries,
        link_libraries_external: s.link_external_libraries,
    }
}

/// What is needed to link `a` and then `b`: the object files of both, those
/// of `a` first, and the union of each set of names.
pub open spec fn linking_info_joined(a: LinkingInfoView, b: LinkingInfoView) -> LinkingInfoView {
    LinkingInfoView {
        object_files: a.object_files + b.object_files,
        link_libraries: a.link_libraries.union(b.link_libraries),
        link_frameworks: a.link_frameworks.union(b.link_frameworks),
        link_system_libraries: a.link_system_libraries.union(b.link_system_libraries),
        link_libraries_external: a.link_libraries_external.union(b.link_libraries_external),
    }
}

/// What is needed to link nothing.
pub open spec fn linking_info_empty() -> LinkingInfoView {
    LinkingInfoView {
        object_files: Seq::empty(),
        link_libraries: Set::empty(),
        link_frameworks: Set::empty(),
        link_system_libraries: Set::empty(),
        link_libraries_external: Set::empty(),
    }
}

/// What is needed to link the extension modules of `entries`, in their order.
pub open spec fn linking_info_of_all(entries: Seq<(Seq<char>, BuildStateView)>) -> LinkingInfoView
    decreases entries.len(),
{
    if entries.len() == 0 {
        linking_info_empty()
    } else {
        linking_info_joined(
            linking_info_of_all(entries.drop_last()),
            linking_info_of(entries.last().1),
        )
    }
}

/// The extension modules of `entries` that have an initialisation function,
/// each with that function, in their order.
pub open spec fn init_functions(entries: Seq<(Seq<char>, BuildStateView)>) -> Seq<
    (Seq<char>, Seq<char>),
>
    decreases entries.len(),
{
    if entries.len() == 0 {
        Seq::empty()
    } else {
        let before = init_functions(entries.drop_last());
        match entries.last().1.init_fn {
            Some(f) => before.push((entries.last().0, f)),
            None => before,
        }
    }
}

/// The lines of a list of names: each name in UTF-8, followed by a line feed.
pub open spec fn name_lines(names: Seq<Seq<char>>) -> Seq<u8>
    decreases names.len(),
{
    if names.len() == 0 {
        Seq::empty()
    } else {
        name_lines(names.drop_last()) + encode_utf8(names.last()) + seq![10u8]
    }
}

/// The content of a file to install.
#[derive(Debug, Clone, PartialEq)]
pub struct FileContent {
    /// The bytes of the file.
    pub data: Vec<u8>,
    /// Whether the file is executable.
    pub executable: bool,
}

/// What a `FileContent` stands for.
pub struct FileContentView {
    pub data: Seq<u8>,
    pub executable: bool,
}

impl View for FileContent {
    type V = FileContentView;

    open spec fn view(&self) -> FileContentView {
        FileContentView { data: self.data@, executable: self.executable }
    }
}

/// The files to install beside a binary, each under its path.
#[derive(Debug, PartialEq)]
pub struct FileManifest {
    files: NameMap<FileContent>,
}

impl View for FileManifest {
    type V = Map<Seq<char>, FileContentView>;

    closed spec fn view(&self) -> Map<Seq<char>, FileContentView> {
        self.files@.map_values(|c: FileContent| c@)
    }
}

impl FileManifest {
    /// The files in increasing order of their paths.
    pub closed spec fn file_entries(&self) -> Seq<(Seq<char>, FileContent)> {
        self.files.entries()
    }

    /// The manifest without files.
    pub fn new() -> (r: Self)
        ensures
            r.file_entries() == Seq::<(Seq<char>, FileContent)>::empty(),
            r@ == Map::<Seq<char>, FileContentView>::empty(),
    {
        let r = FileManifest { files: NameMap::new() };
        assert(r@ =~= Map::<Seq<char>, FileContentView>::empty());
        r
    }

    /// Sets the content of the file at `path`, in place of one set before.
    pub fn add_file(&mut self, path: &str, content: FileContent)
        ensures
            final(self)@ == old(self)@.insert(path@, content@),
    {
        self.files.insert(path.to_owned(), content);
        assert(self@ =~= old(self)@.insert(path@, content@));
    }

    /// The content of the file at `path`, if there is one.
    pub fn get(&self, path: &str) -> (r: Option<&FileContent>)
        ensures
            r is Some == self@.contains_key(path@),
            r matches Some(c) ==> c@ == self@[path@],
    {
        self.files.get(path)
    }

    /// The number of files.
    pub fn len(&self) -> (n: usize)
        ensures
            n == self.file_entries().len(),
    {
        self.files.len()
    }

    /// The files in increasing order of their paths.
    pub fn entries(&self) -> (r: &Vec<(String, FileContent)>)
        ensures
            crate::name_map::entries_of(r@) == self.file_entries(),
            increasing(entry_names(self.file_entries())),
            entries_map(self.file_entries()).map_values(|c: FileContent| c@) == self@,
    {
        self.files.items()
    }
}

/// The manifest that holds, for each file of `files` in their order, the
/// content of the same position in `contents`; a later file takes the place of
/// an earlier one at the same path.
pub open spec fn manifest_of(files: Seq<FileInstallView>, contents: Seq<Seq<u8>>) -> Map<
    Seq<char>,
    FileContentView,
>
    decreases files.len(),
{
    if files.len() == 0 || contents.len() != files.len() {
        Map::empty()
    } else {
        manifest_of(files.drop_last(), contents.drop_last()).insert(
            files.last().path,
            FileContentView { data: contents.last(), executable: files.last().executable },
        )
    }
}

/// Whether `contents` holds, for each file of `files` that is held in memory,
/// what that file holds.
pub open spec fn contents_agree(files: Seq<FileInstallView>, contents: Seq<Seq<u8>>) -> bool {
    &&& contents.len() == files.len()
    &&& forall|i: int|
        0 <= i < files.len() ==> ((#[trigger] files[i]).data matches DataLocationView::Memory(b)
            ==> contents[i] == b)
}

/// The resources of a binary, packaged: the compiled resources, and the build
/// states of the extension modules that are linked into the interpreter.
#[derive(Debug)]
pub struct EmbeddedPythonResources<'a> {
    /// The resources to write in packed form.
    resources: CompiledResourcesCollection<'a>,
    /// The build states of the extension modules to link.
    extension_modules: NameMap<ExtensionModuleBuildState>,
}

impl<'a> Default for EmbeddedPythonResources<'a> {
    /// Packaged resources that hold nothing: no resource, no file to
    /// install, no extension module to link.
    fn default() -> (r: Self)
        ensures
            compiled_names(r.compiled()).len() == 0,
            compiled_files(r.compiled()).len() == 0,
            r.state_entries() == Seq::<(Seq<char>, BuildStateView)>::empty(),
    {
        let extension_modules: NameMap<ExtensionModuleBuildState> = NameMap::new();
        proof {
            assert(state_entries_of(extension_modules.entries()) =~= Seq::<
                (Seq<char>, BuildStateView),
            >::empty());
        }
        EmbeddedPythonResources { resources: compiled_empty(), extension_modules }
    }
}

impl<'a> EmbeddedPythonResources<'a> {
    /// The compiled resources.
    pub closed spec fn compiled(&self) -> CompiledResourcesCollection<'a> {
        self.resources
    }

    /// The build states in increasing order of their names.
    pub closed spec fn state_entries(&self) -> Seq<(Seq<char>, BuildStateView)> {
        state_entries_of(self.extension_modules.entries())
    }

    /// Writes the names of the resources to the end of `module_names`, one on
    /// a line, in increasing order, and then the resources in packed form to
    /// the end of `resources`. The packed form is in the version of the
    /// format that the writer of `python-packaging` writes.
    pub fn write_blobs(&self, module_names: &mut Vec<u8>, resources: &mut Vec<u8>) -> (r: Result<
        (),
        PackagingError,
    >)
        ensures
            final(module_names)@ == old(module_names)@ + name_lines(compiled_names(self.compiled())),
            r is Ok ==> final(resources)@ == old(resources)@ + compiled_packed(self.compiled()),
            r matches Err(e) ==> e is Writer && old(resources)@.is_prefix_of(final(resources)@),
    {
        let names = compiled_resource_names(&self.resources);
        let ghost all = compiled_names(self.compiled());
        let mut i: usize = 0;
        assert(name_lines(all.take(0)) =~= Seq::<u8>::empty());
        while i < names.len()
            invariant
                i <= names.len(),
                texts(names@) == all,
                module_names@ == old(module_names)@ + name_lines(all.take(i as int)),
            decreases names.len() - i,
        {
            let bytes = names[i].as_str().as_bytes();
            let ghost before = module_names@;
            let mut j: usize = 0;
            while j < bytes.len()
                invariant
                    j <= bytes.len(),
                    module_names@ == before + bytes@.take(j as int),
                decreases bytes.len() - j,
            {
                module_names.push(bytes[j]);
                j += 1;
                assert(module_names@ =~= before + bytes@.take(j as int));
            }
            module_names.push(10u8);
            i += 1;
            proof {
                assert(bytes@.take(bytes.len() as int) =~= bytes@);
                assert(all.take(i as int).drop_last() =~= all.take(i - 1));
                assert(all.take(i as int).last() == names@[i - 1]@);
                assert(module_names@ =~= old(module_names)@ + name_lines(all.take(i as int)));
            }
        }
        assert(all.take(i as int) =~= all);
        match compiled_write_packed(&self.resources, resources) {
            Ok(()) => Ok(()),
            Err(e) => Err(PackagingError::Writer(error_text(&e))),
        }
    }

    /// The extension modules that are linked into the interpreter and have an
    /// initialisation function, each with that function, in increasing order
    /// of their names.
    pub fn builtin_extensions(&self) -> (r: Vec<(String, String)>)
        ensures
            r@.map_values(|e: (String, String)| (e.0@, e.1@)) == init_functions(
                self.state_entries(),
            ),
    {
        let items = self.extension_modules.items();
        let ghost all = self.state_entries();
        let mut out: Vec<(String, String)> = Vec::new();
        let mut i: usize = 0;
        assert(out@.map_values(|e: (String, String)| (e.0@, e.1@)) =~= init_functions(all.take(0)));
        while i < items.len()
            invariant
                i <= items.len(),
                all == state_entries_of(crate::name_map::entries_of(items@)),
                out@.map_values(|e: (String, String)| (e.0@, e.1@)) == init_functions(
                    all.take(i as int),
                ),
            decreases items.len() - i,
        {
            let ghost before = out@;
            proof {
                assert(all.take(i + 1).drop_last() =~= all.take(i as int));
                assert(all.take(i + 1).last() == (items@[i as int].0@, items@[i as int].1@));
            }
            match &items[i].1.init_fn {
                Some(f) => {
                    let name = items[i].0.clone();
                    let init = f.clone();
                    out.push((name, init));
                    assert(out@.map_values(|e: (String, String)| (e.0@, e.1@)) =~= before.map_values(
                        |e: (String, String)| (e.0@, e.1@),
                    ).push((name@, init@)));
                },
                None => {},
            }
            i += 1;
        }
        assert(all.take(i as int) =~= all);
        out
    }

    /// The files to install beside the binary, each with its content. A
    /// content that is held in a file is read; where that fails, so does this.
    pub fn extra_install_files(&self) -> (r: Result<FileManifest, PackagingError>)
        ensures
            (forall|i: int|
                0 <= i < compiled_files(self.compiled()).len() ==> (#[trigger] compiled_files(
                    self.compiled(),
                )[i]).data is Memory) ==> r is Ok,
            r matches Ok(m) ==> exists|contents: Seq<Seq<u8>>|
                contents_agree(compiled_files(self.compiled()), contents) && m@ == manifest_of(
                    compiled_files(self.compiled()),
                    contents,
                ),
            r matches Err(e) ==> e is Unresolved,
    {
        let files = compiled_file_installs(&self.resources);
        let ghost all = compiled_files(self.compiled());
        let mut res = FileManifest::new();
        let ghost mut contents: Seq<Seq<u8>> = Seq::empty();
        let mut i: usize = 0;
        while i < files.len()
            invariant
                i <= files.len(),
                all == files@.map_values(|f: FileInstall| f@),
                all == compiled_files(self.compiled()),
                contents_agree(all.take(i as int), contents),
                res@ == manifest_of(all.take(i as int), contents),
            decreases files.len() - i,
        {
            let file = &files[i];
            assert(all[i as int] == file@);
            let data = match resolve_data(&file.data) {
                Ok(data) => data,
                Err(e) => {
                    assert(!(compiled_files(self.compiled())[i as int].data is Memory));
                    return Err(PackagingError::Unresolved(error_text(&e)));
                },
            };
            proof {
                let more = contents.push(data@);
                assert(all.take(i + 1).drop_last() =~= all.take(i as int));
                assert(more.drop_last() =~= contents);
                assert(contents_agree(all.take(i + 1), more)) by {
                    assert forall|k: int| 0 <= k < i + 1 implies ((#[trigger] all.take(
                        i + 1,
                    )[k]).data matches DataLocationView::Memory(b) ==> more[k] == b) by {
                        if k < i {
                            assert(all.take(i as int)[k] == all.take(i + 1)[k]);
                        }
                    }
                }
                contents = more;
            }
            res.add_file(file.path.as_str(), FileContent { data, executable: file.executable });
            i += 1;
        }
        assert(all.take(i as int) =~= all);
        Ok(res)
    }

    /// What is needed to link the interpreter: the object files of the
    /// extension modules, in increasing order of the modules' names, and the
    /// names of the libraries of all of them. Static and dynamic libraries go
    /// into one set; frameworks, system libraries and the libraries that the
    /// host's toolchain finds have a set each.
    pub fn resolve_libpython_linking_info(&self) -> (r: Result<LibpythonLinkingInfo, PackagingError>)
        ensures
            r matches Ok(info) && info@ == linking_info_of_all(self.state_entries()),
    {
        let items = self.extension_modules.items();
        let ghost all = self.state_entries();
        let mut info = LibpythonLinkingInfo {
            object_files: Vec::new(),
            link_libraries: StringSet::new(),
            link_frameworks: StringSet::new(),
            link_system_libraries: StringSet::new(),
            link_libraries_external: StringSet::new(),
        };
        let mut i: usize = 0;
        assert(views(info.object_files@) =~= Seq::empty());
        while i < items.len()
            invariant
                i <= items.len(),
                all == state_entries_of(crate::name_map::entries_of(items@)),
                info@ == linking_info_of_all(all.take(i as int)),
            decreases items.len() - i,
        {
            let state = &items[i].1;
            let ghost before = info@;
            proof {
                assert(all.take(i + 1).drop_last() =~= all.take(i as int));
                assert(all.take(i + 1).last().1 == state@);
            }
            let mut j: usize = 0;
            while j < state.link_object_files.len()
                invariant
                    j <= state.link_object_files.len(),
                    views(info.object_files@) == before.object_files + views(
                        state.link_object_files@,
                    ).take(j as int),
                    info.link_libraries@ == before.link_libraries,
                    info.link_frameworks@ == before.link_frameworks,
                    info.link_system_libraries@ == before.link_system_libraries,
                    info.link_libraries_external@ == before.link_libraries_external,
                decreases state.link_object_files.len() - j,
            {
                let ghost had = info.object_files@;
                let file = state.link_object_files[j].clone();
                info.object_files.push(file);
                j += 1;
                proof {
                    assert(views(info.object_files@) =~= views(had).push(file@));
                    assert(views(info.object_files@) =~= before.object_files + views(
                        state.link_object_files@,
                    ).take(j as int));
                }
            }
            assert(views(state.link_object_files@).take(j as int) =~= views(
                state.link_object_files@,
            ));
            info.link_frameworks.extend(&state.link_frameworks);
            info.link_system_libraries.extend(&state.link_system_libraries);
            info.link_libraries.extend(&state.link_static_libraries);
            info.link_libraries.extend(&state.link_dynamic_libraries);
            info.link_libraries_external.extend(&state.link_external_libraries);
            i += 1;
            proof {
                let want = linking_info_joined(before, linking_info_of(state@));
                assert(info@.link_libraries =~= want.link_libraries);
                assert(info@ == want);
            }
        }
        assert(all.take(i as int) =~= all);
        Ok(info)
    }
}

/// The warning that a module reads `__file__`.
pub open spec fn dunder_file_warning(module: Seq<char>) -> Seq<char> {
    "warning: "@ + module + " contains __file__"@
}

/// The warnings to give before packaging, for the modules that read
/// `__file__`: one for each module, and where there is one at all, three
/// lines on what that means.
pub open spec fn dunder_file_warnings_of(modules: Seq<Seq<char>>) -> Seq<Seq<char>> {
    let each = modules.map_values(|m: Seq<char>| dunder_file_warning(m));
    if modules.len() == 0 {
        each
    } else {
        each + seq![
            "__file__ was encountered in some embedded modules"@,
            "PyOxidizer does not set __file__ and this may create problems at run-time"@,
            "See https://github.com/indygreg/PyOxidizer/issues/69 for more"@,
        ]
    }
}

/// The warnings to give before packaging, for the modules that read
/// `__file__`. They are warnings only: packaging goes on.
pub fn dunder_file_warnings(modules: &Vec<String>) -> (r: Vec<String>)
    ensures
        texts(r@) == dunder_file_warnings_of(texts(modules@)),
{
    let ghost each = texts(modules@).map_values(|m: Seq<char>| dunder_file_warning(m));
    let mut out: Vec<String> = Vec::new();
    let mut i: usize = 0;
    assert(texts(out@) =~= each.take(0));
    while i < modules.len()
        invariant
            i <= modules.len(),
            each == texts(modules@).map_values(|m: Seq<char>| dunder_file_warning(m)),
            texts(out@) == each.take(i as int),
        decreases modules.len() - i,
    {
        let ghost had = out@;
        let line = String::from_str("warning: ").concat(modules[i].as_str()).concat(
            " contains __file__",
        );
        out.push(line);
        i += 1;
        assert(texts(out@) =~= texts(had).push(line@));
        assert(texts(out@) =~= each.take(i as int));
    }
    assert(each.take(i as int) =~= each);
    if modules.len() > 0 {
        let ghost had = out@;
        out.push(String::from_str("__file__ was encountered in some embedded modules"));
        out.push(
            String::from_str(
                "PyOxidizer does not set __file__ and this may create problems at run-time",
            ),
        );
        out.push(String::from_str("See https://github.com/indygreg/PyOxidizer/issues/69 for more"));
        assert(texts(out@) =~= texts(had) + seq![
            "__file__ was encountered in some embedded modules"@,
            "PyOxidizer does not set __file__ and this may create problems at run-time"@,
            "See https://github.com/indygreg/PyOxidizer/issues/69 for more"@,
        ]);
    }
    out
}

} // verus!
