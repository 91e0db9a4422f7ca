//! What holds of the placement of extension modules, of filtering and of the
//! inputs of the linker, whatever the inputs.

use crate::build_state::{
    distribution_build_state, link_kind, names_of_kind, BuildStateView, LinkKind,
};
use crate::collector::{
    among, broken_on, chosen_of, extension_module_bytes, record_at, resolved_extension_modules,
    with_libraries_in_memory, with_libraries_on_disk, Records,
};
use crate::embedded_resource::{
    distribution_module_in_memory, filtered, linking_info_of, linking_info_of_all, CollectionView,
};
use crate::error::{ErrorKind, PackagingError};
use crate::policy::PackagingPolicyView;
use crate::resource::{
    DataLocationView, ExtensionModuleView, LibpythonLinkMode, LibraryDependencyView, LocationView,
    PolicyView, PythonExtensionModule,
};
use crate::standalone_builder::{
    all_done, all_have_variants, distribution_module_added, distribution_resources_added,
    distribution_resources_offered, holds, module_step, placement_owed, placements_owed,
    resource_step, source_step, traced, variants_of, BuilderView, Step,
};
use crate::standalone_distribution::{stdlib_resources, stdlib_sources};
use vstd::prelude::*;

verus! {

/// An extension module that the distribution builds into the interpreter is
/// linked into the interpreter, whatever the policy and the link mode: its
/// build state is recorded, and the records of the resources are left alone.
pub proof fn law_builtin_default_is_linked_in(
    before: BuilderView,
    after: CollectionView,
    r: Result<(), PackagingError>,
    module: ExtensionModuleView,
)
    requires
        module.builtin_default,
        distribution_module_added(before, after, r, module),
    ensures
        r is Ok,
        after.states.contains_key(module.name),
        after.states[module.name] == distribution_build_state(module),
        after.records == before.collection.records,
{
}

/// Where the interpreter is linked statically, every extension module of the
/// distribution is linked into the interpreter, whatever the policy.
pub proof fn law_static_link_mode_links_in(
    before: BuilderView,
    after: CollectionView,
    r: Result<(), PackagingError>,
    module: ExtensionModuleView,
)
    requires
        before.link_mode == LibpythonLinkMode::Static,
        distribution_module_added(before, after, r, module),
    ensures
        r is Ok,
        after.states.contains_key(module.name),
        after.states[module.name] == distribution_build_state(module),
        after.records == before.collection.records,
{
}

/// Where the interpreter is linked statically and extension modules of the
/// distribution were added one after the other, the collection after the
/// first `k` of them holds their build states, and the records of the
/// resources are as they were.
proof fn lemma_linked_up_to(
    settings: BuilderView,
    modules: Seq<ExtensionModuleView>,
    trace: Seq<CollectionView>,
    k: int,
)
    requires
        settings.link_mode == LibpythonLinkMode::Static,
        traced(module_step(settings), Ok::<(), PackagingError>(()), modules, trace),
        0 <= k <= modules.len(),
    ensures
        trace[k].records == trace[0].records,
        forall|j: int| 0 <= j < k ==> trace[k].states.contains_key(#[trigger] modules[j].name),
    decreases k,
{
    if k > 0 {
        lemma_linked_up_to(settings, modules, trace, k - 1);
        assert(holds(
            module_step(settings),
            trace[k - 1],
            trace[k - 1 + 1],
            Ok::<(), PackagingError>(()),
            modules[k - 1],
        ));
        assert(distribution_module_added(
            settings.with_collection(trace[k - 1]),
            trace[k],
            Ok::<(), PackagingError>(()),
            modules[k - 1],
        ));
    }
}

/// Where the interpreter is linked statically and the extension modules of
/// a distribution were all added, every one of them is linked into the
/// interpreter, whatever the policy: each has a build state, and the records
/// of the resources are as they were.
pub proof fn law_static_link_mode_links_all_in(
    before: BuilderView,
    after: CollectionView,
    modules: Seq<ExtensionModuleView>,
)
    requires
        before.link_mode == LibpythonLinkMode::Static,
        all_done(
            module_step(before),
            before.collection,
            after,
            Ok::<(), PackagingError>(()),
            modules,
        ),
    ensures
        after.records == before.collection.records,
        forall|i: int| 0 <= i < modules.len() ==> after.states.contains_key(#[trigger] modules[i].name),
{
    let trace = choose|trace: Seq<CollectionView>| #[trigger]
        traced(module_step(before), Ok::<(), PackagingError>(()), modules, trace) && trace[0]
            == before.collection && trace.last() == after;
    lemma_linked_up_to(before, modules, trace, modules.len() as int);
}

/// Whether a step leaves the build states alone.
pub open spec fn keeps_states<T>(step: Step<T>) -> bool {
    forall|b: CollectionView, a: CollectionView, r: Result<(), PackagingError>, item: T| #[trigger]
        holds(step, b, a, r, item) ==> a.states == b.states
}

/// Steps that leave the build states alone leave them alone all along.
proof fn lemma_states_kept<T>(
    step: Step<T>,
    r: Result<(), PackagingError>,
    items: Seq<T>,
    trace: Seq<CollectionView>,
    k: int,
)
    requires
        keeps_states(step),
        traced(step, r, items, trace),
        0 <= k < trace.len(),
    ensures
        trace[k].states == trace[0].states,
    decreases k,
{
    if k > 0 {
        lemma_states_kept(step, r, items, trace, k - 1);
        let n = trace.len() - 1;
        if k < n {
            assert(holds(
                step,
                trace[k - 1],
                trace[k - 1 + 1],
                Ok::<(), PackagingError>(()),
                items[k - 1],
            ));
        } else {
            assert(holds(step, trace[n - 1], trace[n], r, items[n - 1]));
        }
    }
}

/// Offering sources, bytecode and data files leaves the build states alone.
proof fn lemma_offers_keep_states(settings: BuilderView, packaging: PackagingPolicyView)
    ensures
        keeps_states(source_step(settings, packaging)),
        keeps_states(resource_step(settings, packaging)),
{
}

/// The build states after `items` were handled by a step that leaves them
/// alone.
proof fn lemma_states_after<T>(
    step: Step<T>,
    before: CollectionView,
    after: CollectionView,
    r: Result<(), PackagingError>,
    items: Seq<T>,
)
    requires
        keeps_states(step),
        all_done(step, before, after, r, items),
    ensures
        after.states == before.states,
{
    let trace = choose|trace: Seq<CollectionView>| #[trigger]
        traced(step, r, items, trace) && trace[0] == before && trace.last() == after;
    lemma_states_kept(step, r, items, trace, trace.len() - 1);
}

/// Where the interpreter is linked statically, adding what a distribution
/// offers does not fail, and every extension module that the policy chooses
/// is linked into the interpreter, whatever the policy: each has a build
/// state after it.
pub proof fn law_static_distribution_links_what_is_chosen(
    before: BuilderView,
    after: CollectionView,
    r: Result<(), PackagingError>,
)
    requires
        before.wf(),
        before.link_mode == LibpythonLinkMode::Static,
        all_have_variants(before.distribution.extension_modules.entries()),
        distribution_resources_offered(before, after, r),
    ensures
        r is Ok,
        forall|i: int|
            0 <= i < resolved_extension_modules(
                before.packaging,
                variants_of(before.distribution.extension_modules.entries()),
                before.target_triple,
            ).len() ==> after.states.contains_key(
                (#[trigger] resolved_extension_modules(
                    before.packaging,
                    variants_of(before.distribution.extension_modules.entries()),
                    before.target_triple,
                )[i]).name,
            ),
{
    let d = before.distribution;
    let packaging = before.packaging;
    let modules = resolved_extension_modules(
        packaging,
        variants_of(d.extension_modules.entries()),
        before.target_triple,
    );
    assert(placements_owed(before, modules)) by {
        assert forall|i: int| 0 <= i < modules.len() implies placement_owed(
            before,
            #[trigger] modules[i],
        ) by {}
    }
    assert(r is Ok);
    assert(distribution_resources_added(
        before,
        packaging,
        after,
        r,
        modules,
        stdlib_sources(d),
        stdlib_resources(d),
    ));
    let first = module_step(before);
    let m1 = choose|m1: CollectionView| #[trigger]
        all_done(first, before.collection, m1, Ok::<(), PackagingError>(()), modules) && {
            let second = source_step(before.with_collection(m1), packaging);
            ||| r is Err && all_done(second, m1, after, r, stdlib_sources(d))
            ||| exists|m2: CollectionView| #[trigger]
                all_done(second, m1, m2, Ok::<(), PackagingError>(()), stdlib_sources(d))
                    && all_done(
                    resource_step(before.with_collection(m2), packaging),
                    m2,
                    after,
                    r,
                    stdlib_resources(d),
                )
        };
    let second = source_step(before.with_collection(m1), packaging);
    let m2 = choose|m2: CollectionView| #[trigger]
        all_done(second, m1, m2, Ok::<(), PackagingError>(()), stdlib_sources(d)) && all_done(
            resource_step(before.with_collection(m2), packaging),
            m2,
            after,
            r,
            stdlib_resources(d),
        );
    law_static_link_mode_links_all_in(before, m1, modules);
    lemma_offers_keep_states(before.with_collection(m1), packaging);
    lemma_states_after(second, m1, m2, Ok::<(), PackagingError>(()), stdlib_sources(d));
    lemma_offers_keep_states(before.with_collection(m2), packaging);
    lemma_states_after(
        resource_step(before.with_collection(m2), packaging),
        m2,
        after,
        r,
        stdlib_resources(d),
    );
}

/// Whether an extension module of the distribution is linked into the
/// interpreter by a builder with these settings: the distribution builds it
/// in already, or the interpreter is linked statically.
pub open spec fn linked_by(settings: BuilderView, module: ExtensionModuleView) -> bool {
    module.builtin_default || settings.link_mode == LibpythonLinkMode::Static
}

/// Whether one of the first `k` of `modules` has the name `name` and is
/// linked into the interpreter.
pub open spec fn linked_among(
    settings: BuilderView,
    modules: Seq<ExtensionModuleView>,
    k: int,
    name: Seq<char>,
) -> bool {
    exists|j: int| 0 <= j < k && (#[trigger] modules[j]).name == name && linked_by(settings, modules[j])
}

/// Whether the build states of `after` are those of `before` and those of
/// the modules among the first `k` of `modules` that are linked in.
pub open spec fn linked_so_far(
    settings: BuilderView,
    modules: Seq<ExtensionModuleView>,
    k: int,
    before: CollectionView,
    after: CollectionView,
) -> bool {
    forall|n: Seq<char>| #[trigger]
        after.states.contains_key(n) <==> (before.states.contains_key(n) || linked_among(
            settings,
            modules,
            k,
            n,
        ))
}

/// Where extension modules of the distribution were added one after the
/// other, the build states after the first `k` of them are those from
/// before and those of the modules among them that are linked in.
proof fn lemma_linked_names(
    settings: BuilderView,
    modules: Seq<ExtensionModuleView>,
    trace: Seq<CollectionView>,
    k: int,
)
    requires
        traced(module_step(settings), Ok::<(), PackagingError>(()), modules, trace),
        0 <= k <= modules.len(),
    ensures
        linked_so_far(settings, modules, k, trace[0], trace[k]),
    decreases k,
{
    if k > 0 {
        lemma_linked_names(settings, modules, trace, k - 1);
        let m = modules[k - 1];
        assert(holds(
            module_step(settings),
            trace[k - 1],
            trace[k - 1 + 1],
            Ok::<(), PackagingError>(()),
            m,
        ));
        assert(distribution_module_added(
            settings.with_collection(trace[k - 1]),
            trace[k],
            Ok::<(), PackagingError>(()),
            m,
        ));
        assert forall|n: Seq<char>| #[trigger]
            trace[k].states.contains_key(n) <==> (trace[0].states.contains_key(n) || linked_among(
                settings,
                modules,
                k,
                n,
            )) by {
            assert(trace[k - 1].states.contains_key(n) <==> (trace[0].states.contains_key(n)
                || linked_among(settings, modules, k - 1, n)));
            if linked_among(settings, modules, k, n) {
                let j = choose|j: int|
                    0 <= j < k && (#[trigger] modules[j]).name == n && linked_by(
                        settings,
                        modules[j],
                    );
                if j < k - 1 {
                    assert(linked_among(settings, modules, k - 1, n));
                }
            }
            if linked_among(settings, modules, k - 1, n) {
                let j = choose|j: int|
                    0 <= j < k - 1 && (#[trigger] modules[j]).name == n && linked_by(
                        settings,
                        modules[j],
                    );
                assert(0 <= j < k && modules[j].name == n && linked_by(settings, modules[j]));
            }
            if linked_by(settings, m) {
                assert(trace[k].states == trace[k - 1].states.insert(
                    m.name,
                    distribution_build_state(m),
                ));
                if m.name == n {
                    assert(0 <= k - 1 < k && modules[k - 1].name == n && linked_by(
                        settings,
                        modules[k - 1],
                    ));
                }
            } else {
                assert(trace[k].states == trace[k - 1].states);
            }
        }
    } else {
        assert forall|n: Seq<char>| #[trigger]
            trace[0].states.contains_key(n) <==> (trace[0].states.contains_key(n) || linked_among(
                settings,
                modules,
                0,
                n,
            )) by {}
    }
}

/// Where a builder has added what its distribution offers, the extension
/// modules that are linked into the interpreter are those that were linked
/// in before and, of the modules that the policy chooses, those that the
/// distribution builds in already, or all of them where the interpreter is
/// linked statically: no other module has a build state.
pub proof fn law_linked_in_are_the_chosen_built_in(
    before: BuilderView,
    after: CollectionView,
    name: Seq<char>,
)
    requires
        all_have_variants(before.distribution.extension_modules.entries()),
        distribution_resources_offered(before, after, Ok::<(), PackagingError>(())),
    ensures
        after.states.contains_key(name) <==> (before.collection.states.contains_key(name)
            || linked_among(
            before,
            resolved_extension_modules(
                before.packaging,
                variants_of(before.distribution.extension_modules.entries()),
                before.target_triple,
            ),
            resolved_extension_modules(
                before.packaging,
                variants_of(before.distribution.extension_modules.entries()),
                before.target_triple,
            ).len() as int,
            name,
        )),
{
    assert(distribution_resources_added(
        before,
        before.packaging,
        after,
        Ok::<(), PackagingError>(()),
        resolved_extension_modules(
            before.packaging,
            variants_of(before.distribution.extension_modules.entries()),
            before.target_triple,
        ),
        stdlib_sources(before.distribution),
        stdlib_resources(before.distribution),
    ));
    let d = before.distribution;
    let packaging = before.packaging;
    let r = Ok::<(), PackagingError>(());
    let modules = resolved_extension_modules(
        packaging,
        variants_of(d.extension_modules.entries()),
        before.target_triple,
    );
    let first = module_step(before);
    let m1 = choose|m1: CollectionView| #[trigger]
        all_done(first, before.collection, m1, Ok::<(), PackagingError>(()), modules) && {
            let second = source_step(before.with_collection(m1), packaging);
            ||| r is Err && all_done(second, m1, after, r, stdlib_sources(d))
            ||| exists|m2: CollectionView| #[trigger]
                all_done(second, m1, m2, Ok::<(), PackagingError>(()), stdlib_sources(d))
                    && all_done(
                    resource_step(before.with_collection(m2), packaging),
                    m2,
                    after,
                    r,
                    stdlib_resources(d),
                )
        };
    let second = source_step(before.with_collection(m1), packaging);
    let m2 = choose|m2: CollectionView| #[trigger]
        all_done(second, m1, m2, Ok::<(), PackagingError>(()), stdlib_sources(d)) && all_done(
            resource_step(before.with_collection(m2), packaging),
            m2,
            after,
            r,
            stdlib_resources(d),
        );
    let trace = choose|trace: Seq<CollectionView>| #[trigger]
        traced(first, Ok::<(), PackagingError>(()), modules, trace) && trace[0]
            == before.collection && trace.last() == m1;
    lemma_linked_names(before, modules, trace, modules.len() as int);
    assert(trace[modules.len() as int] == m1);
    assert(m1.states.contains_key(name) <==> (before.collection.states.contains_key(name)
        || linked_among(before, modules, modules.len() as int, name)));
    lemma_offers_keep_states(before.with_collection(m1), packaging);
    lemma_states_after(second, m1, m2, Ok::<(), PackagingError>(()), stdlib_sources(d));
    lemma_offers_keep_states(before.with_collection(m2), packaging);
    lemma_states_after(
        resource_step(before.with_collection(m2), packaging),
        m2,
        after,
        r,
        stdlib_resources(d),
    );
}

/// Whether every variant of every extension module carries the name under
/// which the extension module is listed.
pub open spec fn named_as_listed(entries: Seq<(Seq<char>, Vec<PythonExtensionModule>)>) -> bool {
    forall|i: int, k: int|
        0 <= i < entries.len() && 0 <= k < entries[i].1.len() ==> (#[trigger] entries[i].1[k])@.name
            == entries[i].0
}

/// Where the interpreter is linked statically and the policy takes every
/// extension module, each extension module of the distribution that works on
/// the target is linked into the interpreter, whatever the resources policy.
pub proof fn law_static_distribution_links_every_module_in(
    before: BuilderView,
    after: CollectionView,
    r: Result<(), PackagingError>,
    i: int,
)
    requires
        before.wf(),
        before.link_mode == LibpythonLinkMode::Static,
        before.packaging.extension_module_filter is All,
        all_have_variants(before.distribution.extension_modules.entries()),
        named_as_listed(before.distribution.extension_modules.entries()),
        distribution_resources_offered(before, after, r),
        0 <= i < before.distribution.extension_modules.entries().len(),
        !broken_on(
            before.packaging,
            before.target_triple,
            before.distribution.extension_modules.entries()[i].0,
        ),
    ensures
        r is Ok,
        after.states.contains_key(before.distribution.extension_modules.entries()[i].0),
{
    let entries = before.distribution.extension_modules.entries();
    let variants = variants_of(entries);
    let modules = resolved_extension_modules(before.packaging, variants, before.target_triple);
    law_static_distribution_links_what_is_chosen(before, after, r);
    assert(chosen_of(before.packaging, variants, before.target_triple, modules));
    assert(entries[i].1.len() > 0);
    assert(variants[i][0] == entries[i].1[0]@);
    assert(variants[i][0].name == entries[i].0);
    let j = choose|j: int| 0 <= j < modules.len() && among(#[trigger] modules[j], variants[i]);
    let k = choose|k: int| 0 <= k < variants[i].len() && #[trigger] variants[i][k] == modules[j];
    assert(variants[i][k] == entries[i].1[k]@);
    assert(modules[j].name == entries[i].0);
}

/// Placing libraries in memory leaves alone what a name holds of an extension
/// module on disk.
pub proof fn lemma_libraries_keep_disk_placement(
    m: Records,
    links: Seq<LibraryDependencyView>,
    name: Seq<char>,
)
    ensures
        record_at(
            with_libraries_in_memory(m, links),
            name,
        ).relative_path_extension_module_shared_library == record_at(
            m,
            name,
        ).relative_path_extension_module_shared_library,
    decreases links.len(),
{
    if links.len() > 0 {
        lemma_libraries_keep_disk_placement(m, links.drop_last(), name);
    }
}

/// Placing libraries on disk leaves alone what a name holds of an extension
/// module, in memory and on disk.
pub proof fn lemma_libraries_keep_placement(
    m: Records,
    links: Seq<LibraryDependencyView>,
    dir: Seq<char>,
    name: Seq<char>,
)
    ensures
        record_at(
            with_libraries_on_disk(m, links, dir),
            name,
        ).relative_path_extension_module_shared_library == record_at(
            m,
            name,
        ).relative_path_extension_module_shared_library,
        record_at(
            with_libraries_on_disk(m, links, dir),
            name,
        ).in_memory_extension_module_shared_library == record_at(
            m,
            name,
        ).in_memory_extension_module_shared_library,
    decreases links.len(),
{
    if links.len() > 0 {
        lemma_libraries_keep_placement(m, links.drop_last(), dir, name);
    }
}

/// Where the interpreter is linked dynamically, the policy admits memory
/// only and the binary can load extension modules from memory, an extension
/// module that the distribution does not build in, and whose shared library
/// is held in memory, is placed in memory: not on disk, and not in the
/// interpreter.
pub proof fn law_in_memory_only_places_in_memory(
    before: BuilderView,
    after: CollectionView,
    r: Result<(), PackagingError>,
    module: ExtensionModuleView,
    bytes: Seq<u8>,
)
    requires
        before.wf(),
        before.link_mode == LibpythonLinkMode::Dynamic,
        before.policy() is InMemoryOnly,
        before.in_memory_loading,
        !module.builtin_default,
        module.shared_library == Some(DataLocationView::Memory(bytes)),
        distribution_module_added(before, after, r, module),
    ensures
        r is Ok,
        after.records.contains_key(module.name),
        after.records[module.name].in_memory_extension_module_shared_library == Some(
            DataLocationView::Memory(bytes),
        ),
        after.records[module.name].relative_path_extension_module_shared_library == record_at(
            before.collection.records,
            module.name,
        ).relative_path_extension_module_shared_library,
        after.states == before.collection.states,
{
    lemma_libraries_keep_disk_placement(
        before.collection.records,
        module.link_libraries,
        module.name,
    );
}

/// Where the interpreter is linked dynamically, the policy admits memory
/// only and the binary can load extension modules from memory, an extension
/// module that the distribution does not build in and that has a shared
/// library, held in memory or in a file, is placed nowhere but in memory:
/// where it was added, its record holds the library in memory; what its
/// record holds on disk and what is linked into the interpreter were left
/// alone; where it was refused, nothing has changed. Whether a library in a
/// file is added depends on the file.
pub proof fn law_in_memory_only_places_nowhere_else(
    before: BuilderView,
    after: CollectionView,
    r: Result<(), PackagingError>,
    module: ExtensionModuleView,
)
    requires
        before.link_mode == LibpythonLinkMode::Dynamic,
        before.policy() is InMemoryOnly,
        before.in_memory_loading,
        !module.builtin_default,
        module.shared_library is Some,
        distribution_module_added(before, after, r, module),
    ensures
        r is Ok ==> after.records.contains_key(module.name) && after.records[module
            .name].in_memory_extension_module_shared_library is Some,
        r is Err ==> after == before.collection,
        record_at(after.records, module.name).relative_path_extension_module_shared_library
            == record_at(
            before.collection.records,
            module.name,
        ).relative_path_extension_module_shared_library,
        after.states == before.collection.states,
{
    lemma_libraries_keep_disk_placement(
        before.collection.records,
        module.link_libraries,
        module.name,
    );
}

/// Under the policy that prefers memory and falls back to files below a
/// prefix, with the interpreter linked dynamically, an extension module that
/// the distribution does not build in is placed in one place at most: where
/// it was added, what its name holds was set either in memory or on disk, and
/// the other was left alone; where it was refused, both were left alone.
pub proof fn law_fallback_places_once(
    before: BuilderView,
    after: CollectionView,
    r: Result<(), PackagingError>,
    module: ExtensionModuleView,
    prefix: Seq<char>,
)
    requires
        before.link_mode == LibpythonLinkMode::Dynamic,
        before.policy() == PolicyView::PreferInMemoryFallbackFilesystemRelative(prefix),
        !module.builtin_default,
        distribution_module_added(before, after, r, module),
    ensures
        ({
            let was = record_at(before.collection.records, module.name);
            let is = record_at(after.records, module.name);
            let memory_kept = is.in_memory_extension_module_shared_library
                == was.in_memory_extension_module_shared_library;
            let disk_kept = is.relative_path_extension_module_shared_library
                == was.relative_path_extension_module_shared_library;
            let in_memory = is.in_memory_extension_module_shared_library == Some(
                DataLocationView::Memory(
                    extension_module_bytes(is, LocationView::InMemory),
                ),
            );
            let on_disk = is.relative_path_extension_module_shared_library is Some;
            &&& after.states == before.collection.states
            &&& r is Err ==> memory_kept && disk_kept
            &&& r is Ok ==> (in_memory && disk_kept) || (on_disk && memory_kept)
        }),
{
    lemma_libraries_keep_disk_placement(
        before.collection.records,
        module.link_libraries,
        module.name,
    );
    lemma_libraries_keep_placement(
        before.collection.records,
        module.link_libraries,
        crate::collector::directory_text(crate::standalone_builder::directory_of(module, prefix)),
        module.name,
    );
}

/// Adding an extension module of the distribution to memory fails where the
/// module has no shared library: the failure is one of configuration, and the
/// collection is as it was.
pub proof fn law_in_memory_needs_shared_library(
    before: CollectionView,
    after: CollectionView,
    r: Result<(), PackagingError>,
    module: ExtensionModuleView,
    path: Seq<char>,
)
    requires
        module.shared_library is None,
        distribution_module_in_memory(before, after, r, module, path),
    ensures
        r is Err,
        r->Err_0.kind_spec() == ErrorKind::Configuration,
        after == before,
{
}

/// Filtering drops every record and every build state whose name is not
/// kept, keeps the others as they are, and does nothing when done again.
pub proof fn law_filter(c: CollectionView, keep: Set<Seq<char>>)
    ensures
        forall|n: Seq<char>| #[trigger]
            filtered(c, keep).records.contains_key(n) <==> keep.contains(n)
                && c.records.contains_key(n),
        forall|n: Seq<char>| #[trigger]
            filtered(c, keep).states.contains_key(n) <==> keep.contains(n) && c.states.contains_key(
                n,
            ),
        forall|n: Seq<char>| #[trigger]
            filtered(c, keep).records.contains_key(n) ==> filtered(c, keep).records[n]
                == c.records[n],
        forall|n: Seq<char>| #[trigger]
            filtered(c, keep).states.contains_key(n) ==> filtered(c, keep).states[n] == c.states[n],
        filtered(filtered(c, keep), keep) == filtered(c, keep),
{
    assert(c.records.restrict(keep).restrict(keep) =~= c.records.restrict(keep));
    assert(c.states.restrict(keep).restrict(keep) =~= c.states.restrict(keep));
}

/// The inputs of the linker for two extension modules: the object files of
/// both, as many as both have together, and each library of either, once.
pub proof fn law_linking_info_of_two(
    first: (Seq<char>, BuildStateView),
    second: (Seq<char>, BuildStateView),
)
    ensures
        ({
            let info = linking_info_of_all(seq![first, second]);
            let a = linking_info_of(first.1);
            let b = linking_info_of(second.1);
            &&& info.object_files == first.1.link_object_files + second.1.link_object_files
            &&& info.object_files.len() == first.1.link_object_files.len()
                + second.1.link_object_files.len()
            &&& info.link_libraries == a.link_libraries.union(b.link_libraries)
            &&& info.link_frameworks == a.link_frameworks.union(b.link_frameworks)
            &&& info.link_system_libraries == a.link_system_libraries.union(
                b.link_system_libraries,
            )
            &&& info.link_libraries_external == a.link_libraries_external.union(
                b.link_libraries_external,
            )
            &&& forall|n: Seq<char>|
                info.link_libraries.contains(n) <==> first.1.link_static_libraries.contains(n)
                    || first.1.link_dynamic_libraries.contains(n)
                    || second.1.link_static_libraries.contains(n)
                    || second.1.link_dynamic_libraries.contains(n)
        }),
{
    let both = seq![first, second];
    assert(both.drop_last() =~= seq![first]);
    assert(both.last() == second);
    assert(seq![first].drop_last() =~= Seq::<(Seq<char>, BuildStateView)>::empty());
    assert(seq![first].last() == first);
    reveal_with_fuel(linking_info_of_all, 3);
    let info = linking_info_of_all(both);
    let a = linking_info_of(first.1);
    let b = linking_info_of(second.1);
    assert(info.object_files =~= first.1.link_object_files + second.1.link_object_files);
    assert(info.link_libraries =~= a.link_libraries.union(b.link_libraries));
    assert(info.link_frameworks =~= a.link_frameworks.union(b.link_frameworks));
    assert(info.link_system_libraries =~= a.link_system_libraries.union(b.link_system_libraries));
    assert(info.link_libraries_external =~= a.link_libraries_external.union(
        b.link_libraries_external,
    ));
}

/// Whether a library is marked in one way at most: as a framework, as a
/// system library, as having a static form, or as having a shared form.
pub open spec fn marked_once(l: LibraryDependencyView) -> bool {
    let framework: int = if l.framework { 1 } else { 0 };
    let system: int = if l.system { 1 } else { 0 };
    let fixed: int = if l.static_library is Some { 1 } else { 0 };
    let shared: int = if l.dynamic_library is Some { 1 } else { 0 };
    framework + system + fixed + shared <= 1
}

/// Where each library of an extension module is marked in one way at most,
/// the four sets hold what the marks say, each taken by itself: the
/// frameworks are the libraries marked as frameworks, the system libraries
/// those marked as such, the static libraries those with a static form, the
/// dynamic libraries those with a shared form.
pub proof fn law_link_kinds_follow_the_marks(links: Seq<LibraryDependencyView>)
    requires
        forall|i: int| 0 <= i < links.len() ==> marked_once(#[trigger] links[i]),
    ensures
        names_of_kind(links, LinkKind::Framework) == Set::new(
            |n: Seq<char>|
                exists|i: int| 0 <= i < links.len() && (#[trigger] links[i]).name == n && links[i].framework,
        ),
        names_of_kind(links, LinkKind::System) == Set::new(
            |n: Seq<char>|
                exists|i: int| 0 <= i < links.len() && (#[trigger] links[i]).name == n && links[i].system,
        ),
        names_of_kind(links, LinkKind::Static) == Set::new(
            |n: Seq<char>|
                exists|i: int|
                    0 <= i < links.len() && (#[trigger] links[i]).name == n
                        && links[i].static_library is Some,
        ),
        names_of_kind(links, LinkKind::Dynamic) == Set::new(
            |n: Seq<char>|
                exists|i: int|
                    0 <= i < links.len() && (#[trigger] links[i]).name == n
                        && links[i].dynamic_library is Some,
        ),
{
    assert(names_of_kind(links, LinkKind::Framework) =~= Set::new(
        |n: Seq<char>|
            exists|i: int| 0 <= i < links.len() && (#[trigger] links[i]).name == n && links[i].framework,
    ));
    assert(names_of_kind(links, LinkKind::System) =~= Set::new(
        |n: Seq<char>|
            exists|i: int| 0 <= i < links.len() && (#[trigger] links[i]).name == n && links[i].system,
    ));
    assert(names_of_kind(links, LinkKind::Static) =~= Set::new(
        |n: Seq<char>|
            exists|i: int|
                0 <= i < links.len() && (#[trigger] links[i]).name == n
                    && links[i].static_library is Some,
    ));
    assert(names_of_kind(links, LinkKind::Dynamic) =~= Set::new(
        |n: Seq<char>|
            exists|i: int|
                0 <= i < links.len() && (#[trigger] links[i]).name == n
                    && links[i].dynamic_library is Some,
    ));
}

/// Where no two libraries of an extension module have the same name, no
/// name is linked in two ways: the sets of frameworks, of system libraries,
/// of static libraries and of dynamic libraries are disjoint.
pub proof fn law_link_kinds_disjoint(links: Seq<LibraryDependencyView>, a: LinkKind, b: LinkKind)
    requires
        a != b,
        forall|i: int, j: int|
            0 <= i < j < links.len() ==> (#[trigger] links[i]).name != (#[trigger] links[j]).name,
    ensures
        names_of_kind(links, a).disjoint(names_of_kind(links, b)),
{
    assert forall|n: Seq<char>|
        !(names_of_kind(links, a).contains(n) && names_of_kind(links, b).contains(n)) by {
        if names_of_kind(links, a).contains(n) && names_of_kind(links, b).contains(n) {
            let i = choose|i: int|
                0 <= i < links.len() && (#[trigger] links[i]).name == n && link_kind(links[i])
                    == Some(a);
            let j = choose|j: int|
                0 <= j < links.len() && (#[trigger] links[j]).name == n && link_kind(links[j])
                    == Some(b);
            if i < j {
                assert(links[i].name != links[j].name);
            } else if j < i {
                assert(links[j].name != links[i].name);
            }
        }
    }
}

} // verus!
