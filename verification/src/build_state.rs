//! What it takes to link an extension module into the interpreter.

use crate::resource::{
    clone_locations, clone_text, text_of, views, DataLocation, DataLocationView,
    ExtensionModuleView, LibraryDependencyView, PythonExtensionModule,
};
use crate::string_set::StringSet;
use vstd::prelude::*;

verus! {

/// The one way in which a library is linked.
#[derive(Debug, Clone, Copy, PartialEq, Eq, Structural)]
pub enum LinkKind {
    /// A system framework.
    Framework,
    /// A system library.
    System,
    /// A static library of the distribution.
    Static,
    /// A shared library of the distribution.
    Dynamic,
}

/// The way in which a library is linked: as a framework if it is marked as
/// one, else as a system library if it is marked as one, else statically if
/// it has a static form, else dynamically if it has a shared form.
pub open spec fn link_kind(l: LibraryDependencyView) -> Option<LinkKind> {
    if l.framework {
        Some(LinkKind::Framework)
    } else if l.system {
        Some(LinkKind::System)
    } else if l.static_library is Some {
        Some(LinkKind::Static)
    } else if l.dynamic_library is Some {
        Some(LinkKind::Dynamic)
    } else {
        None
    }
}

/// The names of the libraries of `links` that are linked in the given way.
pub open spec fn names_of_kind(links: Seq<LibraryDependencyView>, kind: LinkKind) -> Set<
    Seq<char>,
> {
    Set::new(
        |n: Seq<char>|
            exists|i: int|
                0 <= i < links.len() && (#[trigger] links[i]).name == n && link_kind(links[i])
                    == Some(kind),
    )
}

/// The names of all the libraries of `links`.
pub open spec fn names_of_links(links: Seq<LibraryDependencyView>) -> Set<Seq<char>> {
    Set::new(|n: Seq<char>| exists|i: int| 0 <= i < links.len() && (#[trigger] links[i]).name == n)
}

/// One more library adds its name to the set of its kind and to no other.
pub proof fn lemma_names_of_kind_push(
    links: Seq<LibraryDependencyView>,
    l: LibraryDependencyView,
    kind: LinkKind,
)
    ensures
        names_of_kind(links.push(l), kind) == if link_kind(l) == Some(kind) {
            names_of_kind(links, kind).insert(l.name)
        } else {
            names_of_kind(links, kind)
        },
{
    let more = links.push(l);
    let a = names_of_kind(more, kind);
    let b = if link_kind(l) == Some(kind) {
        names_of_kind(links, kind).insert(l.name)
    } else {
        names_of_kind(links, kind)
    };
    assert forall|n: Seq<char>| a.contains(n) <==> b.contains(n) by {
        if a.contains(n) {
            let i = choose|i: int|
                0 <= i < more.len() && (#[trigger] more[i]).name == n && link_kind(more[i]) == Some(
                    kind,
                );
            if i < links.len() {
                assert(links[i] == more[i]);
            }
        }
        if names_of_kind(links, kind).contains(n) {
            let i = choose|i: int|
                0 <= i < links.len() && (#[trigger] links[i]).name == n && link_kind(links[i])
                    == Some(kind);
            assert(more[i] == links[i]);
        }
        if link_kind(l) == Some(kind) && n == l.name {
            assert(more[links.len() as int] == l);
        }
    }
    assert(a =~= b);
}

/// One more library adds its name to the names of all libraries.
pub proof fn lemma_names_of_links_push(links: Seq<LibraryDependencyView>, l: LibraryDependencyView)
    ensures
        names_of_links(links.push(l)) == names_of_links(links).insert(l.name),
{
    let more = links.push(l);
    let a = names_of_links(more);
    let b = names_of_links(links).insert(l.name);
    assert forall|n: Seq<char>| a.contains(n) <==> b.contains(n) by {
        if a.contains(n) {
            let i = choose|i: int| 0 <= i < more.len() && (#[trigger] more[i]).name == n;
            if i < links.len() {
                assert(links[i] == more[i]);
            }
        }
        if names_of_links(links).contains(n) {
            let i = choose|i: int| 0 <= i < links.len() && (#[trigger] links[i]).name == n;
            assert(more[i] == links[i]);
        }
        if n == l.name {
            assert(more[links.len() as int] == l);
        }
    }
    assert(a =~= b);
}

/// What is needed to link one extension module into the interpreter.
#[derive(Debug, PartialEq)]
pub struct ExtensionModuleBuildState {
    /// The C function that initialises the module.
    pub init_fn: Option<String>,
    /// The object files to link.
    pub link_object_files: Vec<DataLocation>,
    /// The frameworks to link against.
    pub link_frameworks: StringSet,
    /// The system libraries to link against.
    pub link_system_libraries: StringSet,
    /// The static libraries to link against.
    pub link_static_libraries: StringSet,
    /// The dynamic libraries to link against.
    pub link_dynamic_libraries: StringSet,
    /// The libraries that the toolchain of the host finds by itself.
    pub link_external_libraries: StringSet,
}

/// What an `ExtensionModuleBuildState` stands for.
pub struct BuildStateView {
    pub init_fn: Option<Seq<char>>,
    pub link_object_files: Seq<DataLocationView>,
    pub link_frameworks: Set<Seq<char>>,
    pub link_system_libraries: Set<Seq<char>>,
    pub link_static_libraries: Set<Seq<char>>,
    pub link_dynamic_libraries: Set<Seq<char>>,
    pub link_external_libraries: Set<Seq<char>>,
}

impl View for ExtensionModuleBuildState {
    type V = BuildStateView;

    open spec fn view(&self) -> BuildStateView {
        BuildStateView {
            init_fn: text_of(self.init_fn),
            link_object_files: views(self.link_object_files@),
            link_frameworks: self.link_frameworks@,
            link_system_libraries: self.link_system_libraries@,
            link_static_libraries: self.link_static_libraries@,
            link_dynamic_libraries: self.link_dynamic_libraries@,
            link_external_libraries: self.link_external_libraries@,
        }
    }
}

impl Clone for ExtensionModuleBuildState {
    fn clone(&self) -> (r: Self)
        ensures
            r@ == self@,
    {
        ExtensionModuleBuildState {
            init_fn: clone_text(&self.init_fn),
            link_object_files: clone_locations(&self.link_object_files),
            link_frameworks: self.link_frameworks.clone(),
            link_system_libraries: self.link_system_libraries.clone(),
            link_static_libraries: self.link_static_libraries.clone(),
            link_dynamic_libraries: self.link_dynamic_libraries.clone(),
            link_external_libraries: self.link_external_libraries.clone(),
        }
    }
}

/// The build state of an extension module of the distribution: its object
/// files, unless the distribution builds it into the interpreter already, and
/// its libraries, each under the way in which it is linked.
pub open spec fn distribution_build_state(m: ExtensionModuleView) -> BuildStateView {
    BuildStateView {
        init_fn: m.init_fn,
        link_object_files: if m.builtin_default {
            Seq::empty()
        } else {
            m.object_file_data
        },
        link_frameworks: names_of_kind(m.link_libraries, LinkKind::Framework),
        link_system_libraries: names_of_kind(m.link_libraries, LinkKind::System),
        link_static_libraries: names_of_kind(m.link_libraries, LinkKind::Static),
        link_dynamic_libraries: names_of_kind(m.link_libraries, LinkKind::Dynamic),
        link_external_libraries: Set::empty(),
    }
}

/// The build state of an extension module that does not come with the
/// distribution: its object files, and all its libraries left to the
/// toolchain of the host.
pub open spec fn external_build_state(m: ExtensionModuleView) -> BuildStateView {
    BuildStateView {
        init_fn: m.init_fn,
        link_object_files: m.object_file_data,
        link_frameworks: Set::empty(),
        link_system_libraries: Set::empty(),
        link_static_libraries: Set::empty(),
        link_dynamic_libraries: Set::empty(),
        link_external_libraries: names_of_links(m.link_libraries),
    }
}

impl ExtensionModuleBuildState {
    /// The build state of an extension module of the distribution.
    pub fn for_distribution_module(module: &PythonExtensionModule) -> (r: Self)
        ensures
            r@ == distribution_build_state(module@),
    {
        let mut frameworks = StringSet::new();
        let mut system = StringSet::new();
        let mut statics = StringSet::new();
        let mut dynamics = StringSet::new();
        let ghost links = views(module.link_libraries@);
        let mut i: usize = 0;
        proof {
            assert(names_of_kind(links.take(0), LinkKind::Framework) =~= Set::empty());
            assert(names_of_kind(links.take(0), LinkKind::System) =~= Set::empty());
            assert(names_of_kind(links.take(0), LinkKind::Static) =~= Set::empty());
            assert(names_of_kind(links.take(0), LinkKind::Dynamic) =~= Set::empty());
        }
        while i < module.link_libraries.len()
            invariant
                i <= module.link_libraries.len(),
                links == views(module.link_libraries@),
                frameworks@ == names_of_kind(links.take(i as int), LinkKind::Framework),
                system@ == names_of_kind(links.take(i as int), LinkKind::System),
                statics@ == names_of_kind(links.take(i as int), LinkKind::Static),
                dynamics@ == names_of_kind(links.take(i as int), LinkKind::Dynamic),
            decreases module.link_libraries.len() - i,
        {
            let link = &module.link_libraries[i];
            proof {
                assert(links[i as int] == link@);
                assert(links.take(i + 1) =~= links.take(i as int).push(link@));
                lemma_names_of_kind_push(links.take(i as int), link@, LinkKind::Framework);
                lemma_names_of_kind_push(links.take(i as int), link@, LinkKind::System);
                lemma_names_of_kind_push(links.take(i as int), link@, LinkKind::Static);
                lemma_names_of_kind_push(links.take(i as int), link@, LinkKind::Dynamic);
            }
            if link.framework {
                frameworks.insert(link.name.clone());
            } else if link.system {
                system.insert(link.name.clone());
            } else if link.static_library.is_some() {
                statics.insert(link.name.clone());
            } else if link.dynamic_library.is_some() {
                dynamics.insert(link.name.clone());
            }
            i += 1;
        }
        assert(links.take(i as int) =~= links);
        let link_object_files = if module.builtin_default {
            Vec::new()
        } else {
            clone_locations(&module.object_file_data)
        };
        assert(module.builtin_default ==> views(link_object_files@) =~= Seq::empty());
        ExtensionModuleBuildState {
            init_fn: clone_text(&module.init_fn),
            link_object_files,
            link_frameworks: frameworks,
            link_system_libraries: system,
            link_static_libraries: statics,
            link_dynamic_libraries: dynamics,
            link_external_libraries: StringSet::new(),
        }
    }

    /// The build state of an extension module that does not come with the
    /// distribution.
    pub fn for_external_module(module: &PythonExtensionModule) -> (r: Self)
        ensures
            r@ == external_build_state(module@),
    {
        let mut external = StringSet::new();
        let ghost links = views(module.link_libraries@);
        let mut i: usize = 0;
        proof {
            assert(names_of_links(links.take(0)) =~= Set::empty());
        }
        while i < module.link_libraries.len()
            invariant
                i <= module.link_libraries.len(),
                links == views(module.link_libraries@),
                external@ == names_of_links(links.take(i as int)),
            decreases module.link_libraries.len() - i,
        {
            let link = &module.link_libraries[i];
            proof {
                assert(links[i as int] == link@);
                assert(links.take(i + 1) =~= links.take(i as int).push(link@));
                lemma_names_of_links_push(links.take(i as int), link@);
            }
            external.insert(link.name.clone());
            i += 1;
        }
        assert(links.take(i as int) =~= links);
        ExtensionModuleBuildState {
            init_fn: clone_text(&module.init_fn),
            link_object_files: clone_locations(&module.object_file_data),
            link_frameworks: StringSet::new(),
            link_system_libraries: StringSet::new(),
            link_static_libraries: StringSet::new(),
            link_dynamic_libraries: StringSet::new(),
            link_external_libraries: external,
        }
    }
}

} // verus!
