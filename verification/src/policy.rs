//! What the user wants packaged, and how.

use crate::name_map::NameMap;
use crate::resource::{
    BytecodeRequestView, ModuleSourceView, PackageResourceView, PolicyView,
    PythonModuleBytecodeFromSource, PythonModuleSource, PythonPackageResource,
    PythonResourcesPolicy,
};

use vstd::prelude::*;

verus! {

/// Which extension modules of a distribution go into a binary.
#[derive(Debug, Clone, Copy, PartialEq, Eq, Structural)]
pub enum ExtensionModuleFilter {
    /// Those without which the interpreter does not start.
    Minimal,
    /// All of them.
    All,
    /// Those that need no library.
    NoLibraries,
    /// Those whose libraries are known not to be under the GPL.
    NoGPL,
}

/// How the resources of a binary are chosen and placed.
#[derive(Debug)]
pub struct PythonPackagingPolicy {
    extension_module_filter: ExtensionModuleFilter,
    preferred_extension_module_variants: NameMap<String>,
    resources_policy: PythonResourcesPolicy,
    include_distribution_sources: bool,
    include_distribution_resources: bool,
    include_test: bool,
    broken_extensions: NameMap<Vec<String>>,
}

/// What a `PythonPackagingPolicy` stands for.
pub struct PackagingPolicyView {
    pub extension_module_filter: ExtensionModuleFilter,
    pub preferred_extension_module_variants: Map<Seq<char>, Seq<char>>,
    pub resources_policy: PolicyView,
    pub include_distribution_sources: bool,
    pub include_distribution_resources: bool,
    pub include_test: bool,
    pub broken_extensions: Map<Seq<char>, Seq<Seq<char>>>,
}

impl PackagingPolicyView {
    /// Whether the source of a module is wanted: sources of the distribution
    /// are wanted at all, and the module is no test or tests are wanted.
    pub open spec fn includes_source(self, module: ModuleSourceView) -> bool {
        (self.include_test || !module.is_test) && self.include_distribution_sources
    }

    /// Whether the bytecode of a module is wanted: the module is no test or
    /// tests are wanted.
    pub open spec fn includes_bytecode(self, module: BytecodeRequestView) -> bool {
        self.include_test || !module.is_test
    }

    /// Whether a data file of a package is wanted: always, unless it comes
    /// with the interpreter; then where data files of the distribution are
    /// wanted, and the package is no test or tests are wanted.
    pub open spec fn includes_resource(self, resource: PackageResourceView) -> bool {
        if resource.is_stdlib {
            self.include_distribution_resources && (self.include_test || !resource.is_test)
        } else {
            true
        }
    }

    /// The policy with one more extension module that does not work on a
    /// target.
    pub open spec fn with_broken_extension(
        self,
        target_triple: Seq<char>,
        extension: Seq<char>,
    ) -> PackagingPolicyView {
        let before = if self.broken_extensions.contains_key(target_triple) {
            self.broken_extensions[target_triple]
        } else {
            Seq::empty()
        };
        PackagingPolicyView {
            broken_extensions: self.broken_extensions.insert(
                target_triple,
                before.push(extension),
            ),
            ..self
        }
    }
}

impl View for PythonPackagingPolicy {
    type V = PackagingPolicyView;

    closed spec fn view(&self) -> PackagingPolicyView {
        PackagingPolicyView {
            extension_module_filter: self.extension_module_filter,
            preferred_extension_module_variants: self.preferred_extension_module_variants@.map_values(
                |s: String| s@,
            ),
            resources_policy: self.resources_policy@,
            include_distribution_sources: self.include_distribution_sources,
            include_distribution_resources: self.include_distribution_resources,
            include_test: self.include_test,
            broken_extensions: self.broken_extensions@.map_values(
                |v: Vec<String>| v@.map_values(|s: String| s@),
            ),
        }
    }
}

impl Clone for PythonPackagingPolicy {
    fn clone(&self) -> (r: Self)
        ensures
            r@ == self@,
    {
        let preferred = self.preferred_extension_module_variants.clone();
        let broken = self.broken_extensions.clone();
        proof {
            crate::name_map::lemma_cloned_map(
                self.preferred_extension_module_variants.entries(),
                preferred.entries(),
                |s: String| s@,
            );
            assert forall|a: Vec<String>, b: Vec<String>| cloned(a, b) implies a@.map_values(
                |s: String| s@,
            ) == b@.map_values(|s: String| s@) by {
                assert(a@.map_values(|s: String| s@) =~= b@.map_values(|s: String| s@));
            }
            crate::name_map::lemma_cloned_map(
                self.broken_extensions.entries(),
                broken.entries(),
                |v: Vec<String>| v@.map_values(|s: String| s@),
            );
        }
        PythonPackagingPolicy {
            extension_module_filter: self.extension_module_filter,
            preferred_extension_module_variants: preferred,
            resources_policy: self.resources_policy.clone(),
            include_distribution_sources: self.include_distribution_sources,
            include_distribution_resources: self.include_distribution_resources,
            include_test: self.include_test,
            broken_extensions: broken,
        }
    }
}

impl Default for PythonPackagingPolicy {
    /// Every extension module, everything embedded in the binary, the
    /// sources of the distribution without its data files and tests.
    fn default() -> (r: Self)
        ensures
            r@ == (PackagingPolicyView {
                extension_module_filter: ExtensionModuleFilter::All,
                preferred_extension_module_variants: Map::empty(),
                resources_policy: PolicyView::InMemoryOnly,
                include_distribution_sources: true,
                include_distribution_resources: false,
                include_test: false,
                broken_extensions: Map::empty(),
            }),
    {
        let r = PythonPackagingPolicy {
            extension_module_filter: ExtensionModuleFilter::All,
            preferred_extension_module_variants: NameMap::new(),
            resources_policy: PythonResourcesPolicy::InMemoryOnly,
            include_distribution_sources: true,
            include_distribution_resources: false,
            include_test: false,
            broken_extensions: NameMap::new(),
        };
        proof {
            assert(r@.preferred_extension_module_variants =~= Map::empty());
            assert(r@.broken_extensions =~= Map::empty());
        }
        r
    }
}

impl PythonPackagingPolicy {
    /// Which extension modules go into the binary.
    pub fn get_extension_module_filter(&self) -> (r: ExtensionModuleFilter)
        ensures
            r == self@.extension_module_filter,
    {
        self.extension_module_filter
    }

    /// Sets which extension modules go into the binary.
    pub fn set_extension_module_filter(&mut self, filter: ExtensionModuleFilter)
        ensures
            final(self)@ == (PackagingPolicyView { extension_module_filter: filter, ..old(self)@ }),
    {
        self.extension_module_filter = filter;
    }

    /// The variants of extension modules that are preferred, by module.
    pub fn get_preferred_extension_module_variants(&self) -> (r: &NameMap<String>)
        ensures
            r@.map_values(|s: String| s@) == self@.preferred_extension_module_variants,
    {
        &self.preferred_extension_module_variants
    }

    /// Prefers `variant` of the extension module `extension`.
    pub fn set_preferred_extension_module_variant(&mut self, extension: &str, variant: &str)
        ensures
            final(self)@ == (PackagingPolicyView {
                preferred_extension_module_variants: old(
                    self,
                )@.preferred_extension_module_variants.insert(extension@, variant@),
                ..old(self)@
            }),
    {
        self.preferred_extension_module_variants.insert(extension.to_owned(), variant.to_owned());
        assert(self@.preferred_extension_module_variants =~= old(
            self,
        )@.preferred_extension_module_variants.insert(extension@, variant@));
    }

    /// Where resources are placed.
    pub fn get_resources_policy(&self) -> (r: &PythonResourcesPolicy)
        ensures
            r@ == self@.resources_policy,
    {
        &self.resources_policy
    }

    /// Sets where resources are placed.
    pub fn set_resources_policy(&mut self, policy: PythonResourcesPolicy)
        ensures
            final(self)@ == (PackagingPolicyView { resources_policy: policy@, ..old(self)@ }),
    {
        self.resources_policy = policy;
    }

    /// Sets whether the sources of the distribution are wanted.
    pub fn set_include_distribution_sources(&mut self, wanted: bool)
        ensures
            final(self)@ == (PackagingPolicyView {
                include_distribution_sources: wanted,
                ..old(self)@
            }),
    {
        self.include_distribution_sources = wanted;
    }

    /// Sets whether the data files of the distribution are wanted.
    pub fn set_include_distribution_resources(&mut self, wanted: bool)
        ensures
            final(self)@ == (PackagingPolicyView {
                include_distribution_resources: wanted,
                ..old(self)@
            }),
    {
        self.include_distribution_resources = wanted;
    }

    /// Sets whether tests are wanted.
    pub fn set_include_test(&mut self, wanted: bool)
        ensures
            final(self)@ == (PackagingPolicyView { include_test: wanted, ..old(self)@ }),
    {
        self.include_test = wanted;
    }

    /// The extension modules that do not work on a target, by target.
    pub fn get_broken_extensions(&self) -> (r: &NameMap<Vec<String>>)
        ensures
            r@.map_values(|v: Vec<String>| v@.map_values(|s: String| s@))
                == self@.broken_extensions,
    {
        &self.broken_extensions
    }

    /// Marks an extension module as one that does not work on a target.
    pub fn register_broken_extension(&mut self, target_triple: &str, extension: &str)
        ensures
            final(self)@ == old(self)@.with_broken_extension(target_triple@, extension@),
    {
        let mut list: Vec<String> = Vec::new();
        match self.broken_extensions.get(target_triple) {
            Some(found) => {
                list = found.clone();
                assert(list@.map_values(|s: String| s@) =~= found@.map_values(|s: String| s@));
            },
            None => {
                assert(list@.map_values(|s: String| s@) =~= Seq::<Seq<char>>::empty());
            },
        }
        let ghost before = list@.map_values(|s: String| s@);
        list.push(extension.to_owned());
        assert(list@.map_values(|s: String| s@) =~= before.push(extension@));
        self.broken_extensions.insert(target_triple.to_owned(), list);
        assert(self@.broken_extensions =~= old(self)@.with_broken_extension(
            target_triple@,
            extension@,
        ).broken_extensions);
    }

    /// Whether the source of `module` is wanted.
    pub fn includes_source(&self, module: &PythonModuleSource) -> (r: bool)
        ensures
            r == self@.includes_source(module@),
    {
        if !self.include_test && module.is_test {
            false
        } else {
            self.include_distribution_sources
        }
    }

    /// Whether the bytecode of `module` is wanted.
    pub fn includes_bytecode(&self, module: &PythonModuleBytecodeFromSource) -> (r: bool)
        ensures
            r == self@.includes_bytecode(module@),
    {
        self.include_test || !module.is_test
    }

    /// Whether the data file `resource` is wanted.
    pub fn includes_resource(&self, resource: &PythonPackageResource) -> (r: bool)
        ensures
            r == self@.includes_resource(resource@),
    {
        if resource.is_stdlib {
            if self.include_distribution_resources {
                self.include_test || !resource.is_test
            } else {
                false
            }
        } else {
            true
        }
    }
}

} // verus!
