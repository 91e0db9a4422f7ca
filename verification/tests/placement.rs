use pyoxidizer::collector::ResourceSummary;
use pyoxidizer::error::{ErrorKind, PackagingError};
use pyoxidizer::name_map::NameMap;
use pyoxidizer::policy::{ExtensionModuleFilter, PythonPackagingPolicy};
use pyoxidizer::resource::{
    DataLocation, LibpythonLinkMode, LibraryDependency, PythonExtensionModule,
    PythonModuleSource, PythonResourcesPolicy,
};
use pyoxidizer::standalone_builder::{
    EmbeddedPythonConfig, LinkedLibpython, PythonLinkingInfo, RawAllocator,
    StandalonePythonExecutableBuilder,
};
use pyoxidizer::standalone_distribution::{
    BinaryLibpythonLinkMode, PythonModuleSuffixes, StandaloneDistribution,
    StandaloneDistributionLinkMode,
};
use pyoxidizer::string_set::StringSet;

fn module(name: &str) -> PythonExtensionModule {
    PythonExtensionModule {
        name: name.to_string(),
        init_fn: Some(format!("PyInit_{}", name)),
        extension_file_suffix: ".so".to_string(),
        shared_library: None,
        object_file_data: vec![],
        is_package: false,
        link_libraries: vec![],
        is_stdlib: true,
        builtin_default: false,
        required: false,
        variant: Some("default".to_string()),
        licenses: None,
        license_public_domain: None,
    }
}

fn shared(name: &str) -> PythonExtensionModule {
    let mut em = module(name);
    em.shared_library = Some(DataLocation::Memory(vec![1, 2, 3]));
    em
}

fn unreadable(name: &str) -> PythonExtensionModule {
    let mut em = module(name);
    em.shared_library = Some(DataLocation::Path(
        "/nonexistent/pyoxidizer-test/ext.so".to_string(),
    ));
    em
}

fn distribution(
    target_triple: &str,
    loading: &[&str],
    shared_library: Option<&str>,
    modules: Vec<PythonExtensionModule>,
) -> StandaloneDistribution {
    let mut extension_modules = NameMap::new();
    for em in modules {
        extension_modules.insert(em.name.clone(), vec![em]);
    }
    let mut py_modules = NameMap::new();
    py_modules.insert("os".to_string(), "/d/python/lib/os.py".to_string());
    py_modules.insert(
        "test.support".to_string(),
        "/d/python/lib/test/support/__init__.py".to_string(),
    );
    let mut resources = NameMap::new();
    let mut files = NameMap::new();
    files.insert("data.txt".to_string(), "/d/python/lib/pkg/data.txt".to_string());
    resources.insert("pkg".to_string(), files);
    StandaloneDistribution {
        base_dir: "/d".to_string(),
        target_triple: target_triple.to_string(),
        python_tag: "cp37".to_string(),
        python_abi_tag: None,
        python_platform_tag: "linux".to_string(),
        version: "3.7.6".to_string(),
        python_exe: "/d/python/install/bin/python3".to_string(),
        stdlib_path: "/d/python/install/lib/python3.7".to_string(),
        link_mode: if shared_library.is_some() {
            StandaloneDistributionLinkMode::Dynamic
        } else {
            StandaloneDistributionLinkMode::Static
        },
        python_symbol_visibility: "dllexport".to_string(),
        extension_module_loading: loading.iter().map(|s| s.to_string()).collect(),
        licenses: None,
        license_path: None,
        tcl_library_path: None,
        objs_core: NameMap::new(),
        links_core: vec![],
        libpython_shared_library: shared_library.map(|s| s.to_string()),
        extension_modules,
        frozen_c: vec![],
        includes: NameMap::new(),
        libraries: NameMap::new(),
        py_modules,
        resources,
        license_infos: NameMap::new(),
        venv_base: "/hacked_base".to_string(),
        inittab_object: "/d/python/build/inittab.o".to_string(),
        inittab_cflags: vec![],
        cache_tag: "cpython-37".to_string(),
        module_suffixes: PythonModuleSuffixes {
            source: vec![".py".to_string()],
            bytecode: vec![".pyc".to_string()],
            debug_bytecode: vec![],
            optimized_bytecode: vec![],
            extension: vec![".so".to_string()],
        },
        stdlib_test_packages: vec!["test".to_string()],
    }
}

fn policy(resources: PythonResourcesPolicy) -> PythonPackagingPolicy {
    let mut policy = PythonPackagingPolicy::default();
    policy.set_resources_policy(resources);
    policy
}

fn config() -> EmbeddedPythonConfig {
    EmbeddedPythonConfig {
        raw_allocator: RawAllocator::System,
    }
}

fn builder(
    resources: PythonResourcesPolicy,
    link_mode: LibpythonLinkMode,
    in_memory_loading: bool,
    file_loading: bool,
) -> StandalonePythonExecutableBuilder {
    let loading: &[&str] = if file_loading {
        &["shared-library"]
    } else {
        &["builtin"]
    };
    StandalonePythonExecutableBuilder::new(
        "x86_64-unknown-linux-gnu",
        "x86_64-unknown-linux-gnu",
        "testapp",
        distribution("x86_64-unknown-linux-gnu", loading, None, vec![]),
        link_mode,
        in_memory_loading,
        policy(resources),
        config(),
    )
}

fn policies() -> Vec<PythonResourcesPolicy> {
    vec![
        PythonResourcesPolicy::InMemoryOnly,
        PythonResourcesPolicy::FilesystemRelativeOnly("lib".to_string()),
        PythonResourcesPolicy::PreferInMemoryFallbackFilesystemRelative("lib".to_string()),
    ]
}

fn summary(b: &StandalonePythonExecutableBuilder, name: &str) -> Option<ResourceSummary> {
    b.iter_resources()
        .into_iter()
        .find(|(n, _)| n == name)
        .map(|(_, s)| s)
}

fn is_builtin(b: &StandalonePythonExecutableBuilder, name: &str) -> bool {
    b.builtin_extension_module_names().iter().any(|n| n == name)
}

#[test]
fn a_module_that_is_built_in_by_default_is_linked_in_under_every_policy() {
    for resources in policies() {
        for link_mode in [LibpythonLinkMode::Static, LibpythonLinkMode::Dynamic] {
            for capable in [false, true] {
                let mut b = builder(resources.clone(), link_mode, capable, capable);
                let mut em = shared("_io");
                em.builtin_default = true;
                b.add_distribution_extension_module(&em).unwrap();
                assert!(is_builtin(&b, "_io"));
                assert!(b.iter_resources().is_empty());
            }
        }
    }
}

#[test]
fn with_a_static_interpreter_every_distribution_module_is_linked_in() {
    for resources in policies() {
        for capable in [false, true] {
            let mut b = builder(resources.clone(), LibpythonLinkMode::Static, capable, capable);
            b.add_distribution_extension_module(&shared("_ssl")).unwrap();
            b.add_distribution_extension_module(&module("_bz2")).unwrap();
            assert_eq!(
                b.builtin_extension_module_names(),
                vec!["_bz2".to_string(), "_ssl".to_string()]
            );
            assert!(b.iter_resources().is_empty());
        }
    }
}

#[test]
fn a_policy_of_memory_only_places_a_module_in_memory() {
    let mut b = builder(
        PythonResourcesPolicy::InMemoryOnly,
        LibpythonLinkMode::Dynamic,
        true,
        true,
    );
    b.add_distribution_extension_module(&shared("_ssl")).unwrap();
    let s = summary(&b, "_ssl").unwrap();
    assert!(s.is_extension_module);
    assert!(s.in_memory_extension_module);
    assert!(!s.relative_path_extension_module);
    assert!(!s.is_builtin_extension_module);
    assert!(!is_builtin(&b, "_ssl"));
}

#[test]
fn a_policy_of_memory_only_fails_where_memory_cannot_be_loaded_from() {
    let mut b = builder(
        PythonResourcesPolicy::InMemoryOnly,
        LibpythonLinkMode::Dynamic,
        false,
        true,
    );
    let e = b
        .add_distribution_extension_module(&shared("_ssl"))
        .unwrap_err();
    assert_eq!(e, PackagingError::InMemoryLoadingUnsupported);
    assert_eq!(e.kind(), ErrorKind::Configuration);
    assert!(b.iter_resources().is_empty());
    assert!(b.builtin_extension_module_names().is_empty());
}

#[test]
fn a_policy_of_memory_only_fails_for_a_module_without_shared_library() {
    let mut b = builder(
        PythonResourcesPolicy::InMemoryOnly,
        LibpythonLinkMode::Dynamic,
        true,
        true,
    );
    let e = b
        .add_distribution_extension_module(&module("_ssl"))
        .unwrap_err();
    assert_eq!(
        e,
        PackagingError::InMemoryWithoutSharedLibrary("_ssl".to_string())
    );
    assert!(b.iter_resources().is_empty());
    assert!(b.builtin_extension_module_names().is_empty());
}

#[test]
fn a_policy_of_files_only_places_a_module_on_disk() {
    let mut b = builder(
        PythonResourcesPolicy::FilesystemRelativeOnly("lib".to_string()),
        LibpythonLinkMode::Dynamic,
        true,
        true,
    );
    b.add_distribution_extension_module(&shared("_ssl")).unwrap();
    let s = summary(&b, "_ssl").unwrap();
    assert!(s.relative_path_extension_module);
    assert!(!s.in_memory_extension_module);
    assert!(!is_builtin(&b, "_ssl"));

    let mut b = builder(
        PythonResourcesPolicy::FilesystemRelativeOnly("lib".to_string()),
        LibpythonLinkMode::Dynamic,
        true,
        false,
    );
    let e = b
        .add_distribution_extension_module(&shared("_ssl"))
        .unwrap_err();
    assert_eq!(e, PackagingError::FileLoadingUnsupported);
    assert!(b.iter_resources().is_empty());
}

#[test]
fn the_fallback_policy_goes_below_the_prefix_where_memory_fails() {
    let mut b = builder(
        PythonResourcesPolicy::PreferInMemoryFallbackFilesystemRelative("lib".to_string()),
        LibpythonLinkMode::Dynamic,
        false,
        true,
    );
    b.add_distribution_extension_module(&shared("_ssl")).unwrap();
    let s = summary(&b, "_ssl").unwrap();
    assert!(!s.in_memory_extension_module && s.relative_path_extension_module);
    assert!(!is_builtin(&b, "_ssl"));
}

#[test]
fn a_dynamic_module_that_fails_twice_fails_as_it_did_first() {
    let mut b = builder(
        PythonResourcesPolicy::PreferInMemoryFallbackFilesystemRelative("lib".to_string()),
        LibpythonLinkMode::Dynamic,
        true,
        true,
    );
    // The library cannot be read: the attempt in memory fails on that, and
    // the attempt below the prefix fails too.
    let e = b
        .add_dynamic_extension_module(&unreadable("ext"))
        .unwrap_err();
    assert!(matches!(e, PackagingError::Unresolved(_)));
    assert!(b.iter_resources().is_empty());
    assert!(b.builtin_extension_module_names().is_empty());
}

#[test]
fn the_fallback_policy_takes_memory_where_that_works() {
    let mut b = builder(
        PythonResourcesPolicy::PreferInMemoryFallbackFilesystemRelative("lib".to_string()),
        LibpythonLinkMode::Dynamic,
        true,
        true,
    );
    b.add_distribution_extension_module(&shared("_ssl")).unwrap();
    let s = summary(&b, "_ssl").unwrap();
    assert!(s.in_memory_extension_module);
    assert!(!s.relative_path_extension_module);
    assert_eq!(b.iter_resources().len(), 1);
}

#[test]
fn the_fallback_policy_takes_files_where_memory_fails() {
    let mut b = builder(
        PythonResourcesPolicy::PreferInMemoryFallbackFilesystemRelative("lib".to_string()),
        LibpythonLinkMode::Dynamic,
        false,
        true,
    );
    b.add_distribution_extension_module(&shared("_ssl")).unwrap();
    let s = summary(&b, "_ssl").unwrap();
    assert!(s.relative_path_extension_module);
    assert!(!s.in_memory_extension_module);
    assert_eq!(b.iter_resources().len(), 1);
    assert!(!is_builtin(&b, "_ssl"));
}

#[test]
fn the_fallback_policy_fails_where_both_places_fail() {
    let mut b = builder(
        PythonResourcesPolicy::PreferInMemoryFallbackFilesystemRelative("lib".to_string()),
        LibpythonLinkMode::Dynamic,
        true,
        true,
    );
    // The failure of the first attempt is the one that is reported.
    let e = b
        .add_distribution_extension_module(&module("_ssl"))
        .unwrap_err();
    assert_eq!(
        e,
        PackagingError::InMemoryWithoutSharedLibrary("_ssl".to_string())
    );
    assert_eq!(e.kind(), ErrorKind::Configuration);
    assert!(b.iter_resources().is_empty());

    let e = b
        .add_distribution_extension_module(&unreadable("_bz2"))
        .unwrap_err();
    assert!(matches!(e, PackagingError::Collector(_)));
    assert!(b.iter_resources().is_empty());

    let mut b = builder(
        PythonResourcesPolicy::PreferInMemoryFallbackFilesystemRelative("lib".to_string()),
        LibpythonLinkMode::Dynamic,
        false,
        false,
    );
    let e = b
        .add_distribution_extension_module(&shared("_ssl"))
        .unwrap_err();
    assert_eq!(e, PackagingError::InMemoryLoadingUnsupported);
    assert!(b.iter_resources().is_empty());
}

#[test]
fn a_dynamic_module_needs_a_shared_library() {
    for resources in policies() {
        let mut b = builder(resources, LibpythonLinkMode::Dynamic, true, true);
        let mut em = module("ext");
        em.object_file_data = vec![DataLocation::Memory(vec![1])];
        assert_eq!(
            b.add_dynamic_extension_module(&em).unwrap_err(),
            PackagingError::NoSharedLibrary
        );
        assert_eq!(
            b.add_relative_path_dynamic_extension_module("lib", &em)
                .unwrap_err(),
            PackagingError::NoSharedLibrary
        );
        assert!(b.iter_resources().is_empty());
        assert!(b.builtin_extension_module_names().is_empty());
    }
}

#[test]
fn a_dynamic_module_goes_where_the_policy_wants_it() {
    let mut b = builder(
        PythonResourcesPolicy::InMemoryOnly,
        LibpythonLinkMode::Dynamic,
        true,
        true,
    );
    b.add_dynamic_extension_module(&shared("ext")).unwrap();
    let s = summary(&b, "ext").unwrap();
    assert!(s.in_memory_extension_module && !s.relative_path_extension_module);

    let mut b = builder(
        PythonResourcesPolicy::FilesystemRelativeOnly("lib".to_string()),
        LibpythonLinkMode::Dynamic,
        true,
        true,
    );
    b.add_dynamic_extension_module(&shared("ext")).unwrap();
    let s = summary(&b, "ext").unwrap();
    assert!(!s.in_memory_extension_module && s.relative_path_extension_module);

    let prefer =
        PythonResourcesPolicy::PreferInMemoryFallbackFilesystemRelative("lib".to_string());
    let mut b = builder(prefer.clone(), LibpythonLinkMode::Dynamic, true, true);
    b.add_dynamic_extension_module(&shared("ext")).unwrap();
    let s = summary(&b, "ext").unwrap();
    assert!(s.in_memory_extension_module && !s.relative_path_extension_module);

    let mut b = builder(prefer, LibpythonLinkMode::Dynamic, false, true);
    b.add_dynamic_extension_module(&shared("ext")).unwrap();
    let s = summary(&b, "ext").unwrap();
    assert!(!s.in_memory_extension_module && s.relative_path_extension_module);
}

#[test]
fn a_dynamic_module_fails_where_the_policy_cannot_be_met() {
    let mut b = builder(
        PythonResourcesPolicy::InMemoryOnly,
        LibpythonLinkMode::Dynamic,
        false,
        true,
    );
    let e = b.add_dynamic_extension_module(&shared("ext")).unwrap_err();
    assert_eq!(e, PackagingError::InMemoryOnlyUnsupported("ext".to_string()));
    assert_eq!(e.kind(), ErrorKind::Configuration);
    assert!(b.iter_resources().is_empty());

    let mut b = builder(
        PythonResourcesPolicy::FilesystemRelativeOnly("lib".to_string()),
        LibpythonLinkMode::Dynamic,
        true,
        false,
    );
    assert_eq!(
        b.add_dynamic_extension_module(&shared("ext")).unwrap_err(),
        PackagingError::FilesystemOnlyUnsupported
    );

    let mut b = builder(
        PythonResourcesPolicy::PreferInMemoryFallbackFilesystemRelative("lib".to_string()),
        LibpythonLinkMode::Dynamic,
        false,
        false,
    );
    assert_eq!(
        b.add_dynamic_extension_module(&shared("ext")).unwrap_err(),
        PackagingError::NoLoadingMechanism
    );
    assert!(b.iter_resources().is_empty());

    let mut b = builder(
        PythonResourcesPolicy::InMemoryOnly,
        LibpythonLinkMode::Dynamic,
        true,
        true,
    );
    let e = b
        .add_dynamic_extension_module(&unreadable("ext"))
        .unwrap_err();
    assert!(matches!(e, PackagingError::Unresolved(_)));
    assert!(b.iter_resources().is_empty());
}

#[test]
fn an_in_memory_dynamic_module_is_loaded_or_linked_in() {
    let resources = PythonResourcesPolicy::InMemoryOnly;
    let mut b = builder(resources.clone(), LibpythonLinkMode::Dynamic, true, true);
    let mut em = shared("ext");
    em.object_file_data = vec![DataLocation::Memory(vec![1])];
    b.add_in_memory_dynamic_extension_module(&em).unwrap();
    assert!(summary(&b, "ext").unwrap().in_memory_extension_module);
    assert!(!is_builtin(&b, "ext"));

    // Without the capability, the object files are linked in.
    let mut b = builder(resources.clone(), LibpythonLinkMode::Dynamic, false, true);
    b.add_in_memory_dynamic_extension_module(&em).unwrap();
    assert!(is_builtin(&b, "ext"));
    assert!(summary(&b, "ext").is_none());

    let mut b = builder(resources.clone(), LibpythonLinkMode::Dynamic, false, true);
    assert_eq!(
        b.add_in_memory_dynamic_extension_module(&shared("ext"))
            .unwrap_err(),
        PackagingError::InMemoryLoadingUnsupported
    );
    let mut b = builder(resources, LibpythonLinkMode::Dynamic, true, true);
    assert_eq!(
        b.add_in_memory_dynamic_extension_module(&module("ext"))
            .unwrap_err(),
        PackagingError::NoObjectFiles
    );
    assert!(b.iter_resources().is_empty());
    assert!(b.builtin_extension_module_names().is_empty());
}

#[test]
fn a_relative_path_dynamic_module_needs_files_to_be_loadable() {
    let resources = PythonResourcesPolicy::FilesystemRelativeOnly("lib".to_string());
    let mut b = builder(resources.clone(), LibpythonLinkMode::Dynamic, true, true);
    b.add_relative_path_dynamic_extension_module("lib", &shared("ext"))
        .unwrap();
    assert!(summary(&b, "ext").unwrap().relative_path_extension_module);
    let mut b = builder(resources, LibpythonLinkMode::Dynamic, true, false);
    assert_eq!(
        b.add_relative_path_dynamic_extension_module("lib", &shared("ext"))
            .unwrap_err(),
        PackagingError::FileLoadingUnsupported
    );
}

#[test]
fn a_static_module_is_linked_in() {
    let mut b = builder(
        PythonResourcesPolicy::InMemoryOnly,
        LibpythonLinkMode::Dynamic,
        true,
        true,
    );
    let mut em = module("ext");
    em.object_file_data = vec![DataLocation::Memory(vec![1])];
    em.link_libraries = vec![LibraryDependency {
        name: "user".to_string(),
        static_library: None,
        static_filename: None,
        dynamic_library: None,
        dynamic_filename: None,
        framework: false,
        system: true,
    }];
    b.add_static_extension_module(&em).unwrap();
    assert!(is_builtin(&b, "ext"));
    assert!(summary(&b, "ext").is_none());
    let state = b.resources().extension_module_state("ext").unwrap();
    let mut external = StringSet::new();
    external.insert("user".to_string());
    assert_eq!(state.link_external_libraries, external);
    assert!(state.link_system_libraries.is_empty());
    assert_eq!(
        b.add_static_extension_module(&module("none")).unwrap_err(),
        PackagingError::BuiltinWithoutObjectFiles("none".to_string())
    );
}

#[test]
fn a_source_goes_where_the_policy_wants_it() {
    let foo = PythonModuleSource {
        name: "foo".to_string(),
        source: DataLocation::Memory(vec![]),
        is_package: false,
        cache_tag: "cpython-37".to_string(),
        is_stdlib: false,
        is_test: false,
    };
    let expected = [(true, false), (false, true), (true, false)];
    for (resources, (memory, disk)) in policies().into_iter().zip(expected) {
        let mut b = builder(resources, LibpythonLinkMode::Dynamic, true, true);
        b.add_module_source(&foo).unwrap();
        let s = summary(&b, "foo").unwrap();
        assert_eq!((s.in_memory_source, s.relative_path_source), (memory, disk));
    }
    let mut b = builder(
        PythonResourcesPolicy::InMemoryOnly,
        LibpythonLinkMode::Dynamic,
        true,
        true,
    );
    assert!(b.add_relative_path_module_source("lib", &foo).is_err());
    b.add_in_memory_module_source(&foo).unwrap();
}

#[test]
fn a_builder_tells_what_it_was_made_with() {
    let b = builder(
        PythonResourcesPolicy::InMemoryOnly,
        LibpythonLinkMode::Dynamic,
        true,
        true,
    );
    assert_eq!(b.name(), "testapp");
    assert_eq!(b.host_triple(), "x86_64-unknown-linux-gnu");
    assert_eq!(b.target_triple(), "x86_64-unknown-linux-gnu");
    assert_eq!(b.libpython_link_mode(), LibpythonLinkMode::Dynamic);
    assert_eq!(b.cache_tag(), "cpython-37");
    assert_eq!(b.python_exe_path(), "/d/python/install/bin/python3");
    assert_eq!(
        b.python_packaging_policy().get_resources_policy(),
        &PythonResourcesPolicy::InMemoryOnly
    );
    assert!(!b.requires_jemalloc());
    let jemalloc = StandalonePythonExecutableBuilder::new(
        "h",
        "t",
        "n",
        distribution("t", &[], None, vec![]),
        LibpythonLinkMode::Static,
        false,
        PythonPackagingPolicy::default(),
        EmbeddedPythonConfig {
            raw_allocator: RawAllocator::Jemalloc,
        },
    );
    assert!(jemalloc.requires_jemalloc());
}

#[test]
fn resources_are_filtered_by_name() {
    let mut b = builder(
        PythonResourcesPolicy::InMemoryOnly,
        LibpythonLinkMode::Dynamic,
        true,
        true,
    );
    b.add_distribution_extension_module(&shared("a")).unwrap();
    b.add_distribution_extension_module(&shared("b")).unwrap();
    let mut c = module("c");
    c.builtin_default = true;
    b.add_distribution_extension_module(&c).unwrap();
    let mut keep = StringSet::new();
    keep.insert("a".to_string());
    b.filter_resources_from_files(&keep).unwrap();
    assert_eq!(b.iter_resources().len(), 1);
    assert!(summary(&b, "a").is_some());
    assert!(b.builtin_extension_module_names().is_empty());
}

fn modules_of(d: &StandaloneDistribution) -> Vec<(String, bool, bool)> {
    d.extension_modules
        .items()
        .iter()
        .map(|(name, variants)| {
            (
                name.clone(),
                variants.iter().any(|e| e.builtin_default),
                variants.iter().any(|e| e.required),
            )
        })
        .collect()
}

fn some_modules() -> Vec<PythonExtensionModule> {
    let mut io = shared("_io");
    io.builtin_default = true;
    io.required = true;
    let mut codecs = shared("_codecs");
    codecs.builtin_default = true;
    vec![io, codecs, shared("_ssl"), shared("_bz2")]
}

#[test]
fn test_musl_all_extensions_builtin() {
    let d = distribution(
        "x86_64-unknown-linux-musl",
        &["builtin"],
        None,
        some_modules(),
    );
    let names = modules_of(&d);
    let mut policy = PythonPackagingPolicy::default();
    policy.set_extension_module_filter(ExtensionModuleFilter::All);
    let b = d
        .as_python_executable_builder(
            "x86_64-unknown-linux-gnu",
            "x86_64-unknown-linux-musl",
            "testapp",
            BinaryLibpythonLinkMode::Default,
            &policy,
            config(),
        )
        .unwrap();
    assert_eq!(b.libpython_link_mode(), LibpythonLinkMode::Static);

    // All extensions for musl Linux are built-in because dynamic linking
    // not possible.
    for (name, _, _) in &names {
        assert!(b.builtin_extension_module_names().iter().any(|e| name == e));
    }
}

#[test]
fn test_windows_dynamic_extensions_sanity() {
    let d = distribution(
        "x86_64-pc-windows-msvc",
        &["builtin", "shared-library"],
        Some("/d/python/install/python37.dll"),
        some_modules(),
    );
    let names = modules_of(&d);
    let mut policy = PythonPackagingPolicy::default();
    policy.set_extension_module_filter(ExtensionModuleFilter::All);
    let b = d
        .as_python_executable_builder(
            "x86_64-pc-windows-msvc",
            "x86_64-pc-windows-msvc",
            "testapp",
            BinaryLibpythonLinkMode::Default,
            &policy,
            config(),
        )
        .unwrap();
    assert_eq!(b.libpython_link_mode(), LibpythonLinkMode::Dynamic);

    let builtin_names = b.builtin_extension_module_names();

    // In-core extensions are compiled as built-ins.
    for (name, builtin_default, _) in &names {
        assert_eq!(builtin_names.contains(name), *builtin_default);
    }

    // Required extensions are compiled as built-in.
    for (name, _, required) in &names {
        if *required {
            assert!(builtin_names.contains(name));
        }
    }
    assert!(summary(&b, "_ssl").unwrap().in_memory_extension_module);
}

#[test]
fn test_windows_static_extensions_sanity() {
    let d = distribution(
        "x86_64-pc-windows-msvc",
        &["builtin"],
        None,
        some_modules(),
    );
    let names = modules_of(&d);
    let mut policy = PythonPackagingPolicy::default();
    policy.set_extension_module_filter(ExtensionModuleFilter::All);
    let b = d
        .as_python_executable_builder(
            "x86_64-pc-windows-msvc",
            "x86_64-pc-windows-msvc",
            "testapp",
            BinaryLibpythonLinkMode::Default,
            &policy,
            config(),
        )
        .unwrap();

    let builtin_names = b.builtin_extension_module_names();

    // All distribution extensions are built-ins in static Windows
    // distributions.
    for (name, _, _) in &names {
        assert!(builtin_names.contains(name));
    }
}

#[test]
fn test_minimal_extensions_present() {
    let d = distribution(
        "x86_64-unknown-linux-gnu",
        &["builtin", "shared-library"],
        None,
        some_modules(),
    );
    let expected: Vec<String> = d
        .extension_modules
        .items()
        .iter()
        .filter_map(|(_, extensions)| {
            let first = &extensions[0];
            if first.is_stdlib && (first.builtin_default || first.required) {
                Some(first.name.clone())
            } else {
                None
            }
        })
        .collect();
    let mut policy = d.create_packaging_policy().unwrap();
    policy.set_extension_module_filter(ExtensionModuleFilter::Minimal);
    policy.set_resources_policy(PythonResourcesPolicy::InMemoryOnly);
    let b = d
        .as_python_executable_builder(
            "x86_64-unknown-linux-gnu",
            "x86_64-unknown-linux-gnu",
            "testapp",
            BinaryLibpythonLinkMode::Default,
            &policy,
            config(),
        )
        .unwrap();

    // Sanity check.
    assert!(expected.contains(&"_io".to_string()));

    for name in &expected {
        // All extensions annotated as required in the distribution are marked
        // as built-ins.
        assert!(b.builtin_extension_module_names().iter().any(|x| x == name));

        // Built-in extension modules shouldn't be annotated as resources.
        assert!(!b.iter_resources().iter().any(|(x, _)| x == name));
    }
    assert_eq!(
        b.builtin_extension_module_names(),
        vec!["_codecs".to_string(), "_io".to_string()]
    );
}

#[test]
fn test_stdlib_annotations() {
    let distribution = distribution("x86_64-unknown-linux-gnu", &[], None, vec![]);

    let modules = distribution.source_modules().unwrap();
    assert_eq!(modules.len(), 2);
    for module in modules {
        assert!(module.is_stdlib);

        if module.name.starts_with("test") {
            assert!(module.is_test);
        } else {
            assert!(!module.is_test);
        }
        assert_eq!(module.is_package, module.name == "test.support");
    }

    let resources = distribution.resource_datas().unwrap();
    assert_eq!(resources.len(), 1);
    for resource in resources {
        assert!(resource.is_stdlib);
        if resource.leaf_package.starts_with("test") {
            assert!(resource.is_test);
        }
        assert_eq!(resource.leaf_package, "pkg");
        assert_eq!(resource.relative_name, "data.txt");
        assert_eq!(
            resource.data,
            DataLocation::Path("/d/python/lib/pkg/data.txt".to_string())
        );
    }
}

#[test]
fn the_distribution_offers_its_sources_and_their_bytecode() {
    let d = distribution("x86_64-unknown-linux-gnu", &[], None, vec![]);
    let mut policy = PythonPackagingPolicy::default();
    policy.set_resources_policy(PythonResourcesPolicy::FilesystemRelativeOnly(
        "lib".to_string(),
    ));
    let b = d
        .as_python_executable_builder(
            "x86_64-unknown-linux-gnu",
            "x86_64-unknown-linux-gnu",
            "testapp",
            BinaryLibpythonLinkMode::Default,
            &policy,
            config(),
        )
        .unwrap();
    // Tests and data files of the distribution are left out by default.
    let names: Vec<String> = b.iter_resources().into_iter().map(|(n, _)| n).collect();
    assert_eq!(names, vec!["os".to_string()]);
    let s = summary(&b, "os").unwrap();
    assert!(s.relative_path_source);
    assert!(!s.in_memory_source);
}

#[test]
fn a_builder_is_refused_where_the_link_mode_cannot_be_had() {
    let e = distribution("x86_64-pc-windows-msvc", &[], None, vec![])
        .as_python_executable_builder(
            "h",
            "x86_64-pc-windows-msvc",
            "testapp",
            BinaryLibpythonLinkMode::Dynamic,
            &PythonPackagingPolicy::default(),
            config(),
        )
        .unwrap_err();
    assert_eq!(e, PackagingError::DynamicLinkingUnsupported);
    let e = distribution("x86_64-pc-windows-msvc", &[], Some("/d/p.dll"), vec![])
        .as_python_executable_builder(
            "h",
            "x86_64-pc-windows-msvc",
            "testapp",
            BinaryLibpythonLinkMode::Static,
            &PythonPackagingPolicy::default(),
            config(),
        )
        .unwrap_err();
    assert_eq!(e, PackagingError::StaticLinkingUnsupported);
    let e = distribution("x86_64-unknown-linux-musl", &[], Some("/d/p.so"), vec![])
        .as_python_executable_builder(
            "h",
            "x86_64-unknown-linux-musl",
            "testapp",
            BinaryLibpythonLinkMode::Dynamic,
            &PythonPackagingPolicy::default(),
            config(),
        )
        .unwrap_err();
    assert_eq!(e, PackagingError::DynamicLinkingUnsupported);
}

#[test]
fn linking_info_follows_the_link_mode() {
    let d = distribution("x86_64-unknown-linux-gnu", &[], Some("/d/libpython.so"), vec![]);
    let b = StandalonePythonExecutableBuilder::new(
        "h",
        "t",
        "n",
        d,
        LibpythonLinkMode::Dynamic,
        false,
        PythonPackagingPolicy::default(),
        config(),
    );
    assert_eq!(
        b.resolve_python_linking_info(None).unwrap(),
        PythonLinkingInfo {
            libpythonxy_filename: "pythonXY.lib".to_string(),
            libpythonxy_data: vec![],
            libpython_filename: Some("/d/libpython.so".to_string()),
            libpyembeddedconfig_filename: None,
            libpyembeddedconfig_data: None,
            cargo_metadata: vec![],
        }
    );
    assert_eq!(
        b.libpython_install().unwrap(),
        Some(("/d/libpython.so".to_string(), "libpython.so".to_string()))
    );

    let b = builder(
        PythonResourcesPolicy::InMemoryOnly,
        LibpythonLinkMode::Static,
        false,
        false,
    );
    assert_eq!(
        b.resolve_python_linking_info(None).unwrap_err(),
        PackagingError::MissingLinkedLibrary
    );
    assert_eq!(b.libpython_install().unwrap(), None);
    let linked = LinkedLibpython {
        libpython_path: "/tmp/build/libpythonXY.a".to_string(),
        libpython_data: vec![1, 2],
        libpyembeddedconfig_path: "/tmp/build/libpyembeddedconfig.a".to_string(),
        libpyembeddedconfig_data: vec![3],
        cargo_metadata: vec!["cargo:rustc-link-lib=static=pythonXY".to_string()],
    };
    assert_eq!(
        b.resolve_python_linking_info(Some(linked)).unwrap(),
        PythonLinkingInfo {
            libpythonxy_filename: "libpythonXY.a".to_string(),
            libpythonxy_data: vec![1, 2],
            libpython_filename: None,
            libpyembeddedconfig_filename: Some("libpyembeddedconfig.a".to_string()),
            libpyembeddedconfig_data: Some(vec![3]),
            cargo_metadata: vec!["cargo:rustc-link-lib=static=pythonXY".to_string()],
        }
    );
}

#[test]
fn modules_are_added_up_to_the_first_failure() {
    let mut b = builder(
        PythonResourcesPolicy::InMemoryOnly,
        LibpythonLinkMode::Dynamic,
        true,
        true,
    );
    let mut io = module("_io");
    io.builtin_default = true;
    let modules = vec![shared("a"), io, module("broken"), shared("z")];
    let e = b.add_distribution_extension_modules(&modules).unwrap_err();
    assert_eq!(
        e,
        PackagingError::InMemoryWithoutSharedLibrary("broken".to_string())
    );
    let names: Vec<String> = b.iter_resources().into_iter().map(|(n, _)| n).collect();
    assert_eq!(names, vec!["a".to_string()]);
    assert_eq!(b.builtin_extension_module_names(), vec!["_io".to_string()]);

    b.add_distribution_extension_modules(&vec![shared("z")]).unwrap();
    b.add_distribution_extension_modules(&vec![]).unwrap();
    assert_eq!(b.iter_resources().len(), 2);
}

#[test]
fn sources_and_data_files_are_added_as_the_policy_wants() {
    let d = distribution("x86_64-unknown-linux-gnu", &[], None, vec![]);
    let sources = d.source_modules().unwrap();
    let datas = d.resource_datas().unwrap();
    let mut wanted = PythonPackagingPolicy::default();
    wanted.set_include_test(true);
    wanted.set_include_distribution_resources(true);
    let mut b = StandalonePythonExecutableBuilder::new(
        "h",
        "t",
        "n",
        d,
        LibpythonLinkMode::Static,
        false,
        wanted,
        config(),
    );
    b.add_distribution_sources(&sources).unwrap();
    let names: Vec<String> = b.iter_resources().into_iter().map(|(n, _)| n).collect();
    assert_eq!(names, vec!["os".to_string(), "test.support".to_string()]);
    assert!(summary(&b, "os").unwrap().in_memory_source);
    assert!(summary(&b, "test.support").unwrap().is_package);
    b.add_distribution_package_resources(&datas).unwrap();
    let names: Vec<String> = b.iter_resources().into_iter().map(|(n, _)| n).collect();
    assert_eq!(
        names,
        vec![
            "os".to_string(),
            "pkg".to_string(),
            "test.support".to_string()
        ]
    );
    assert!(summary(&b, "pkg").unwrap().is_package);

    // Nothing is wanted of a policy that wants no sources; the bytecode
    // is asked for all the same.
    let mut unwanted = PythonPackagingPolicy::default();
    unwanted.set_include_distribution_sources(false);
    let mut b = StandalonePythonExecutableBuilder::new(
        "h",
        "t",
        "n",
        distribution("t", &[], None, vec![]),
        LibpythonLinkMode::Static,
        false,
        unwanted,
        config(),
    );
    b.add_distribution_sources(&sources).unwrap();
    b.add_distribution_package_resources(&datas).unwrap();
    let names: Vec<String> = b.iter_resources().into_iter().map(|(n, _)| n).collect();
    assert_eq!(names, vec!["os".to_string()]);
    assert!(!summary(&b, "os").unwrap().in_memory_source);
}

#[test]
fn a_distribution_without_a_variant_of_a_module_is_refused() {
    let mut d = distribution("x86_64-unknown-linux-gnu", &[], None, some_modules());
    d.extension_modules.insert("_empty".to_string(), vec![]);
    let e = d
        .as_python_executable_builder(
            "h",
            "x86_64-unknown-linux-gnu",
            "testapp",
            BinaryLibpythonLinkMode::Default,
            &PythonPackagingPolicy::default(),
            config(),
        )
        .unwrap_err();
    assert_eq!(e, PackagingError::NoVariants("_empty".to_string()));
    assert_eq!(e.kind(), ErrorKind::Integrity);
}

#[test]
fn the_first_module_without_a_variant_is_named() {
    let mut d = distribution("x86_64-unknown-linux-gnu", &[], None, some_modules());
    d.extension_modules.insert("zz_empty".to_string(), vec![]);
    d.extension_modules.insert("_a_empty".to_string(), vec![]);
    let mut b = StandalonePythonExecutableBuilder::new(
        "h",
        "x86_64-unknown-linux-gnu",
        "testapp",
        d,
        LibpythonLinkMode::Static,
        false,
        PythonPackagingPolicy::default(),
        config(),
    );
    let e = b.add_distribution_resources().unwrap_err();
    assert_eq!(e, PackagingError::NoVariants("_a_empty".to_string()));
    assert!(b.iter_resources().is_empty());
    assert!(b.builtin_extension_module_names().is_empty());
}

#[test]
fn modules_that_do_not_link_are_left_out() {
    let d = distribution(
        "x86_64-unknown-linux-gnu",
        &[],
        None,
        vec![shared("_crypt"), shared("_ssl")],
    );
    let policy = d.create_packaging_policy().unwrap();
    let b = d
        .as_python_executable_builder(
            "h",
            "x86_64-unknown-linux-gnu",
            "testapp",
            BinaryLibpythonLinkMode::Default,
            &policy,
            config(),
        )
        .unwrap();
    assert_eq!(b.builtin_extension_module_names(), vec!["_ssl".to_string()]);
}

#[test]
fn the_extension_modules_of_a_distribution_are_listed() {
    let mut d = distribution("t", &[], None, some_modules());
    let mut other = shared("_ssl");
    other.variant = Some("libressl".to_string());
    let mut variants = d.extension_modules.remove("_ssl").unwrap();
    variants.push(other);
    d.extension_modules.insert("_ssl".to_string(), variants);
    let listed: Vec<(String, Option<String>)> = d
        .iter_extension_modules()
        .into_iter()
        .map(|m| (m.name.clone(), m.variant.clone()))
        .collect();
    let default = Some("default".to_string());
    assert_eq!(
        listed,
        vec![
            ("_bz2".to_string(), default.clone()),
            ("_codecs".to_string(), default.clone()),
            ("_io".to_string(), default.clone()),
            ("_ssl".to_string(), default),
            ("_ssl".to_string(), Some("libressl".to_string())),
        ]
    );
}
