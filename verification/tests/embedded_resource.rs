use pyoxidizer::build_state::ExtensionModuleBuildState;
use pyoxidizer::collector::ResourceSummary;
use pyoxidizer::embedded_resource::{
    dunder_file_warnings, EmbeddedPythonResources, FileContent, FileManifest,
    PrePackagedResources,
};
use pyoxidizer::error::{ErrorKind, PackagingError};
use pyoxidizer::resource::{
    BytecodeOptimizationLevel, ConcreteResourceLocation, DataLocation, LibraryDependency,
    PythonExtensionModule, PythonModuleBytecodeFromSource, PythonModuleSource,
    PythonPackageDistributionResource, PythonPackageDistributionResourceFlavor,
    PythonPackageResource, PythonResourcesPolicy,
};
use pyoxidizer::string_set::StringSet;
use python_packaging::resource_collection::CompiledResourcesCollection;

const DEFAULT_CACHE_TAG: &str = "cpython-37";

fn set_of(names: &[&str]) -> StringSet {
    let mut set = StringSet::new();
    for name in names {
        set.insert(name.to_string());
    }
    set
}

fn module(name: &str) -> PythonExtensionModule {
    PythonExtensionModule {
        name: name.to_string(),
        init_fn: None,
        extension_file_suffix: ".so".to_string(),
        shared_library: None,
        object_file_data: vec![],
        is_package: false,
        link_libraries: vec![],
        is_stdlib: true,
        builtin_default: false,
        required: false,
        variant: None,
        licenses: None,
        license_public_domain: None,
    }
}

fn library(name: &str) -> LibraryDependency {
    LibraryDependency {
        name: name.to_string(),
        static_library: None,
        static_filename: None,
        dynamic_library: None,
        dynamic_filename: None,
        framework: false,
        system: false,
    }
}

fn source(name: &str) -> PythonModuleSource {
    PythonModuleSource {
        name: name.to_string(),
        source: DataLocation::Memory(b"import os\n".to_vec()),
        is_package: false,
        cache_tag: DEFAULT_CACHE_TAG.to_string(),
        is_stdlib: false,
        is_test: false,
    }
}

fn summary(r: &PrePackagedResources, name: &str) -> Option<ResourceSummary> {
    r.iter_resources()
        .into_iter()
        .find(|(n, _)| n == name)
        .map(|(_, s)| s)
}

fn names(r: &PrePackagedResources) -> Vec<String> {
    r.iter_resources().into_iter().map(|(n, _)| n).collect()
}

fn in_memory() -> PrePackagedResources {
    PrePackagedResources::new(&PythonResourcesPolicy::InMemoryOnly, DEFAULT_CACHE_TAG)
}

fn on_disk() -> PrePackagedResources {
    PrePackagedResources::new(
        &PythonResourcesPolicy::FilesystemRelativeOnly("lib".to_string()),
        DEFAULT_CACHE_TAG,
    )
}

fn either() -> PrePackagedResources {
    PrePackagedResources::new(
        &PythonResourcesPolicy::PreferInMemoryFallbackFilesystemRelative("lib".to_string()),
        DEFAULT_CACHE_TAG,
    )
}

#[test]
fn test_add_distribution_extension_module() -> Result<(), PackagingError> {
    let mut r = PrePackagedResources::new(&PythonResourcesPolicy::InMemoryOnly, DEFAULT_CACHE_TAG);
    let em = PythonExtensionModule {
        name: "foo.bar".to_string(),
        init_fn: None,
        extension_file_suffix: "".to_string(),
        builtin_default: false,
        object_file_data: vec![],
        shared_library: None,
        link_libraries: vec![],
        required: false,
        is_package: false,
        is_stdlib: false,
        variant: None,
        licenses: None,
        license_public_domain: None,
    };

    r.add_builtin_distribution_extension_module(&em)?;
    assert_eq!(r.extension_module_count(), 1);
    assert_eq!(
        r.extension_module_state("foo.bar"),
        Some(&ExtensionModuleBuildState {
            init_fn: None,
            link_object_files: vec![],
            link_frameworks: StringSet::new(),
            link_system_libraries: StringSet::new(),
            link_static_libraries: StringSet::new(),
            link_dynamic_libraries: StringSet::new(),
            link_external_libraries: StringSet::new(),
        })
    );

    Ok(())
}

#[test]
fn test_add_extension_module_data() -> Result<(), PackagingError> {
    let mut r = PrePackagedResources::new(&PythonResourcesPolicy::InMemoryOnly, DEFAULT_CACHE_TAG);
    let em = PythonExtensionModule {
        name: "foo.bar".to_string(),
        init_fn: Some("".to_string()),
        extension_file_suffix: "".to_string(),
        shared_library: None,
        object_file_data: vec![DataLocation::Memory(vec![42])],
        is_package: false,
        link_libraries: vec![],
        is_stdlib: true,
        builtin_default: true,
        required: false,
        variant: None,
        licenses: None,
        license_public_domain: None,
    };

    r.add_builtin_extension_module(&em)?;
    assert_eq!(r.extension_module_count(), 1);
    assert_eq!(
        r.extension_module_state("foo.bar"),
        Some(&ExtensionModuleBuildState {
            init_fn: Some("".to_string()),
            link_object_files: vec![DataLocation::Memory(vec![42])],
            link_frameworks: StringSet::new(),
            link_system_libraries: StringSet::new(),
            link_static_libraries: StringSet::new(),
            link_dynamic_libraries: StringSet::new(),
            link_external_libraries: StringSet::new(),
        })
    );

    Ok(())
}

#[test]
fn a_new_collection_holds_nothing() {
    let r = in_memory();
    assert!(r.iter_resources().is_empty());
    assert!(r.builtin_extension_module_names().is_empty());
    assert_eq!(r.extension_module_count(), 0);
    assert_eq!(r.extension_module_state("foo"), None);
}

#[test]
fn a_distribution_module_is_linked_with_each_library_in_one_way() {
    let mut r = in_memory();
    let mut em = module("_ssl");
    em.init_fn = Some("PyInit__ssl".to_string());
    em.object_file_data = vec![DataLocation::Path("/d/ssl.o".to_string())];
    let mut framework = library("CoreFoundation");
    framework.framework = true;
    let mut both_marks = library("Security");
    both_marks.framework = true;
    both_marks.system = true;
    let mut system = library("dl");
    system.system = true;
    let mut statics = library("ssl");
    statics.static_library = Some(DataLocation::Path("/d/libssl.a".to_string()));
    let mut both_forms = library("crypto");
    both_forms.static_library = Some(DataLocation::Path("/d/libcrypto.a".to_string()));
    both_forms.dynamic_library = Some(DataLocation::Path("/d/libcrypto.so".to_string()));
    let mut dynamics = library("z");
    dynamics.dynamic_library = Some(DataLocation::Path("/d/libz.so".to_string()));
    let no_form = library("m");
    em.link_libraries = vec![
        framework, both_marks, system, statics, both_forms, dynamics, no_form,
    ];

    r.add_builtin_distribution_extension_module(&em).unwrap();
    assert_eq!(
        r.extension_module_state("_ssl"),
        Some(&ExtensionModuleBuildState {
            init_fn: Some("PyInit__ssl".to_string()),
            link_object_files: vec![DataLocation::Path("/d/ssl.o".to_string())],
            link_frameworks: set_of(&["CoreFoundation", "Security"]),
            link_system_libraries: set_of(&["dl"]),
            link_static_libraries: set_of(&["ssl", "crypto"]),
            link_dynamic_libraries: set_of(&["z"]),
            link_external_libraries: StringSet::new(),
        })
    );
    // The records of the resources are left alone.
    assert!(r.iter_resources().is_empty());
    assert_eq!(r.builtin_extension_module_names(), vec!["_ssl".to_string()]);
}

#[test]
fn a_module_that_is_built_in_already_brings_no_object_files() {
    let mut r = in_memory();
    let mut em = module("_io");
    em.builtin_default = true;
    em.object_file_data = vec![DataLocation::Memory(vec![1, 2, 3])];
    r.add_builtin_distribution_extension_module(&em).unwrap();
    assert_eq!(
        r.extension_module_state("_io").unwrap().link_object_files,
        vec![]
    );
}

#[test]
fn a_build_state_is_replaced_by_a_later_one() {
    let mut r = in_memory();
    let mut em = module("_io");
    em.init_fn = Some("first".to_string());
    r.add_builtin_distribution_extension_module(&em).unwrap();
    em.init_fn = Some("second".to_string());
    r.add_builtin_distribution_extension_module(&em).unwrap();
    assert_eq!(r.extension_module_count(), 1);
    assert_eq!(
        r.extension_module_state("_io").unwrap().init_fn,
        Some("second".to_string())
    );
}

#[test]
fn an_in_memory_module_without_shared_library_fails_and_changes_nothing() {
    let mut r = in_memory();
    r.add_python_module_source(&source("foo"), &ConcreteResourceLocation::InMemory)
        .unwrap();
    let before = r.iter_resources();
    let em = module("ext");
    let e = r
        .add_in_memory_distribution_extension_module(&em)
        .unwrap_err();
    assert_eq!(
        e,
        PackagingError::InMemoryWithoutSharedLibrary("ext".to_string())
    );
    assert_eq!(e.kind(), ErrorKind::Configuration);
    assert_eq!(r.iter_resources(), before);
    assert_eq!(r.extension_module_count(), 0);
}

#[test]
fn an_in_memory_module_is_placed_in_memory() {
    let mut r = in_memory();
    let mut em = module("pkg.ext");
    em.shared_library = Some(DataLocation::Memory(vec![1, 2, 3]));
    let mut z = library("z");
    z.dynamic_library = Some(DataLocation::Memory(vec![9]));
    z.dynamic_filename = Some("libz.so".to_string());
    em.link_libraries = vec![z, library("m")];
    r.add_in_memory_distribution_extension_module(&em).unwrap();

    assert_eq!(names(&r), vec!["pkg.ext".to_string(), "z".to_string()]);
    let s = summary(&r, "pkg.ext").unwrap();
    assert!(s.is_extension_module);
    assert!(s.in_memory_extension_module);
    assert!(!s.relative_path_extension_module);
    assert!(!s.is_builtin_extension_module);
    assert!(!s.is_package);
    let z = summary(&r, "z").unwrap();
    assert!(z.is_shared_library);
    assert!(z.in_memory_shared_library);
    assert!(!z.relative_path_shared_library);
    assert_eq!(r.extension_module_count(), 0);
}

#[test]
fn an_in_memory_module_is_refused_where_memory_is_not_admitted() {
    let mut r = on_disk();
    let mut em = module("ext");
    em.shared_library = Some(DataLocation::Memory(vec![1]));
    let e = r
        .add_in_memory_distribution_extension_module(&em)
        .unwrap_err();
    assert!(matches!(e, PackagingError::Collector(_)));
    assert!(r.iter_resources().is_empty());
}

#[test]
fn a_relative_path_module_is_placed_on_disk() {
    let mut r = on_disk();
    let mut em = module("pkg.ext");
    em.shared_library = Some(DataLocation::Memory(vec![1, 2, 3]));
    let mut z = library("z");
    z.dynamic_library = Some(DataLocation::Memory(vec![9]));
    z.dynamic_filename = Some("libz.so".to_string());
    em.link_libraries = vec![z];
    r.add_relative_path_distribution_extension_module("lib", &em)
        .unwrap();

    let s = summary(&r, "pkg.ext").unwrap();
    assert!(s.is_extension_module);
    assert!(s.relative_path_extension_module);
    assert!(!s.in_memory_extension_module);
    let z = summary(&r, "z").unwrap();
    assert!(z.is_shared_library);
    assert!(z.relative_path_shared_library);
    assert!(!z.in_memory_shared_library);
}

#[test]
fn a_relative_path_module_without_shared_library_fails_and_changes_nothing() {
    let mut r = on_disk();
    let e = r
        .add_relative_path_distribution_extension_module("lib", &module("ext"))
        .unwrap_err();
    assert_eq!(
        e,
        PackagingError::RelativePathWithoutSharedLibrary("ext".to_string())
    );
    assert_eq!(e.kind(), ErrorKind::Configuration);
    assert!(r.iter_resources().is_empty());

    let e = r
        .add_relative_path_extension_module(&module("ext"), "lib")
        .unwrap_err();
    assert!(matches!(e, PackagingError::Collector(_)));
    assert!(r.iter_resources().is_empty());
}

#[test]
fn a_builtin_module_without_object_files_fails_and_changes_nothing() {
    let mut r = in_memory();
    let e = r.add_builtin_extension_module(&module("ext")).unwrap_err();
    assert_eq!(
        e,
        PackagingError::BuiltinWithoutObjectFiles("ext".to_string())
    );
    assert_eq!(e.kind(), ErrorKind::Configuration);
    assert!(r.iter_resources().is_empty());
    assert_eq!(r.extension_module_count(), 0);
}

#[test]
fn a_builtin_module_leaves_its_libraries_to_the_host() {
    let mut r = in_memory();
    let mut em = module("ext");
    em.is_package = true;
    em.object_file_data = vec![DataLocation::Memory(vec![7])];
    let mut framework = library("Cocoa");
    framework.framework = true;
    em.link_libraries = vec![framework, library("m")];
    r.add_builtin_extension_module(&em).unwrap();
    assert_eq!(
        r.extension_module_state("ext"),
        Some(&ExtensionModuleBuildState {
            init_fn: None,
            link_object_files: vec![DataLocation::Memory(vec![7])],
            link_frameworks: StringSet::new(),
            link_system_libraries: StringSet::new(),
            link_static_libraries: StringSet::new(),
            link_dynamic_libraries: StringSet::new(),
            link_external_libraries: set_of(&["Cocoa", "m"]),
        })
    );
    // The module is linked into the interpreter: it has no record among
    // the resources.
    assert!(summary(&r, "ext").is_none());
    assert_eq!(r.iter_resources().len(), 0);
}

#[test]
fn a_shared_library_is_loaded_from_memory() {
    let mut r = in_memory();
    r.add_in_memory_extension_module_shared_library("ext", true, &[1, 2])
        .unwrap();
    let s = summary(&r, "ext").unwrap();
    assert!(s.is_extension_module);
    assert!(s.is_package);
    assert!(s.in_memory_extension_module);
    assert!(!s.relative_path_extension_module);

    let mut r = on_disk();
    let e = r
        .add_in_memory_extension_module_shared_library("ext", false, &[1, 2])
        .unwrap_err();
    assert!(matches!(e, PackagingError::Collector(_)));
    assert!(r.iter_resources().is_empty());
}

#[test]
fn a_source_is_placed_where_it_is_admitted() {
    let mut r = in_memory();
    r.add_python_module_source(&source("foo"), &ConcreteResourceLocation::InMemory)
        .unwrap();
    let s = summary(&r, "foo").unwrap();
    assert!(s.is_module);
    assert!(s.in_memory_source);
    assert!(!s.relative_path_source);

    let e = r
        .add_python_module_source(
            &source("bar"),
            &ConcreteResourceLocation::RelativePath("lib".to_string()),
        )
        .unwrap_err();
    assert!(matches!(e, PackagingError::Collector(_)));
    assert_eq!(e.kind(), ErrorKind::Configuration);
    assert_eq!(names(&r), vec!["foo".to_string()]);

    let mut r = on_disk();
    assert!(r
        .add_python_module_source(&source("foo"), &ConcreteResourceLocation::InMemory)
        .is_err());
    r.add_python_module_source(
        &source("foo"),
        &ConcreteResourceLocation::RelativePath("lib".to_string()),
    )
    .unwrap();
    let s = summary(&r, "foo").unwrap();
    assert!(s.relative_path_source);
    assert!(!s.in_memory_source);

    let mut r = either();
    r.add_python_module_source(&source("foo"), &ConcreteResourceLocation::InMemory)
        .unwrap();
    r.add_python_module_source(
        &source("foo"),
        &ConcreteResourceLocation::RelativePath("lib".to_string()),
    )
    .unwrap();
    let s = summary(&r, "foo").unwrap();
    assert!(s.relative_path_source);
    assert!(s.in_memory_source);
}

#[test]
fn a_name_has_one_record() {
    let mut r = in_memory();
    let location = ConcreteResourceLocation::InMemory;
    let mut foo = source("foo");
    r.add_python_module_source(&foo, &location).unwrap();
    foo.is_package = true;
    r.add_python_module_source(&foo, &location).unwrap();
    r.add_python_module_bytecode_from_source(
        &foo.as_bytecode_module(BytecodeOptimizationLevel::Zero),
        &location,
    )
    .unwrap();
    assert_eq!(names(&r), vec!["foo".to_string()]);
    assert!(summary(&r, "foo").unwrap().is_package);
}

#[test]
fn a_request_for_bytecode_is_made_of_a_source() {
    let foo = source("foo");
    assert_eq!(
        foo.as_bytecode_module(BytecodeOptimizationLevel::Two),
        PythonModuleBytecodeFromSource {
            name: "foo".to_string(),
            source: DataLocation::Memory(b"import os\n".to_vec()),
            optimize_level: BytecodeOptimizationLevel::Two,
            is_package: false,
            cache_tag: DEFAULT_CACHE_TAG.to_string(),
            is_stdlib: false,
            is_test: false,
        }
    );
}

#[test]
fn data_files_make_their_package_a_package() {
    let mut r = in_memory();
    let location = ConcreteResourceLocation::InMemory;
    r.add_python_package_resource(
        &PythonPackageResource {
            leaf_package: "pkg".to_string(),
            relative_name: "data.txt".to_string(),
            data: DataLocation::Memory(vec![1]),
            is_stdlib: false,
            is_test: false,
        },
        &location,
    )
    .unwrap();
    r.add_python_package_distribution_resource(
        &PythonPackageDistributionResource {
            location: PythonPackageDistributionResourceFlavor::DistInfo,
            package: "other".to_string(),
            version: "1.0".to_string(),
            name: "METADATA".to_string(),
            data: DataLocation::Memory(vec![2]),
        },
        &location,
    )
    .unwrap();
    assert_eq!(names(&r), vec!["other".to_string(), "pkg".to_string()]);
    for name in ["other", "pkg"] {
        let s = summary(&r, name).unwrap();
        assert!(s.is_module);
        assert!(s.is_package);
    }
    let disk = ConcreteResourceLocation::RelativePath("lib".to_string());
    assert!(r
        .add_python_package_resource(
            &PythonPackageResource {
                leaf_package: "pkg".to_string(),
                relative_name: "more.txt".to_string(),
                data: DataLocation::Memory(vec![1]),
                is_stdlib: false,
                is_test: false,
            },
            &disk,
        )
        .is_err());
}

#[test]
fn filtering_keeps_the_names_of_the_set_and_does_nothing_twice() {
    let mut r = in_memory();
    let location = ConcreteResourceLocation::InMemory;
    for name in ["a", "b", "c"] {
        r.add_python_module_source(&source(name), &location).unwrap();
    }
    for name in ["a", "d"] {
        r.add_builtin_distribution_extension_module(&module(name))
            .unwrap();
    }
    let keep = set_of(&["a", "b"]);
    r.filter_from_files(&keep).unwrap();
    assert_eq!(names(&r), vec!["a".to_string(), "b".to_string()]);
    assert_eq!(r.builtin_extension_module_names(), vec!["a".to_string()]);
    let once = (r.iter_resources(), r.builtin_extension_module_names());
    r.filter_from_files(&keep).unwrap();
    assert_eq!(
        (r.iter_resources(), r.builtin_extension_module_names()),
        once
    );
    r.filter_from_files(&StringSet::new()).unwrap();
    assert!(r.iter_resources().is_empty());
    assert_eq!(r.extension_module_count(), 0);
}

#[test]
fn a_copy_of_a_collection_holds_the_same() {
    let mut r = in_memory();
    r.add_python_module_source(&source("a"), &ConcreteResourceLocation::InMemory)
        .unwrap();
    r.add_builtin_distribution_extension_module(&module("b"))
        .unwrap();
    let copy = r.clone();
    assert_eq!(copy.iter_resources(), r.iter_resources());
    assert_eq!(
        copy.builtin_extension_module_names(),
        r.builtin_extension_module_names()
    );
    assert_eq!(
        copy.extension_module_state("b"),
        r.extension_module_state("b")
    );
}

fn packaged(r: &PrePackagedResources) -> EmbeddedPythonResources<'static> {
    r.package(CompiledResourcesCollection::default())
}

#[test]
fn linking_info_is_the_union_of_what_the_modules_need() {
    let mut r = in_memory();
    let mut first = module("first");
    first.object_file_data = vec![
        DataLocation::Memory(vec![1]),
        DataLocation::Memory(vec![2]),
    ];
    let mut ssl = library("ssl");
    ssl.static_library = Some(DataLocation::Memory(vec![]));
    let mut z = library("z");
    z.dynamic_library = Some(DataLocation::Memory(vec![]));
    first.link_libraries = vec![ssl, z];
    let mut second = module("second");
    second.object_file_data = vec![DataLocation::Memory(vec![3])];
    let mut bz2 = library("bz2");
    bz2.static_library = Some(DataLocation::Memory(vec![]));
    let mut dl = library("dl");
    dl.system = true;
    let mut cocoa = library("Cocoa");
    cocoa.framework = true;
    second.link_libraries = vec![bz2, dl, cocoa];
    // Added out of order: they come out in the order of their names.
    r.add_builtin_distribution_extension_module(&second).unwrap();
    r.add_builtin_distribution_extension_module(&first).unwrap();
    let mut third = module("third");
    third.object_file_data = vec![DataLocation::Memory(vec![4])];
    third.link_libraries = vec![library("user")];
    r.add_builtin_extension_module(&third).unwrap();

    let info = packaged(&r).resolve_libpython_linking_info().unwrap();
    assert_eq!(
        info.object_files,
        vec![
            DataLocation::Memory(vec![1]),
            DataLocation::Memory(vec![2]),
            DataLocation::Memory(vec![3]),
            DataLocation::Memory(vec![4]),
        ]
    );
    assert_eq!(info.link_libraries, set_of(&["bz2", "ssl", "z"]));
    assert_eq!(info.link_libraries.len(), 3);
    assert_eq!(info.link_frameworks, set_of(&["Cocoa"]));
    assert_eq!(info.link_system_libraries, set_of(&["dl"]));
    assert_eq!(info.link_libraries_external, set_of(&["user"]));
}

#[test]
fn linking_info_of_nothing_is_empty() {
    let info = packaged(&in_memory())
        .resolve_libpython_linking_info()
        .unwrap();
    assert!(info.object_files.is_empty());
    assert!(info.link_libraries.is_empty());
    assert!(info.link_frameworks.is_empty());
    assert!(info.link_system_libraries.is_empty());
    assert!(info.link_libraries_external.is_empty());
}

#[test]
fn a_library_that_two_modules_need_is_linked_once() {
    let mut r = in_memory();
    for name in ["a", "b"] {
        let mut em = module(name);
        let mut z = library("z");
        z.dynamic_library = Some(DataLocation::Memory(vec![]));
        em.link_libraries = vec![z];
        r.add_builtin_distribution_extension_module(&em).unwrap();
    }
    let info = packaged(&r).resolve_libpython_linking_info().unwrap();
    assert_eq!(info.link_libraries.names(), &vec!["z".to_string()]);
}

#[test]
fn builtin_extensions_are_those_with_an_initialisation_function() {
    let mut r = in_memory();
    let mut b = module("b");
    b.init_fn = Some("PyInit_b".to_string());
    let mut a = module("a");
    a.init_fn = Some("PyInit_a".to_string());
    r.add_builtin_distribution_extension_module(&b).unwrap();
    r.add_builtin_distribution_extension_module(&module("none"))
        .unwrap();
    r.add_builtin_distribution_extension_module(&a).unwrap();
    assert_eq!(
        packaged(&r).builtin_extensions(),
        vec![
            ("a".to_string(), "PyInit_a".to_string()),
            ("b".to_string(), "PyInit_b".to_string()),
        ]
    );
}

struct EchoCompiler {}

impl python_packaging::bytecode::PythonBytecodeCompiler for EchoCompiler {
    fn get_magic_number(&self) -> u32 {
        42
    }

    fn compile(
        &mut self,
        source: &[u8],
        _filename: &str,
        _optimize: python_packaging::resource::BytecodeOptimizationLevel,
        _output_mode: python_packaging::bytecode::CompileMode,
    ) -> anyhow::Result<Vec<u8>> {
        Ok(source.to_vec())
    }
}

#[test]
fn blobs_hold_the_names_and_the_packed_resources() {
    let mut r = either();
    r.add_python_module_source(&source("b.c"), &ConcreteResourceLocation::InMemory)
        .unwrap();
    r.add_python_module_source(&source("a"), &ConcreteResourceLocation::InMemory)
        .unwrap();
    let mut compiler = EchoCompiler {};
    let compiled = r.collector().compile_resources(&mut compiler).unwrap();
    let embedded = r.package(compiled);
    let mut module_names = b"# names\n".to_vec();
    let mut resources = Vec::new();
    embedded
        .write_blobs(&mut module_names, &mut resources)
        .unwrap();
    // The parent package `b` is added by the compilation.
    assert_eq!(module_names, b"# names\na\nb\nb.c\n".to_vec());
    assert!(resources.starts_with(b"pyembed"));

    let mut again = Vec::new();
    let mut module_names = Vec::new();
    embedded.write_blobs(&mut module_names, &mut again).unwrap();
    assert_eq!(again, resources);
    assert_eq!(module_names, b"a\nb\nb.c\n".to_vec());
}

#[test]
fn blobs_of_nothing_hold_no_names() {
    let embedded = packaged(&in_memory());
    let mut module_names = Vec::new();
    let mut resources = vec![1u8, 2];
    embedded
        .write_blobs(&mut module_names, &mut resources)
        .unwrap();
    assert!(module_names.is_empty());
    assert!(resources.len() > 2);
    assert_eq!(&resources[..2], &[1, 2]);
}

#[test]
fn extra_files_are_those_placed_on_disk() {
    let mut r = on_disk();
    r.add_python_module_source(
        &source("foo"),
        &ConcreteResourceLocation::RelativePath("lib".to_string()),
    )
    .unwrap();
    let mut compiler = EchoCompiler {};
    let compiled = r.collector().compile_resources(&mut compiler).unwrap();
    let manifest = r.package(compiled).extra_install_files().unwrap();
    assert_eq!(manifest.len(), 1);
    assert_eq!(
        manifest.get("lib/foo.py"),
        Some(&FileContent {
            data: b"import os\n".to_vec(),
            executable: false,
        })
    );
    assert_eq!(manifest.get("lib/bar.py"), None);
}

#[test]
fn extra_files_fail_where_a_file_cannot_be_read() {
    let compiled = CompiledResourcesCollection {
        resources: Default::default(),
        extra_files: vec![
            (
                "lib/a".into(),
                python_packaging::resource::DataLocation::Memory(vec![1]),
                true,
            ),
            (
                "lib/b".into(),
                python_packaging::resource::DataLocation::Path(
                    "/nonexistent/pyoxidizer-test/b".into(),
                ),
                false,
            ),
        ],
    };
    let e = in_memory()
        .package(compiled)
        .extra_install_files()
        .unwrap_err();
    assert!(matches!(e, PackagingError::Unresolved(_)));
    assert_eq!(e.kind(), ErrorKind::External);
}

#[test]
fn a_later_extra_file_takes_the_place_of_an_earlier_one() {
    let compiled = CompiledResourcesCollection {
        resources: Default::default(),
        extra_files: vec![
            (
                "lib/a".into(),
                python_packaging::resource::DataLocation::Memory(vec![1]),
                true,
            ),
            (
                "lib/a".into(),
                python_packaging::resource::DataLocation::Memory(vec![2]),
                false,
            ),
        ],
    };
    let manifest = in_memory()
        .package(compiled)
        .extra_install_files()
        .unwrap();
    assert_eq!(manifest.len(), 1);
    assert_eq!(
        manifest.get("lib/a"),
        Some(&FileContent {
            data: vec![2],
            executable: false,
        })
    );
}

#[test]
fn a_manifest_holds_one_content_for_a_path() {
    let mut manifest = FileManifest::new();
    assert_eq!(manifest.len(), 0);
    manifest.add_file(
        "b",
        FileContent {
            data: vec![1],
            executable: false,
        },
    );
    manifest.add_file(
        "a",
        FileContent {
            data: vec![2],
            executable: true,
        },
    );
    manifest.add_file(
        "b",
        FileContent {
            data: vec![3],
            executable: true,
        },
    );
    let paths: Vec<&str> = manifest.entries().iter().map(|e| e.0.as_str()).collect();
    assert_eq!(paths, vec!["a", "b"]);
    assert_eq!(manifest.get("b").unwrap().data, vec![3]);
}

#[test]
fn modules_that_read_dunder_file_are_warned_of() {
    assert_eq!(dunder_file_warnings(&vec![]), Vec::<String>::new());
    assert_eq!(
        dunder_file_warnings(&vec!["foo".to_string(), "bar.baz".to_string()]),
        vec![
            "warning: foo contains __file__".to_string(),
            "warning: bar.baz contains __file__".to_string(),
            "__file__ was encountered in some embedded modules".to_string(),
            "PyOxidizer does not set __file__ and this may create problems at run-time"
                .to_string(),
            "See https://github.com/indygreg/PyOxidizer/issues/69 for more".to_string(),
        ]
    );
}

#[test]
fn a_library_without_file_name_cannot_be_placed_on_disk() {
    let mut r = on_disk();
    let mut em = module("pkg.ext");
    em.shared_library = Some(DataLocation::Memory(vec![1, 2, 3]));
    let mut z = library("z");
    z.dynamic_library = Some(DataLocation::Memory(vec![9]));
    em.link_libraries = vec![z];
    let e = r
        .add_relative_path_distribution_extension_module("lib", &em)
        .unwrap_err();
    assert!(matches!(e, PackagingError::Collector(_)));
    // Nothing is placed for the module itself.
    assert!(summary(&r, "pkg.ext").is_none());

    // In memory no file name is needed.
    let mut r = in_memory();
    r.add_in_memory_distribution_extension_module(&em).unwrap();
    assert!(summary(&r, "z").unwrap().in_memory_shared_library);
}

#[test]
fn packaged_resources_hold_nothing_by_default() {
    let embedded = EmbeddedPythonResources::default();
    let mut module_names = Vec::new();
    let mut resources = Vec::new();
    embedded
        .write_blobs(&mut module_names, &mut resources)
        .unwrap();
    assert!(module_names.is_empty());
    assert!(resources.starts_with(b"pyembed"));
    assert!(embedded.builtin_extensions().is_empty());
    assert_eq!(embedded.extra_install_files().unwrap().len(), 0);
}
