use pyoxidizer::error::{ErrorKind, PackagingError};
use pyoxidizer::name_map::NameMap;
use pyoxidizer::policy::{ExtensionModuleFilter, PythonPackagingPolicy};
use pyoxidizer::python_json::{
    check_version, parse_python_json, parse_python_json_from_distribution, LinkEntry,
    PythonBuildCoreInfo, PythonBuildExtensionInfo, PythonBuildInfo, PythonJsonMain, VersionField,
};
use pyoxidizer::resource::{
    DataLocation, LibpythonLinkMode, LibraryDependency, LicenseInfo, PythonExtensionModule,
    PythonModuleSource, PythonPackageResource, PythonResource, PythonResourcesPolicy,
};
use pyoxidizer::standalone_distribution::{
    broken_extensions_linux, broken_extensions_macos, check_python_entries, check_root_entries,
    ensure_pip, invoke_python, is_in_packages, is_package_from_path, license_paths, link_support,
    linux_target_triples, macos_target_triples, pip_exe_name, prepare_venv, python_exe_name,
    python_exe_path, python_major_minor_version, read_package_root, resolve_distutils,
    resolve_libpython, resolve_link_mode, resolve_module_suffixes, resolve_python_paths,
    windows_target_triples, BinaryLibpythonLinkMode, DistributionFiles, LinkSupport,
    PythonInvocation, PythonModuleSuffixes, PythonPathProbe, PythonPaths, ScannedResource,
    StandaloneDistribution, StandaloneDistributionLinkMode,
};

fn strings(items: &[&str]) -> Vec<String> {
    items.iter().map(|s| s.to_string()).collect()
}

fn entries(items: &[&str]) -> Vec<Option<String>> {
    items.iter().map(|s| Some(s.to_string())).collect()
}

fn link(name: &str) -> LinkEntry {
    LinkEntry {
        name: name.to_string(),
        path_static: None,
        path_dynamic: None,
        framework: None,
        system: None,
    }
}

fn extension(variant: &str) -> PythonBuildExtensionInfo {
    PythonBuildExtensionInfo {
        in_core: false,
        init_fn: "PyInit__ssl".to_string(),
        licenses: None,
        license_paths: None,
        license_public_domain: None,
        links: vec![],
        objs: vec![],
        required: false,
        static_lib: None,
        shared_lib: None,
        variant: variant.to_string(),
    }
}

fn manifest() -> PythonJsonMain {
    let mut python_paths = NameMap::new();
    python_paths.insert("include".to_string(), "install/include/python3.7m".to_string());
    python_paths.insert("stdlib".to_string(), "install/lib/python3.7".to_string());
    let mut python_suffixes = NameMap::new();
    python_suffixes.insert("source".to_string(), strings(&[".py"]));
    python_suffixes.insert("bytecode".to_string(), strings(&[".pyc"]));
    python_suffixes.insert("debug_bytecode".to_string(), strings(&[".pyc"]));
    python_suffixes.insert("optimized_bytecode".to_string(), strings(&[".pyc"]));
    python_suffixes.insert(
        "extension".to_string(),
        strings(&[".cpython-37m-x86_64-linux-gnu.so", ".so"]),
    );
    let mut ssl = extension("default");
    ssl.objs = strings(&["build/Modules/_ssl.o"]);
    ssl.shared_lib = Some("install/lib/python3.7/lib-dynload/_ssl.so".to_string());
    ssl.licenses = Some(strings(&["OpenSSL"]));
    ssl.license_paths = Some(strings(&["licenses/LICENSE.openssl.txt"]));
    let mut crypto = link("crypto");
    crypto.path_static = Some("build/lib/libcrypto.a".to_string());
    let mut dl = link("dl");
    dl.system = Some(true);
    ssl.links = vec![crypto, dl];
    let mut io = extension("default");
    io.init_fn = "PyInit__io".to_string();
    io.in_core = true;
    io.required = true;
    let mut extensions = NameMap::new();
    extensions.insert("_ssl".to_string(), vec![ssl]);
    extensions.insert("_io".to_string(), vec![io]);
    let mut pthread = link("pthread");
    pthread.system = Some(true);
    let mut ffi = link("ffi");
    ffi.path_static = Some("build/lib/libffi.a".to_string());
    ffi.path_dynamic = Some("install/lib/libffi.so.6".to_string());
    PythonJsonMain {
        version: "5".to_string(),
        target_triple: "x86_64-unknown-linux-gnu".to_string(),
        optimizations: "pgo".to_string(),
        python_tag: "cp37".to_string(),
        python_abi_tag: Some("cp37m".to_string()),
        python_platform_tag: "linux-x86_64".to_string(),
        python_implementation_cache_tag: "cpython-37".to_string(),
        python_implementation_hex_version: 50792176,
        python_implementation_name: "cpython".to_string(),
        python_implementation_version: strings(&["3", "7", "6"]),
        python_version: "3.7.6".to_string(),
        python_major_minor_version: "3.7".to_string(),
        python_paths,
        python_exe: "install/bin/python3.7".to_string(),
        python_stdlib_test_packages: strings(&["test", "distutils.tests"]),
        python_suffixes,
        python_bytecode_magic_number: "420d0d0a".to_string(),
        python_symbol_visibility: "global-default".to_string(),
        python_extension_module_loading: strings(&["builtin", "shared-library"]),
        libpython_link_mode: "static".to_string(),
        crt_features: strings(&["glibc-dynamic"]),
        run_tests: "build/run_tests.py".to_string(),
        build_info: PythonBuildInfo {
            core: PythonBuildCoreInfo {
                objs: strings(&["build/Objects/abstract.o", "build/Python/ceval.o"]),
                links: vec![pthread, ffi],
                shared_lib: None,
                static_lib: Some("install/lib/libpython3.7m.a".to_string()),
            },
            extensions,
            inittab_object: "build/Modules/config.o".to_string(),
            inittab_source: "build/Modules/config.c".to_string(),
            inittab_cflags: strings(&["-std=c99"]),
            object_file_format: "elf".to_string(),
        },
        licenses: Some(strings(&["Python-2.0"])),
        license_path: Some("licenses/LICENSE.cpython.txt".to_string()),
        tcl_library_path: Some("install/lib/tcl".to_string()),
        tcl_library_paths: None,
    }
}

fn files() -> DistributionFiles {
    let mut license_texts = NameMap::new();
    license_texts.insert(
        "/cache/dist/python/licenses/LICENSE.cpython.txt".to_string(),
        "PSF".to_string(),
    );
    license_texts.insert(
        "/cache/dist/python/licenses/LICENSE.openssl.txt".to_string(),
        "OpenSSL License".to_string(),
    );
    DistributionFiles {
        root_entries: entries(&["python"]),
        python_entries: entries(&["build", "install", "lib", "licenses", "PYTHON.json"]),
        license_texts,
        include_files: vec![(
            "Python.h".to_string(),
            "/cache/dist/python/install/include/python3.7m/Python.h".to_string(),
        )],
        stdlib_resources: vec![
            ScannedResource::ModuleSource(PythonModuleSource {
                name: "os".to_string(),
                source: DataLocation::Path(
                    "/cache/dist/python/install/lib/python3.7/os.py".to_string(),
                ),
                is_package: false,
                cache_tag: "cpython-37".to_string(),
                is_stdlib: true,
                is_test: false,
            }),
            ScannedResource::Other,
            ScannedResource::Resource(PythonPackageResource {
                leaf_package: "lib2to3".to_string(),
                relative_name: "Grammar.txt".to_string(),
                data: DataLocation::Path(
                    "/cache/dist/python/install/lib/python3.7/lib2to3/Grammar.txt".to_string(),
                ),
                is_stdlib: true,
                is_test: false,
            }),
            ScannedResource::Resource(PythonPackageResource {
                leaf_package: "lib2to3".to_string(),
                relative_name: "PatternGrammar.txt".to_string(),
                data: DataLocation::Path(
                    "/cache/dist/python/install/lib/python3.7/lib2to3/PatternGrammar.txt"
                        .to_string(),
                ),
                is_stdlib: true,
                is_test: false,
            }),
        ],
    }
}

fn distribution() -> StandaloneDistribution {
    StandaloneDistribution::from_directory("/cache/dist", &files(), Ok(manifest())).unwrap()
}

#[test]
fn the_root_of_a_distribution_holds_python_only() {
    assert_eq!(check_root_entries(&entries(&[])), Ok(()));
    assert_eq!(check_root_entries(&entries(&["python"])), Ok(()));
    assert_eq!(
        check_root_entries(&entries(&["python", "README", "other"])),
        Err(PackagingError::UnexpectedRootEntry("README".to_string()))
    );
    assert_eq!(
        check_root_entries(&vec![Some("python".to_string()), None, Some("x".to_string())]),
        Err(PackagingError::UnreadableRootEntry)
    );
    assert_eq!(
        check_root_entries(&entries(&["Python"])).unwrap_err().kind(),
        ErrorKind::Integrity
    );
}

#[test]
fn the_python_directory_holds_what_is_expected_only() {
    assert_eq!(
        check_python_entries(&entries(&[
            "build",
            "install",
            "lib",
            "licenses",
            "LICENSE.rst",
            "PYTHON.json"
        ])),
        Ok(())
    );
    assert_eq!(
        check_python_entries(&entries(&["build", "python", "src"])),
        Err(PackagingError::UnexpectedPythonEntry("python".to_string()))
    );
    assert_eq!(
        check_python_entries(&vec![None]),
        Err(PackagingError::UnreadablePythonEntry)
    );
}

#[test]
fn the_version_of_a_manifest_has_to_be_5() {
    assert_eq!(check_version(&VersionField::Text("5".to_string())), Ok(()));
    assert_eq!(
        check_version(&VersionField::Text("4".to_string())),
        Err(PackagingError::UnsupportedVersion("4".to_string()))
    );
    assert_eq!(
        check_version(&VersionField::Text("".to_string())),
        Err(PackagingError::UnsupportedVersion("".to_string()))
    );
    assert_eq!(
        check_version(&VersionField::NotAnObject),
        Err(PackagingError::ManifestNotAnObject)
    );
    assert_eq!(
        check_version(&VersionField::Missing),
        Err(PackagingError::MissingVersion)
    );
    assert_eq!(
        check_version(&VersionField::NotAString),
        Err(PackagingError::VersionNotAString)
    );
}

#[test]
fn the_bytes_of_a_manifest_are_checked() {
    assert_eq!(parse_python_json(b"{\"version\": \"5\"}"), Ok(()));
    assert_eq!(
        parse_python_json(b"{\"version\": \"5\", \"target_triple\": 1}"),
        Ok(())
    );
    assert_eq!(
        parse_python_json(b"{\"version\": \"6\"}"),
        Err(PackagingError::UnsupportedVersion("6".to_string()))
    );
    assert_eq!(
        parse_python_json(b"{\"version\": 5}"),
        Err(PackagingError::VersionNotAString)
    );
    assert_eq!(
        parse_python_json(b"{\"python_version\": \"3.7.6\"}"),
        Err(PackagingError::MissingVersion)
    );
    assert_eq!(
        parse_python_json(b"[\"version\", \"5\"]"),
        Err(PackagingError::ManifestNotAnObject)
    );
    let e = parse_python_json(b"{\"version\": ").unwrap_err();
    assert!(matches!(e, PackagingError::InvalidManifest(_)));
    assert_eq!(e.kind(), ErrorKind::Integrity);
    assert_eq!(
        parse_python_json_from_distribution("/cache/dist"),
        "/cache/dist/python/PYTHON.json"
    );
}

#[test]
fn a_link_entry_describes_a_library() {
    let mut entry = link("ffi");
    entry.path_static = Some("build/lib/libffi.a".to_string());
    entry.path_dynamic = Some("install/lib/libffi.so.6".to_string());
    assert_eq!(
        entry.to_library_dependency("/d/python"),
        LibraryDependency {
            name: "ffi".to_string(),
            static_library: Some(DataLocation::Path(
                "/d/python/build/lib/libffi.a".to_string()
            )),
            static_filename: Some("libffi.a".to_string()),
            dynamic_library: Some(DataLocation::Path(
                "/d/python/install/lib/libffi.so.6".to_string()
            )),
            dynamic_filename: Some("libffi.so.6".to_string()),
            framework: false,
            system: false,
        }
    );
    let mut entry = link("Cocoa");
    entry.framework = Some(true);
    entry.system = Some(false);
    assert_eq!(
        entry.to_library_dependency("/d/python"),
        LibraryDependency {
            name: "Cocoa".to_string(),
            static_library: None,
            static_filename: None,
            dynamic_library: None,
            dynamic_filename: None,
            framework: true,
            system: false,
        }
    );
}

#[test]
fn the_link_mode_of_a_distribution_is_read() {
    assert_eq!(
        resolve_libpython("static", &None, "/d/python"),
        Ok((StandaloneDistributionLinkMode::Static, None))
    );
    assert_eq!(
        resolve_libpython("static", &Some("lib.so".to_string()), "/d/python"),
        Ok((StandaloneDistributionLinkMode::Static, None))
    );
    assert_eq!(
        resolve_libpython("shared", &Some("install/python37.dll".to_string()), "/d/python"),
        Ok((
            StandaloneDistributionLinkMode::Dynamic,
            Some("/d/python/install/python37.dll".to_string())
        ))
    );
    assert_eq!(
        resolve_libpython("shared", &None, "/d/python"),
        Err(PackagingError::MissingSharedLibrary)
    );
    assert_eq!(
        resolve_libpython("dynamic", &None, "/d/python"),
        Err(PackagingError::UnhandledLinkMode("dynamic".to_string()))
    );
}

#[test]
fn the_suffixes_of_a_distribution_are_read() {
    let pi = manifest();
    assert_eq!(
        resolve_module_suffixes(&pi.python_suffixes),
        Ok(PythonModuleSuffixes {
            source: strings(&[".py"]),
            bytecode: strings(&[".pyc"]),
            debug_bytecode: strings(&[".pyc"]),
            optimized_bytecode: strings(&[".pyc"]),
            extension: strings(&[".cpython-37m-x86_64-linux-gnu.so", ".so"]),
        })
    );
    let kinds = [
        "source",
        "bytecode",
        "debug_bytecode",
        "optimized_bytecode",
        "extension",
    ];
    for (i, kind) in kinds.iter().enumerate() {
        // Without this kind and the later ones, this kind is the one missed.
        let mut suffixes = NameMap::new();
        for present in &kinds[..i] {
            suffixes.insert(present.to_string(), strings(&[".x"]));
        }
        assert_eq!(
            resolve_module_suffixes(&suffixes),
            Err(PackagingError::MissingSuffixes(kind.to_string()))
        );
    }
}

#[test]
fn a_distribution_is_made_of_its_manifest() {
    let d = distribution();
    assert_eq!(d.base_dir, "/cache/dist");
    assert_eq!(d.target_triple, "x86_64-unknown-linux-gnu");
    assert_eq!(d.python_tag, "cp37");
    assert_eq!(d.python_abi_tag, Some("cp37m".to_string()));
    assert_eq!(d.python_platform_tag, "linux-x86_64");
    assert_eq!(d.version, "3.7.6");
    assert_eq!(d.python_exe, "/cache/dist/python/install/bin/python3.7");
    assert_eq!(d.python_exe_path(), "/cache/dist/python/install/bin/python3.7");
    assert_eq!(d.stdlib_path, "/cache/dist/python/install/lib/python3.7");
    assert_eq!(d.link_mode, StandaloneDistributionLinkMode::Static);
    assert_eq!(d.libpython_shared_library, None);
    assert_eq!(d.python_symbol_visibility, "global-default");
    assert_eq!(d.extension_module_loading, strings(&["builtin", "shared-library"]));
    assert_eq!(d.licenses, Some(strings(&["Python-2.0"])));
    assert_eq!(d.license_path, Some("licenses/LICENSE.cpython.txt".to_string()));
    assert_eq!(d.tcl_library_path, Some("install/lib/tcl".to_string()));
    assert_eq!(d.venv_base, "/cache/hacked_base");
    assert_eq!(d.inittab_object, "/cache/dist/python/build/Modules/config.o");
    assert_eq!(d.inittab_cflags, strings(&["-std=c99"]));
    assert_eq!(d.cache_tag, "cpython-37");
    assert_eq!(d.cache_tag(), "cpython-37");
    assert_eq!(d.python_major_minor_version(), "3.7");
    assert_eq!(d.python_module_suffixes().source, strings(&[".py"]));
    assert!(d.frozen_c.is_empty());
    assert!(d.is_extension_module_file_loadable());
    assert_eq!(d.stdlib_test_packages, strings(&["test", "distutils.tests"]));

    assert_eq!(
        d.objs_core.items(),
        &vec![
            (
                "build/Objects/abstract.o".to_string(),
                "/cache/dist/python/build/Objects/abstract.o".to_string()
            ),
            (
                "build/Python/ceval.o".to_string(),
                "/cache/dist/python/build/Python/ceval.o".to_string()
            ),
        ]
    );
    assert_eq!(d.links_core.len(), 2);
    assert_eq!(d.links_core[0].name, "pthread");
    assert!(d.links_core[0].system);
    assert_eq!(d.links_core[1].name, "ffi");
    // The libraries with a static form, of the core and of the extensions.
    assert_eq!(
        d.libraries.items(),
        &vec![
            (
                "crypto".to_string(),
                DataLocation::Path("/cache/dist/python/build/lib/libcrypto.a".to_string())
            ),
            (
                "ffi".to_string(),
                DataLocation::Path("/cache/dist/python/build/lib/libffi.a".to_string())
            ),
        ]
    );
    assert_eq!(
        d.includes.get("Python.h"),
        Some(&"/cache/dist/python/install/include/python3.7m/Python.h".to_string())
    );
    assert_eq!(
        d.py_modules.items(),
        &vec![(
            "os".to_string(),
            "/cache/dist/python/install/lib/python3.7/os.py".to_string()
        )]
    );
    assert_eq!(d.resources.len(), 1);
    assert_eq!(d.resources.get("lib2to3").unwrap().len(), 2);
    assert_eq!(
        d.license_infos.get("python"),
        Some(&vec![LicenseInfo {
            licenses: strings(&["Python-2.0"]),
            license_filename: "LICENSE.python.txt".to_string(),
            license_text: "PSF".to_string(),
        }])
    );
    let openssl = vec![LicenseInfo {
        licenses: strings(&["OpenSSL"]),
        license_filename: "LICENSE.openssl.txt".to_string(),
        license_text: "OpenSSL License".to_string(),
    }];
    assert_eq!(d.license_infos.get("_ssl"), Some(&openssl));
    assert_eq!(d.license_infos.get("_io"), None);
}

#[test]
fn the_extension_modules_of_a_distribution_are_described() {
    let d = distribution();
    assert_eq!(d.extension_modules.len(), 2);
    assert_eq!(
        d.extension_modules.get("_io"),
        Some(&vec![PythonExtensionModule {
            name: "_io".to_string(),
            init_fn: Some("PyInit__io".to_string()),
            extension_file_suffix: "".to_string(),
            shared_library: None,
            object_file_data: vec![],
            is_package: false,
            link_libraries: vec![],
            is_stdlib: true,
            builtin_default: true,
            required: true,
            variant: Some("default".to_string()),
            licenses: None,
            license_public_domain: None,
        }])
    );
    let ssl = &d.extension_modules.get("_ssl").unwrap()[0];
    assert_eq!(
        ssl.shared_library,
        Some(DataLocation::Path(
            "/cache/dist/python/install/lib/python3.7/lib-dynload/_ssl.so".to_string()
        ))
    );
    assert_eq!(
        ssl.object_file_data,
        vec![DataLocation::Path(
            "/cache/dist/python/build/Modules/_ssl.o".to_string()
        )]
    );
    assert!(!ssl.builtin_default);
    assert_eq!(ssl.link_libraries.len(), 2);
    assert_eq!(ssl.link_libraries[0].name, "crypto");
    assert_eq!(
        ssl.link_libraries[0].static_filename,
        Some("libcrypto.a".to_string())
    );
    assert!(ssl.link_libraries[1].system);
    assert_eq!(
        ssl.licenses,
        Some(vec![LicenseInfo {
            licenses: strings(&["OpenSSL"]),
            license_filename: "LICENSE.openssl.txt".to_string(),
            license_text: "OpenSSL License".to_string(),
        }])
    );
}

#[test]
fn the_license_files_of_a_manifest_are_listed() {
    assert_eq!(
        license_paths(&manifest(), "/cache/dist/python"),
        strings(&[
            "/cache/dist/python/licenses/LICENSE.cpython.txt",
            "/cache/dist/python/licenses/LICENSE.openssl.txt",
        ])
    );
}

fn failure(
    change: impl FnOnce(&mut PythonJsonMain, &mut DistributionFiles),
) -> PackagingError {
    let mut pi = manifest();
    let mut found = files();
    change(&mut pi, &mut found);
    StandaloneDistribution::from_directory("/cache/dist", &found, Ok(pi)).unwrap_err()
}

#[test]
fn a_distribution_is_refused_for_what_it_lacks() {
    assert_eq!(
        failure(|_, f| f.root_entries = entries(&["python", "extra"])),
        PackagingError::UnexpectedRootEntry("extra".to_string())
    );
    assert_eq!(
        failure(|_, f| f.python_entries = entries(&["build", "extra"])),
        PackagingError::UnexpectedPythonEntry("extra".to_string())
    );
    // The root is looked at before the directory below it.
    assert_eq!(
        failure(|_, f| {
            f.root_entries = entries(&["other"]);
            f.python_entries = entries(&["extra"]);
        }),
        PackagingError::UnexpectedRootEntry("other".to_string())
    );
    assert_eq!(
        failure(|pi, _| pi.libpython_link_mode = "both".to_string()),
        PackagingError::UnhandledLinkMode("both".to_string())
    );
    assert_eq!(
        failure(|pi, _| pi.libpython_link_mode = "shared".to_string()),
        PackagingError::MissingSharedLibrary
    );
    assert_eq!(
        failure(|pi, _| {
            pi.python_suffixes.remove("bytecode");
        }),
        PackagingError::MissingSuffixes("bytecode".to_string())
    );
    assert_eq!(
        failure(|pi, _| {
            pi.python_paths.remove("include");
        }),
        PackagingError::MissingIncludePath
    );
    assert_eq!(
        failure(|pi, _| {
            pi.python_paths.remove("stdlib");
        }),
        PackagingError::MissingStdlibPath
    );
    assert_eq!(
        failure(|pi, _| pi.licenses = None),
        PackagingError::MissingLicenses
    );
    assert_eq!(
        failure(|_, f| {
            f.license_texts
                .remove("/cache/dist/python/licenses/LICENSE.openssl.txt");
        }),
        PackagingError::MissingLicenseText(
            "/cache/dist/python/licenses/LICENSE.openssl.txt".to_string()
        )
    );
    assert_eq!(
        failure(|_, f| {
            f.stdlib_resources.push(ScannedResource::Resource(PythonPackageResource {
                leaf_package: "p".to_string(),
                relative_name: "r".to_string(),
                data: DataLocation::Memory(vec![]),
                is_stdlib: true,
                is_test: false,
            }))
        }),
        PackagingError::ResourceInMemory
    );
    assert_eq!(
        failure(|_, f| {
            f.stdlib_resources.push(ScannedResource::ModuleSource(PythonModuleSource {
                name: "m".to_string(),
                source: DataLocation::Memory(vec![]),
                is_package: false,
                cache_tag: "cpython-37".to_string(),
                is_stdlib: true,
                is_test: false,
            }))
        }),
        PackagingError::SourceInMemory
    );
    assert_eq!(
        StandaloneDistribution::from_directory(
            "/cache/dist",
            &files(),
            Err(PackagingError::MissingManifest)
        )
        .unwrap_err(),
        PackagingError::MissingManifest
    );
    let mut pi = manifest();
    pi.license_path = None;
    pi.build_info.extensions.remove("_ssl");
    assert_eq!(
        StandaloneDistribution::from_directory("/", &files(), Ok(pi)).unwrap_err(),
        PackagingError::NoParent
    );
}

#[test]
fn the_first_thing_that_a_distribution_lacks_is_reported() {
    // Suffixes come before the directories, and those before the link mode.
    assert_eq!(
        failure(|pi, _| {
            pi.python_suffixes.remove("extension");
            pi.python_paths.remove("include");
            pi.libpython_link_mode = "both".to_string();
        }),
        PackagingError::MissingSuffixes("extension".to_string())
    );
    assert_eq!(
        failure(|pi, _| {
            pi.python_paths.remove("include");
            pi.python_paths.remove("stdlib");
            pi.libpython_link_mode = "both".to_string();
        }),
        PackagingError::MissingIncludePath
    );
    assert_eq!(
        failure(|pi, _| {
            pi.python_paths.remove("stdlib");
            pi.libpython_link_mode = "both".to_string();
        }),
        PackagingError::MissingStdlibPath
    );
    // The licenses of the interpreter come before everything else.
    assert_eq!(
        failure(|pi, _| {
            pi.licenses = None;
            pi.python_suffixes.remove("source");
        }),
        PackagingError::MissingLicenses
    );
}

#[test]
fn a_shared_distribution_names_its_library() {
    let mut pi = manifest();
    pi.libpython_link_mode = "shared".to_string();
    pi.build_info.core.shared_lib = Some("install/lib/libpython3.7m.so.1.0".to_string());
    let d = StandaloneDistribution::from_directory("/cache/dist", &files(), Ok(pi)).unwrap();
    assert_eq!(d.link_mode, StandaloneDistributionLinkMode::Dynamic);
    assert_eq!(
        d.libpython_shared_library,
        Some("/cache/dist/python/install/lib/libpython3.7m.so.1.0".to_string())
    );
}

#[test]
fn test_packages_are_those_of_the_manifest() {
    let packages = strings(&["test", "distutils.tests"]);
    assert!(is_in_packages("test", &packages));
    assert!(is_in_packages("test.support", &packages));
    assert!(is_in_packages("distutils.tests.test_build", &packages));
    assert!(!is_in_packages("testing", &packages));
    assert!(!is_in_packages("distutils", &packages));
    assert!(!is_in_packages("distutils.test", &packages));
    assert!(!is_in_packages("", &packages));
    assert!(!is_in_packages("test", &vec![]));
    let d = distribution();
    assert!(d.is_stdlib_test_package("test.test_os"));
    assert!(!d.is_stdlib_test_package("os"));
}

#[test]
fn a_package_is_known_by_its_file() {
    assert!(is_package_from_path("/lib/foo/__init__.py"));
    assert!(is_package_from_path("__init__.cpython-37.pyc"));
    assert!(!is_package_from_path("/lib/foo.py"));
    assert!(!is_package_from_path("/lib/__init__/foo.py"));
    assert!(!is_package_from_path("/lib/foo/__init__"));
    assert!(!is_package_from_path("/"));
}

#[test]
fn the_default_policy_knows_what_does_not_link() {
    let d = distribution();
    let policy = d.create_packaging_policy().unwrap();
    assert_eq!(
        policy.get_extension_module_filter(),
        ExtensionModuleFilter::All
    );
    assert_eq!(
        policy.get_resources_policy(),
        &PythonResourcesPolicy::InMemoryOnly
    );
    assert_eq!(
        policy.get_broken_extensions().items(),
        &vec![
            ("x86_64-apple-ios".to_string(), strings(&["curses", "_curses_panel", "readline"])),
            ("x86_64-unknown-linux-gnu".to_string(), strings(&["_crypt", "nis"])),
            ("x86_64-unknown-linux-musl".to_string(), strings(&["_crypt", "nis"])),
        ]
    );
    assert_eq!(
        linux_target_triples(),
        vec!["x86_64-unknown-linux-gnu", "x86_64-unknown-linux-musl"]
    );
    assert_eq!(macos_target_triples(), vec!["x86_64-apple-ios"]);
    assert_eq!(
        windows_target_triples(),
        vec![
            "i686-pc-windows-gnu",
            "i686-pc-windows-msvc",
            "x86_64-pc-windows-gnu",
            "x86_64-pc-windows-msvc"
        ]
    );
    assert_eq!(broken_extensions_linux(), vec!["_crypt", "nis"]);
    assert_eq!(
        broken_extensions_macos(),
        vec!["curses", "_curses_panel", "readline"]
    );
}

#[test]
fn a_policy_says_what_is_wanted() {
    let mut policy = PythonPackagingPolicy::default();
    let mut source = PythonModuleSource {
        name: "foo".to_string(),
        source: DataLocation::Memory(vec![]),
        is_package: false,
        cache_tag: "cpython-37".to_string(),
        is_stdlib: true,
        is_test: false,
    };
    let mut resource = PythonPackageResource {
        leaf_package: "foo".to_string(),
        relative_name: "data".to_string(),
        data: DataLocation::Memory(vec![]),
        is_stdlib: true,
        is_test: false,
    };
    assert!(policy.includes_source(&source));
    assert!(!policy.includes_resource(&resource));
    resource.is_stdlib = false;
    assert!(policy.includes_resource(&resource));
    resource.is_stdlib = true;
    policy.set_include_distribution_resources(true);
    assert!(policy.includes_resource(&resource));
    resource.is_test = true;
    assert!(!policy.includes_resource(&resource));
    source.is_test = true;
    assert!(!policy.includes_source(&source));
    let bytecode =
        source.as_bytecode_module(pyoxidizer::resource::BytecodeOptimizationLevel::Zero);
    assert!(!policy.includes_bytecode(&bytecode));
    policy.set_include_test(true);
    assert!(policy.includes_source(&source));
    assert!(policy.includes_bytecode(&bytecode));
    assert!(policy.includes_resource(&resource));
    policy.set_include_distribution_sources(false);
    assert!(!policy.includes_source(&source));
    assert!(policy.includes_bytecode(&bytecode));

    policy.set_preferred_extension_module_variant("_ssl", "libressl");
    policy.set_preferred_extension_module_variant("_ssl", "openssl");
    assert_eq!(
        policy.get_preferred_extension_module_variants().get("_ssl"),
        Some(&"openssl".to_string())
    );
    policy.register_broken_extension("t", "a");
    policy.register_broken_extension("t", "b");
    policy.register_broken_extension("u", "a");
    assert_eq!(policy.get_broken_extensions().get("t"), Some(&strings(&["a", "b"])));
    let copy = policy.clone();
    assert_eq!(
        copy.get_broken_extensions().items(),
        policy.get_broken_extensions().items()
    );
}

fn some_module(name: &str) -> PythonExtensionModule {
    PythonExtensionModule {
        name: name.to_string(),
        init_fn: None,
        extension_file_suffix: "".to_string(),
        shared_library: None,
        object_file_data: vec![],
        is_package: false,
        link_libraries: vec![],
        is_stdlib: false,
        builtin_default: false,
        required: false,
        variant: None,
        licenses: None,
        license_public_domain: None,
    }
}

fn some_resources() -> Vec<PythonResource> {
    vec![
        PythonResource::ModuleSource(PythonModuleSource {
            name: "foo.bar".to_string(),
            source: DataLocation::Memory(vec![]),
            is_package: false,
            cache_tag: "cpython-37".to_string(),
            is_stdlib: false,
            is_test: false,
        }),
        PythonResource::ExtensionModuleDynamicLibrary(some_module("foo.ext")),
        PythonResource::ExtensionModuleStaticallyLinked(some_module("other")),
        PythonResource::EggFile(DataLocation::Memory(vec![])),
        PythonResource::PathExtension(DataLocation::Memory(vec![])),
        PythonResource::Resource(PythonPackageResource {
            leaf_package: "foo".to_string(),
            relative_name: "data".to_string(),
            data: DataLocation::Memory(vec![]),
            is_stdlib: false,
            is_test: false,
        }),
    ]
}

#[test]
fn resources_are_kept_where_the_distribution_can_use_them() {
    let resources = some_resources();
    let mut d = distribution();
    let kept = d.filter_compatible_python_resources(&resources).unwrap();
    assert_eq!(
        kept,
        vec![&resources[0], &resources[1], &resources[2], &resources[5]]
    );
    d.link_mode = StandaloneDistributionLinkMode::Dynamic;
    d.extension_module_loading = strings(&["builtin"]);
    let kept = d.filter_compatible_python_resources(&resources).unwrap();
    assert_eq!(kept, vec![&resources[0], &resources[5]]);
}

#[test]
fn resources_are_read_by_package() {
    let resources = some_resources();
    assert_eq!(
        read_package_root(&resources, &strings(&["foo"])),
        vec![&resources[0], &resources[1], &resources[5]]
    );
    assert_eq!(
        read_package_root(&resources, &strings(&["foo.bar", "other"])),
        vec![&resources[0], &resources[2]]
    );
    assert!(read_package_root(&resources, &strings(&["fo"])).is_empty());
    assert!(read_package_root(&resources, &vec![]).is_empty());
}

#[test]
fn link_modes_follow_the_target() {
    let one_way = |dynamic: bool| LinkSupport {
        supports_static: !dynamic,
        supports_dynamic: dynamic,
    };
    assert_eq!(link_support("x86_64-pc-windows-msvc", true), one_way(true));
    assert_eq!(link_support("i686-pc-windows-gnu", false), one_way(false));
    for shared in [false, true] {
        assert_eq!(
            link_support("x86_64-unknown-linux-musl", shared),
            one_way(false)
        );
        assert_eq!(
            link_support("x86_64-unknown-linux-gnu", shared),
            LinkSupport {
                supports_static: true,
                supports_dynamic: true
            }
        );
    }
    let both = LinkSupport {
        supports_static: true,
        supports_dynamic: true,
    };
    let none = LinkSupport {
        supports_static: false,
        supports_dynamic: false,
    };
    assert_eq!(
        resolve_link_mode(both, BinaryLibpythonLinkMode::Default),
        Ok(LibpythonLinkMode::Static)
    );
    assert_eq!(
        resolve_link_mode(one_way(true), BinaryLibpythonLinkMode::Default),
        Ok(LibpythonLinkMode::Dynamic)
    );
    assert_eq!(
        resolve_link_mode(none, BinaryLibpythonLinkMode::Default),
        Err(PackagingError::NoLinkModes)
    );
    assert_eq!(
        resolve_link_mode(both, BinaryLibpythonLinkMode::Dynamic),
        Ok(LibpythonLinkMode::Dynamic)
    );
    assert_eq!(
        resolve_link_mode(one_way(true), BinaryLibpythonLinkMode::Static),
        Err(PackagingError::StaticLinkingUnsupported)
    );
    assert_eq!(
        resolve_link_mode(one_way(false), BinaryLibpythonLinkMode::Dynamic),
        Err(PackagingError::DynamicLinkingUnsupported)
    );
    assert_eq!(
        resolve_link_mode(one_way(false), BinaryLibpythonLinkMode::Static),
        Ok(LibpythonLinkMode::Static)
    );
    let d = distribution();
    assert_eq!(
        d.libpython_link_mode(BinaryLibpythonLinkMode::Default),
        Ok(LibpythonLinkMode::Static)
    );
    assert!(!d.supports_in_memory_loading("x86_64-pc-windows-msvc"));
    let mut d = d;
    d.python_symbol_visibility = "dllexport".to_string();
    assert!(d.supports_in_memory_loading("x86_64-pc-windows-msvc"));
    assert!(!d.supports_in_memory_loading("x86_64-unknown-linux-gnu"));
    d.extension_module_loading = strings(&["builtin"]);
    assert!(!d.supports_in_memory_loading("x86_64-pc-windows-msvc"));
}

fn probe() -> PythonPathProbe {
    PythonPathProbe {
        windows: false,
        scripts_dir_exists: false,
        python_in_scripts: false,
        python_in_bin: false,
        unix_lib_dir_exists: false,
    }
}

#[test]
fn the_paths_of_an_installation_are_resolved() {
    let mut found = probe();
    found.python_in_bin = true;
    found.unix_lib_dir_exists = true;
    assert_eq!(
        resolve_python_paths("/venv", "3.7.6", &found),
        PythonPaths {
            prefix: "/venv".to_string(),
            bin_dir: "/venv/bin".to_string(),
            python_exe: "/venv/bin/python3".to_string(),
            stdlib: "/venv/lib/python3.7".to_string(),
            site_packages: "/venv/lib/python3.7/site-packages".to_string(),
            pyoxidizer_state_dir: "/venv/state/pyoxidizer".to_string(),
        }
    );
    // Without an interpreter among the executables, the one at the base is
    // taken; without the library directory, its place is named all the same.
    assert_eq!(
        resolve_python_paths("/venv", "3.8", &probe()),
        PythonPaths {
            prefix: "/venv".to_string(),
            bin_dir: "/venv/bin".to_string(),
            python_exe: "/venv/python3".to_string(),
            stdlib: "/venv/lib/python3.8".to_string(),
            site_packages: "/venv/lib/python3.8/site-packages".to_string(),
            pyoxidizer_state_dir: "/venv/state/pyoxidizer".to_string(),
        }
    );
    let mut found = probe();
    found.scripts_dir_exists = true;
    found.python_in_scripts = true;
    found.python_in_bin = false;
    let paths = resolve_python_paths("/venv", "3.10.1", &found);
    assert_eq!(paths.bin_dir, "/venv/Scripts");
    assert_eq!(paths.python_exe, "/venv/Scripts/python3");
    assert_eq!(paths.stdlib, "/venv/lib/python3.1");
    let mut found = probe();
    found.windows = true;
    found.python_in_bin = true;
    let paths = resolve_python_paths("/venv", "3.7.6", &found);
    assert_eq!(paths.bin_dir, "/venv/Scripts");
    assert_eq!(paths.python_exe, "/venv/python.exe");
    assert_eq!(paths.stdlib, "/venv/Lib");
    assert_eq!(paths.site_packages, "/venv/Lib/site-packages");
    found.unix_lib_dir_exists = true;
    assert_eq!(
        resolve_python_paths("/venv", "3.7.6", &found).stdlib,
        "/venv/lib/python3.7"
    );
}

#[test]
fn the_interpreter_of_a_distribution_is_found() {
    assert_eq!(
        python_exe_path("/cache/dist", "install/bin/python3.7"),
        "/cache/dist/python/install/bin/python3.7"
    );
    assert_eq!(python_exe_name(false), "python3");
    assert_eq!(python_exe_name(true), "python.exe");
    assert_eq!(pip_exe_name(false), "pip3");
    assert_eq!(pip_exe_name(true), "pip3.exe");
    assert_eq!(python_major_minor_version("3.7.6"), "3.7");
    assert_eq!(python_major_minor_version("3.1"), "3.1");
}

fn paths() -> PythonPaths {
    PythonPaths {
        prefix: "/venv".to_string(),
        bin_dir: "/venv/bin".to_string(),
        python_exe: "/venv/bin/python3".to_string(),
        stdlib: "/venv/lib/python3.7".to_string(),
        site_packages: "/venv/lib/python3.7/site-packages".to_string(),
        pyoxidizer_state_dir: "/venv/state/pyoxidizer".to_string(),
    }
}

#[test]
fn the_interpreter_is_run_with_its_site_packages() {
    assert_eq!(
        invoke_python(&paths(), &strings(&["-m", "ensurepip"])),
        Ok(PythonInvocation {
            program: "/venv/bin/python3".to_string(),
            args: strings(&["-m", "ensurepip"]),
            python_path: "/venv/lib/python3.7/site-packages".to_string(),
        })
    );
    let mut unc = paths();
    unc.site_packages = "\\\\?\\C:\\venv\\Lib\\site-packages".to_string();
    assert_eq!(
        invoke_python(&unc, &vec![]),
        Err(PackagingError::UncSitePackages)
    );
    assert_eq!(
        prepare_venv(&unc, None, true).unwrap_err(),
        PackagingError::UncSitePackages
    );
}

#[test]
fn a_virtual_environment_comes_first_in_the_path() {
    let envs = prepare_venv(&paths(), Some("/usr/bin:/bin"), false).unwrap();
    assert_eq!(
        envs.items(),
        &vec![
            ("PATH".to_string(), "/venv/bin:/usr/bin:/bin".to_string()),
            ("PYOXIDIZER".to_string(), "1".to_string()),
            (
                "PYTHONPATH".to_string(),
                "/venv/lib/python3.7/site-packages".to_string()
            ),
            ("VIRTUAL_ENV".to_string(), "/venv".to_string()),
        ]
    );
    let envs = prepare_venv(&paths(), None, false).unwrap();
    assert_eq!(envs.get("PATH"), Some(&"/venv/bin".to_string()));
    let envs = prepare_venv(&paths(), Some("C:\\bin"), true).unwrap();
    assert_eq!(envs.get("PATH"), Some(&"/venv/bin;C:\\bin".to_string()));
    assert_eq!(ensure_pip(&paths(), false), "/venv/bin/pip3");
    assert_eq!(ensure_pip(&paths(), true), "/venv/bin/pip3.exe");
    assert!(resolve_distutils(LibpythonLinkMode::Static));
    assert!(!resolve_distutils(LibpythonLinkMode::Dynamic));
}

#[test]
fn failures_say_what_went_wrong() {
    assert_eq!(
        PackagingError::InMemoryWithoutSharedLibrary("foo".to_string()).message(),
        "cannot add extension module foo for in-memory loading because it lacks shared library data"
    );
    assert_eq!(
        PackagingError::UnsupportedVersion("4".to_string()).message(),
        "expected version 5 standalone distribution; found version 4"
    );
    assert_eq!(
        PackagingError::MaliciousSymlink.message(),
        "malicious symlink detected in archive"
    );
    assert_eq!(
        PackagingError::Collector("refused".to_string()).message(),
        "refused"
    );
    assert_eq!(
        PackagingError::MissingSuffixes("bytecode".to_string()).message(),
        "distribution does not define bytecode suffixes"
    );
    assert_eq!(
        PackagingError::Unresolved("x".to_string()).kind(),
        ErrorKind::External
    );
    assert_eq!(
        PackagingError::NoLinkModes.kind(),
        ErrorKind::Configuration
    );
    assert_eq!(PackagingError::MissingManifest.kind(), ErrorKind::Integrity);
}
