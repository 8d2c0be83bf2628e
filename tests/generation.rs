use cargo_xcode::graph::{build_graph, version_string, ProjectGraph};
use cargo_xcode::ids::IdAllocator;
use cargo_xcode::targets::{
    classify_targets, filter_package, is_relevant_target, EmissionTarget, PackageInfo,
    PackageVersion, TargetInfo, TargetKind,
};
use cargo_xcode::text::{decimal_string, hex_string, join_commas, quote, same_text, underscore};
use cargo_xcode::{GenerateError, Generator};

fn strings(v: &[&str]) -> Vec<String> {
    v.iter().map(|s| s.to_string()).collect()
}

fn target(name: &str, kinds: &[&str]) -> TargetInfo {
    TargetInfo { name: name.to_string(), kind: strings(kinds), required_features: Vec::new() }
}

fn version(major: u64, minor: u64, patch: u64) -> PackageVersion {
    PackageVersion { major, minor, patch, pre: String::new(), build: String::new() }
}

fn package(targets: Vec<TargetInfo>) -> PackageInfo {
    PackageInfo {
        id: "demo 0.1.0 (path+file:///work/demo)".to_string(),
        name: "demo".to_string(),
        version: version(0, 1, 0),
        manifest_path: "/work/demo/Cargo.toml".to_string(),
        targets,
    }
}

fn generate(p: PackageInfo) -> String {
    Generator::new(p, None, None).pbxproj().unwrap()
}

fn graph_of(p: PackageInfo) -> ProjectGraph {
    let ids = IdAllocator::new(&p.id);
    let es = classify_targets(&p.targets, &None);
    build_graph(&ids, &p.name, &p.version, es, "Cargo.toml".to_string())
}

fn emissions(targets: Vec<TargetInfo>) -> Vec<EmissionTarget> {
    classify_targets(&targets, &None)
}

fn all_tokens(g: &ProjectGraph) -> Vec<String> {
    let mut v = vec![
        g.project.clone(),
        g.manifest_ref.clone(),
        g.main_group.id.clone(),
        g.products_group.id.clone(),
        g.frameworks_group.id.clone(),
        g.build_rule.clone(),
        g.merge_phase.clone(),
        g.configuration_list.id.clone(),
    ];
    if let Some(l) = &g.system_library {
        v.push(l.clone());
    }
    for c in &g.configuration_list.configurations {
        v.push(c.id.clone());
    }
    for t in &g.targets {
        v.push(t.product_ref.clone());
        v.push(t.native_target.clone());
        v.push(t.sources_phase.clone());
        v.push(t.manifest_build_file.clone());
        v.push(t.configuration_list.id.clone());
        for c in &t.configuration_list.configurations {
            v.push(c.id.clone());
        }
    }
    v
}

#[test]
fn bin_maps_to_tool() {
    let es = emissions(vec![target("foo", &["bin"])]);
    assert_eq!(es.len(), 1);
    assert_eq!(es[0].kind, TargetKind::Executable);
    assert_eq!(es[0].kind.product_type(), "com.apple.product-type.tool");
    assert_eq!(es[0].cargo_file_name, "foo");
    assert_eq!(es[0].xcode_file_name, "foo");
    assert_eq!(es[0].compiler_flags, "--bin 'foo'");
    assert_eq!(es[0].kind.supported_platforms(), "macosx");
    assert!(!es[0].skip_install);
}

#[test]
fn cdylib_file_name_uses_underscores() {
    let es = emissions(vec![target("foo-bar", &["cdylib"])]);
    assert_eq!(es.len(), 1);
    assert_eq!(es[0].cargo_file_name, "libfoo_bar.dylib");
    assert_eq!(es[0].xcode_file_name, "foo-bar.dylib");
    assert_eq!(es[0].kind.product_type(), "com.apple.product-type.library.dynamic");
    assert_eq!(es[0].compiler_flags, "--lib");
    assert!(!es[0].skip_install);
}

#[test]
fn staticlib_skips_install() {
    let es = emissions(vec![target("foo", &["staticlib"])]);
    assert_eq!(es.len(), 1);
    assert_eq!(es[0].cargo_file_name, "libfoo.a");
    assert_eq!(es[0].xcode_file_name, "libfoo_static.a");
    assert_eq!(es[0].xcode_product_name, "foo_static");
    assert!(es[0].skip_install);
    assert_eq!(
        es[0].kind.supported_platforms(),
        "macosx iphonesimulator iphoneos appletvsimulator appletvos"
    );
}

#[test]
fn one_product_per_relevant_kind() {
    let es = emissions(vec![target("a", &["lib", "cdylib", "staticlib"]), target("b", &["bin"])]);
    let kinds: Vec<TargetKind> = es.iter().map(|e| e.kind).collect();
    assert_eq!(
        kinds,
        vec![TargetKind::DynamicLibrary, TargetKind::StaticLibrary, TargetKind::Executable]
    );
}

#[test]
fn required_features_in_flags() {
    let mut t = target("tool", &["bin"]);
    t.required_features = strings(&["a", "b"]);
    let es = emissions(vec![t]);
    assert_eq!(es[0].compiler_flags, "--bin 'tool' --features 'a,b'");
}

#[test]
fn custom_project_name_names_products() {
    let es = classify_targets(&vec![target("x-y", &["staticlib"])], &Some("App".to_string()));
    assert_eq!(es[0].base_name, "App");
    assert_eq!(es[0].cargo_file_name, "libx_y.a");
    assert_eq!(es[0].xcode_file_name, "libApp_static.a");
    let g = Generator::new(package(vec![]), None, Some("App".to_string()));
    assert_eq!(g.project_dir_name(), "App.xcodeproj");
    let g = Generator::new(package(vec![]), None, None);
    assert_eq!(g.project_dir_name(), "demo.xcodeproj");
}

#[test]
fn custom_project_name_keeps_binary_selection() {
    let mut t = target("foo", &["bin"]);
    t.required_features = strings(&["x"]);
    let es = classify_targets(&vec![t], &Some("bar".to_string()));
    assert_eq!(es[0].base_name, "bar");
    assert_eq!(es[0].xcode_file_name, "bar");
    assert_eq!(es[0].cargo_file_name, "foo");
    assert_eq!(es[0].compiler_flags, "--bin 'foo' --features 'x'");
}

#[test]
fn test_and_example_kinds_dropped() {
    assert!(emissions(vec![target("t", &["test"])]).is_empty());
    assert!(emissions(vec![target("e", &["example"])]).is_empty());
    let with = generate(package(vec![target("a", &["bin"]), target("t", &["test"])]));
    let without = generate(package(vec![target("a", &["bin"])]));
    assert_eq!(with, without);
}

#[test]
fn output_is_deterministic() {
    let ts = || vec![target("a", &["bin"]), target("b", &["cdylib", "staticlib"])];
    assert_eq!(generate(package(ts())), generate(package(ts())));
}

#[test]
fn tokens_survive_reordering() {
    let g1 = graph_of(package(vec![target("a", &["bin"]), target("b", &["cdylib"])]));
    let g2 = graph_of(package(vec![
        target("c", &["staticlib"]),
        target("b", &["cdylib"]),
        target("a", &["bin"]),
    ]));
    assert_eq!(g1.targets[0].product_ref, g2.targets[2].product_ref);
    assert_eq!(g1.targets[0].native_target, g2.targets[2].native_target);
    assert_eq!(g1.targets[1].configuration_list.id, g2.targets[1].configuration_list.id);
    assert_eq!(g1.project, g2.project);
}

#[test]
fn tokens_are_distinct_for_fifty_targets() {
    let kinds = ["bin", "cdylib", "staticlib"];
    let ts: Vec<TargetInfo> =
        (0..50).map(|i| target(&format!("t{}", i), &[kinds[i % 3]])).collect();
    let g = graph_of(package(ts));
    assert_eq!(g.targets.len(), 50);
    let tokens = all_tokens(&g);
    let mut sorted = tokens.clone();
    sorted.sort();
    sorted.dedup();
    assert_eq!(sorted.len(), tokens.len());
    for t in &tokens {
        assert_eq!(t.len(), 24);
        assert!(t.starts_with("CA60"));
    }
}

#[test]
fn same_name_different_kinds_do_not_collide() {
    let g = graph_of(package(vec![target("x", &["bin", "cdylib", "staticlib"])]));
    let tokens = all_tokens(&g);
    let mut sorted = tokens.clone();
    sorted.sort();
    sorted.dedup();
    assert_eq!(sorted.len(), tokens.len());
}

#[test]
fn resolver_library_only_with_static() {
    let g = graph_of(package(vec![target("a", &["staticlib"])]));
    assert!(g.system_library.is_some());
    assert_eq!(g.frameworks_group.children.len(), 1);
    assert!(generate(package(vec![target("a", &["staticlib"])])).contains("libresolv.tbd"));
    let g = graph_of(package(vec![target("a", &["cdylib", "bin"])]));
    assert!(g.system_library.is_none());
    assert!(g.frameworks_group.children.is_empty());
    assert!(!generate(package(vec![target("a", &["cdylib", "bin"])])).contains("libresolv"));
}

#[test]
fn target_list_matches_products() {
    let ts = vec![target("a", &["bin"]), target("b", &["cdylib", "staticlib"]), target("t", &["test"])];
    let g = graph_of(package(ts.clone()));
    assert_eq!(g.target_list.len(), 3);
    assert_eq!(g.products_group.children.len(), 3);
    let text = generate(package(ts));
    assert_eq!(text.matches("isa = PBXNativeTarget;").count(), 3);
    assert_eq!(text.matches("isa = PBXFileReference; explicitFileType").count(), 3);
    assert_eq!(text.matches("CreatedOnToolsVersion = 9.2;").count(), 3);
}

#[test]
fn configuration_lists_are_release_debug() {
    let g = graph_of(package(vec![target("a", &["bin"]), target("b", &["staticlib"])]));
    let mut lists = vec![&g.configuration_list];
    for t in &g.targets {
        lists.push(&t.configuration_list);
    }
    for l in lists {
        let names: Vec<&str> = l.configurations.iter().map(|c| c.name.as_str()).collect();
        assert_eq!(names, vec!["Release", "Debug"]);
        assert_eq!(l.default_name, "Release");
    }
    let text = generate(package(vec![target("a", &["bin"]), target("b", &["staticlib"])]));
    assert_eq!(text.matches("defaultConfigurationName = \"Release\";").count(), 3);
}

#[test]
fn document_frame() {
    let text = generate(package(vec![target("a", &["bin"])]));
    assert!(text.starts_with("// !$*UTF8*$!\n{\n\tarchiveVersion = 1;"));
    assert!(text.contains("objectVersion = 53;"));
    let g = graph_of(package(vec![target("a", &["bin"])]));
    assert!(text.ends_with(&format!("\trootObject = {} /* Project object */;\n}}\n", g.project)));
    assert_eq!(text.matches('{').count(), text.matches('}').count());
}

#[test]
fn settings_of_products() {
    let mut p = package(vec![target("foo-bar", &["cdylib"]), target("foo", &["bin"])]);
    p.version = version(2, 3, 4);
    let text = generate(p);
    assert!(text.contains("\"CARGO_XCODE_CARGO_DEP_FILE_NAME\" = \"libfoo_bar.d\";"));
    assert!(text.contains("\"CARGO_XCODE_CARGO_DEP_FILE_NAME\" = \"foo.d\";"));
    assert!(text.contains("\"DYLIB_COMPATIBILITY_VERSION\" = \"2\";"));
    assert!(text.contains("\"CURRENT_PROJECT_VERSION\" = \"2.3\";"));
    assert!(text.contains("\"MARKETING_VERSION\" = \"2.3.4\";"));
    let mut p = package(vec![target("foo-bar", &["cdylib"])]);
    p.version = version(1, 0, 0);
    assert!(!generate(p).contains("DYLIB_COMPATIBILITY_VERSION"));
}

#[test]
fn static_settings_skip_install() {
    let text = generate(package(vec![target("s", &["staticlib"])]));
    assert!(text.contains("\"SKIP_INSTALL\" = \"YES\";"));
    assert!(text.contains("\"INSTALL_OWNER\" = \"\";"));
    let text = generate(package(vec![target("s", &["cdylib"])]));
    assert!(!text.contains("SKIP_INSTALL"));
}

#[test]
fn version_text_has_pre_and_build() {
    let v = PackageVersion {
        major: 1,
        minor: 2,
        patch: 3,
        pre: "beta.1".to_string(),
        build: "meta".to_string(),
    };
    assert_eq!(version_string(&v), "1.2.3-beta.1+meta");
    assert_eq!(version_string(&version(10, 0, 7)), "10.0.7");
}

#[test]
fn manifest_path_relative_to_output_dir() {
    let g = Generator::new(package(vec![]), Some("/work".to_string()), None);
    assert_eq!(g.manifest_reference_path(), Some("demo/Cargo.toml".to_string()));
    let g = Generator::new(package(vec![]), Some("/work/demo/xcode".to_string()), None);
    assert_eq!(g.manifest_reference_path(), Some("../Cargo.toml".to_string()));
    let text = g.pbxproj().unwrap();
    assert!(text.contains("path = \"../Cargo.toml\";"));
    let g = Generator::new(package(vec![]), None, None);
    assert_eq!(g.manifest_reference_path(), Some("Cargo.toml".to_string()));
}

#[test]
fn relative_manifest_under_absolute_dir_fails() {
    let mut p = package(vec![target("a", &["bin"])]);
    p.manifest_path = "demo/Cargo.toml".to_string();
    let g = Generator::new(p, Some("/out".to_string()), None);
    assert_eq!(g.pbxproj(), Err(GenerateError::ManifestPathNotRelative));
}

#[test]
fn seed_is_crc64_ecma_182() {
    assert_eq!(IdAllocator::new("123456789").seed, 0x6c40df5f0b497347);
    assert_eq!(IdAllocator::new("").seed, 0);
}

#[test]
fn make_id_shape() {
    let ids = IdAllocator::new("pkg");
    let a = ids.make_id("", "Products");
    assert_eq!(a.len(), 24);
    assert!(a.starts_with("CA60"));
    assert!(a.chars().all(|c| c.is_ascii_digit() || ('A'..='F').contains(&c)));
    assert_eq!(a, ids.make_id("", "Products"));
    assert_ne!(a, ids.make_id("", "Frameworks"));
    assert_ne!(a, ids.make_id("x", "Products"));
    assert_ne!(a, IdAllocator::new("other").make_id("", "Products"));
}

#[test]
fn text_helpers() {
    assert_eq!(quote("a\"b\\c\nd"), "\"a\\\"b\\\\c\\nd\"");
    assert_eq!(quote(""), "\"\"");
    assert_eq!(hex_string(255, 4), "00FF");
    assert_eq!(hex_string(0x1_2345_6789_ABCD, 12), "123456789ABCD");
    assert_eq!(hex_string(0, 0), "");
    assert_eq!(decimal_string(0), "0");
    assert_eq!(decimal_string(1234), "1234");
    assert_eq!(underscore("a-b-c"), "a_b_c");
    assert_eq!(join_commas(&strings(&["x", "y", "z"])), "x,y,z");
    assert_eq!(join_commas(&Vec::new()), "");
    assert!(same_text("bin", "bin"));
    assert!(!same_text("bin", "bins"));
}

#[test]
fn scripts_are_quoted_in_output() {
    let text = generate(package(vec![target("a", &["bin"])]));
    assert!(text.contains("script = \"\\nset -eu; export PATH=\\\"$HOME/.cargo/bin:$PATH:/usr/local/bin\\\";\\n"));
    assert!(text.contains("shellScript = \"\\nset -eux;"));
}

#[test]
fn relevant_targets_and_filtering() {
    assert!(is_relevant_target(&target("a", &["lib", "staticlib"])));
    assert!(!is_relevant_target(&target("a", &["lib", "test"])));
    let p = filter_package(package(vec![
        target("l", &["lib"]),
        target("b", &["bin"]),
        target("t", &["test"]),
    ]))
    .unwrap();
    assert_eq!(p.targets.len(), 1);
    assert_eq!(p.targets[0].name, "b");
    assert!(filter_package(package(vec![target("l", &["lib"])])).is_none());
}
