//! The objects of a project file, as structured data: one cluster of objects
//! for each product, and the objects the whole project shares.
use vstd::prelude::*;
use crate::ids::{token_for, IdAllocator};
use crate::targets::{
    emission_views, opt_text, spec_file_type, spec_platforms, EmissionTarget, EmissionView, PackageVersion,
    TargetKind,
};
use crate::text::{decimal, decimal_string};

verus! {

/// One build setting: a key and its value.
pub struct Setting {
    pub key: String,
    pub value: String,
}

/// A named set of build settings.
pub struct Configuration {
    pub id: String,
    pub name: String,
    pub settings: Vec<Setting>,
}

/// The configurations of a target or of the project, and which of them is
/// the default.
pub struct ConfigurationList {
    pub id: String,
    pub configurations: Vec<Configuration>,
    pub default_name: String,
}

/// The objects that build one product.
pub struct TargetObjects {
    pub target: crate::targets::EmissionTarget,
    /// The file reference of the product; the other tokens derive from it.
    pub product_ref: String,
    pub native_target: String,
    /// The phase that compiles the manifest with this product's flags.
    pub sources_phase: String,
    /// The manifest's entry in the sources phase.
    pub manifest_build_file: String,
    pub configuration_list: ConfigurationList,
}

/// A group of the project navigator.
pub struct Group {
    pub id: String,
    /// Empty for a group without a name.
    pub name: String,
    pub children: Vec<String>,
}

/// All the objects of one project file.
pub struct ProjectGraph {
    pub project: String,
    /// The file reference of the package manifest.
    pub manifest_ref: String,
    /// The manifest's path, relative to the project's directory.
    pub manifest_path: String,
    /// The file reference of the system resolver library, which static
    /// libraries need on mobile platforms.
    pub system_library: Option<String>,
    pub main_group: Group,
    pub products_group: Group,
    pub frameworks_group: Group,
    /// The build rule that runs Cargo for the manifest.
    pub build_rule: String,
    /// The phase that merges the per-architecture builds.
    pub merge_phase: String,
    pub configuration_list: ConfigurationList,
    /// One cluster for each product, in the order of the products.
    pub targets: Vec<TargetObjects>,
    /// The project's list of native targets.
    pub target_list: Vec<String>,
}

/// The value of a `Setting`.
pub type SettingView = (Seq<char>, Seq<char>);

pub struct ConfigurationView {
    pub id: Seq<char>,
    pub name: Seq<char>,
    pub settings: Seq<SettingView>,
}

pub struct ConfigurationListView {
    pub id: Seq<char>,
    pub configurations: Seq<ConfigurationView>,
    pub default_name: Seq<char>,
}

pub struct TargetObjectsView {
    pub target: EmissionView,
    pub product_ref: Seq<char>,
    pub native_target: Seq<char>,
    pub sources_phase: Seq<char>,
    pub manifest_build_file: Seq<char>,
    pub configuration_list: ConfigurationListView,
}

pub struct GroupView {
    pub id: Seq<char>,
    pub name: Seq<char>,
    pub children: Seq<Seq<char>>,
}

pub struct GraphView {
    pub project: Seq<char>,
    pub manifest_ref: Seq<char>,
    pub manifest_path: Seq<char>,
    pub system_library: Option<Seq<char>>,
    pub main_group: GroupView,
    pub products_group: GroupView,
    pub frameworks_group: GroupView,
    pub build_rule: Seq<char>,
    pub merge_phase: Seq<char>,
    pub configuration_list: ConfigurationListView,
    pub targets: Seq<TargetObjectsView>,
    pub target_list: Seq<Seq<char>>,
}

pub open spec fn settings_view(v: Seq<Setting>) -> Seq<SettingView> {
    v.map_values(|s: Setting| (s.key@, s.value@))
}

pub open spec fn strings_view(v: Seq<String>) -> Seq<Seq<char>> {
    v.map_values(|s: String| s@)
}

impl View for Configuration {
    type V = ConfigurationView;

    open spec fn view(&self) -> ConfigurationView {
        ConfigurationView { id: self.id@, name: self.name@, settings: settings_view(self.settings@) }
    }
}

impl View for ConfigurationList {
    type V = ConfigurationListView;

    open spec fn view(&self) -> ConfigurationListView {
        ConfigurationListView {
            id: self.id@,
            configurations: self.configurations@.map_values(|c: Configuration| c@),
            default_name: self.default_name@,
        }
    }
}

impl View for TargetObjects {
    type V = TargetObjectsView;

    open spec fn view(&self) -> TargetObjectsView {
        TargetObjectsView {
            target: self.target@,
            product_ref: self.product_ref@,
            native_target: self.native_target@,
            sources_phase: self.sources_phase@,
            manifest_build_file: self.manifest_build_file@,
            configuration_list: self.configuration_list@,
        }
    }
}

impl View for Group {
    type V = GroupView;

    open spec fn view(&self) -> GroupView {
        GroupView { id: self.id@, name: self.name@, children: strings_view(self.children@) }
    }
}

impl View for ProjectGraph {
    type V = GraphView;

    open spec fn view(&self) -> GraphView {
        GraphView {
            project: self.project@,
            manifest_ref: self.manifest_ref@,
            manifest_path: self.manifest_path@,
            system_library: opt_text(self.system_library),
            main_group: self.main_group@,
            products_group: self.products_group@,
            frameworks_group: self.frameworks_group@,
            build_rule: self.build_rule@,
            merge_phase: self.merge_phase@,
            configuration_list: self.configuration_list@,
            targets: self.targets@.map_values(|t: TargetObjects| t@),
            target_list: strings_view(self.target_list@),
        }
    }
}

/// Position of the last `.` among the first `n` characters of `f`, or -1.
pub open spec fn last_dot(f: Seq<char>, n: nat) -> int
    decreases n,
{
    if n == 0 {
        -1
    } else if f[n - 1] == '.' {
        n - 1
    } else {
        last_dot(f, (n - 1) as nat)
    }
}

/// The file name with its extension replaced by `d` (or `.d` added where it
/// has none): the name of the dependency file Cargo writes beside it.
pub open spec fn dep_file_name(f: Seq<char>) -> Seq<char> {
    let d = last_dot(f, f.len());
    if d > 0 {
        f.take(d) + ".d"@
    } else {
        f + ".d"@
    }
}

/// The build settings of each configuration of a product: its names, its
/// platforms, and what installing and dynamic-library versioning need.
pub open spec fn target_settings(e: EmissionView, major: u64) -> Seq<SettingView> {
    seq![
        ("PRODUCT_NAME"@, e.xcode_product_name),
        ("CARGO_XCODE_CARGO_FILE_NAME"@, e.cargo_file_name),
        ("CARGO_XCODE_CARGO_DEP_FILE_NAME"@, dep_file_name(e.cargo_file_name)),
        ("SUPPORTED_PLATFORMS"@, spec_platforms(e.kind)),
    ] + (if e.skip_install {
        seq![
            ("SKIP_INSTALL"@, "YES"@),
            ("INSTALL_GROUP"@, ""@),
            ("INSTALL_MODE_FLAG"@, ""@),
            ("INSTALL_OWNER"@, ""@),
        ]
    } else {
        Seq::empty()
    }) + (if e.kind == TargetKind::DynamicLibrary && major != 1 {
        seq![("DYLIB_COMPATIBILITY_VERSION"@, decimal(major as nat))]
    } else {
        Seq::empty()
    })
}

/// The token of a product's file reference.
pub open spec fn product_token(seed: u64, e: EmissionView) -> Seq<char> {
    token_for(seed, spec_file_type(e.kind), e.cargo_file_name)
}

/// The Release and Debug configurations, with Release the default.
pub open spec fn configuration_pair(
    id: Seq<char>,
    release_id: Seq<char>,
    release: Seq<SettingView>,
    debug_id: Seq<char>,
    debug: Seq<SettingView>,
) -> ConfigurationListView {
    ConfigurationListView {
        id,
        configurations: seq![
            ConfigurationView { id: release_id, name: "Release"@, settings: release },
            ConfigurationView { id: debug_id, name: "Debug"@, settings: debug },
        ],
        default_name: "Release"@,
    }
}

/// The objects of one product; every token is drawn in a namespace of the
/// product's own token.
pub open spec fn target_objects(seed: u64, e: EmissionView, major: u64) -> TargetObjectsView {
    let prod = product_token(seed, e);
    let settings = target_settings(e, major);
    TargetObjectsView {
        target: e,
        product_ref: prod,
        native_target: token_for(seed, spec_file_type(e.kind), prod),
        sources_phase: token_for(seed, "<cargo>"@, prod),
        manifest_build_file: token_for(seed, "<cargo-toml>"@, prod),
        configuration_list: configuration_pair(
            token_for(seed, "<config-list>"@, prod),
            token_for(seed, "<config-release>"@, prod),
            settings,
            token_for(seed, "<config-debug>"@, prod),
            settings,
        ),
    }
}

/// The version as Cargo prints it.
pub open spec fn version_text(v: PackageVersion) -> Seq<char> {
    decimal(v.major as nat) + "."@ + decimal(v.minor as nat) + "."@ + decimal(v.patch as nat) + (
    if v.pre@.len() > 0 {
        "-"@ + v.pre@
    } else {
        Seq::empty()
    }) + (if v.build@.len() > 0 {
        "+"@ + v.build@
    } else {
        Seq::empty()
    })
}

/// The settings both project configurations share: how Xcode's
/// architectures and SDKs map to Rust's, and the package's name and version.
pub open spec fn common_settings(name: Seq<char>, v: PackageVersion) -> Seq<SettingView> {
    seq![
        ("ALWAYS_SEARCH_USER_PATHS"@, "NO"@),
        ("SUPPORTS_MACCATALYST"@, "YES"@),
        ("CARGO_TARGET_DIR"@, "$(PROJECT_TEMP_DIR)/cargo_target"@),
        ("CARGO_XCODE_FEATURES"@, ""@),
        ("CARGO_XCODE_TARGET_ARCH[arch=arm64*]"@, "aarch64"@),
        ("CARGO_XCODE_TARGET_ARCH[arch=x86_64*]"@, "x86_64"@),
        ("CARGO_XCODE_TARGET_ARCH[arch=i386]"@, "i686"@),
        ("CARGO_XCODE_TARGET_OS[sdk=macosx*]"@, "darwin"@),
        ("CARGO_XCODE_TARGET_OS[sdk=iphonesimulator*]"@, "ios-sim"@),
        ("CARGO_XCODE_TARGET_OS[sdk=iphonesimulator*][arch=x86_64*]"@, "ios"@),
        ("CARGO_XCODE_TARGET_OS[sdk=iphoneos*]"@, "ios"@),
        ("CARGO_XCODE_TARGET_OS[sdk=appletvsimulator*]"@, "tvos"@),
        ("CARGO_XCODE_TARGET_OS[sdk=appletvos*]"@, "tvos"@),
        ("PRODUCT_NAME"@, name),
        ("MARKETING_VERSION"@, version_text(v)),
        ("CURRENT_PROJECT_VERSION"@, decimal(v.major as nat) + "."@ + decimal(v.minor as nat)),
        ("SDKROOT"@, "macosx"@),
    ]
}

/// The project's Release settings.
pub open spec fn release_settings(name: Seq<char>, v: PackageVersion) -> Seq<SettingView> {
    common_settings(name, v).push(("CARGO_XCODE_BUILD_MODE"@, "release"@))
}

/// The project's Debug settings.
pub open spec fn debug_settings(name: Seq<char>, v: PackageVersion) -> Seq<SettingView> {
    common_settings(name, v).push(("CARGO_XCODE_BUILD_MODE"@, "debug"@)).push(
        ("ONLY_ACTIVE_ARCH"@, "YES"@),
    )
}

/// Whether any product is a static library.
pub open spec fn has_static(es: Seq<EmissionView>) -> bool {
    exists|i: int| 0 <= i < es.len() && (#[trigger] es[i]).kind == TargetKind::StaticLibrary
}

/// The whole object graph of the project of a package with seed `seed`,
/// name `name` and version `v`, whose products are `es` and whose manifest
/// lies at `manifest_path` relative to the project.
pub open spec fn spec_graph(
    seed: u64,
    name: Seq<char>,
    v: PackageVersion,
    es: Seq<EmissionView>,
    manifest_path: Seq<char>,
) -> GraphView {
    let manifest_ref = token_for(seed, ""@, "Cargo.toml"@);
    let system_library = if has_static(es) {
        Some(token_for(seed, ""@, "libresolv.tbd"@))
    } else {
        None
    };
    let products_group = GroupView {
        id: token_for(seed, ""@, "Products"@),
        name: "Products"@,
        children: es.map_values(|e: EmissionView| product_token(seed, e)),
    };
    let frameworks_group = GroupView {
        id: token_for(seed, ""@, "Frameworks"@),
        name: "Frameworks"@,
        children: match system_library {
            Some(l) => seq![l],
            None => Seq::empty(),
        },
    };
    let targets = es.map_values(|e: EmissionView| target_objects(seed, e, v.major));
    GraphView {
        project: token_for(seed, ""@, "<project>"@),
        manifest_ref,
        manifest_path,
        system_library,
        main_group: GroupView {
            id: token_for(seed, ""@, "<root>"@),
            name: ""@,
            children: seq![manifest_ref, products_group.id, frameworks_group.id],
        },
        products_group,
        frameworks_group,
        build_rule: token_for(seed, ""@, "BuildRule"@),
        merge_phase: token_for(seed, ""@, "LipoScript"@),
        configuration_list: configuration_pair(
            token_for(seed, ""@, "<configuration-list>"@),
            token_for(seed, "configuration"@, "Release"@),
            release_settings(name, v),
            token_for(seed, "configuration"@, "Debug"@),
            debug_settings(name, v),
        ),
        targets,
        target_list: targets.map_values(|t: TargetObjectsView| t.native_target),
    }
}

fn setting(key: &str, value: String) -> (r: Setting)
    ensures
        r.key@ == key@,
        r.value@ == value@,
{
    Setting { key: String::from_str(key), value }
}

/// Renders `dep_file_name(f@)`.
fn dep_file_name_of(f: &str) -> (r: String)
    ensures
        r@ == dep_file_name(f@),
{
    let n = f.unicode_len();
    let mut k = n;
    while k > 0 && f.get_char(k - 1) != '.'
        invariant
            n == f@.len(),
            k <= n,
            last_dot(f@, k as nat) == last_dot(f@, n as nat),
        decreases k,
    {
        k = k - 1;
    }
    if k > 1 {
        f.substring_char(0, k - 1).to_owned().concat(".d")
    } else {
        f.to_owned().concat(".d")
    }
}

/// The build settings of each configuration of a product.
fn product_settings(e: &EmissionTarget, major: u64) -> (r: Vec<Setting>)
    ensures
        settings_view(r@) == target_settings(e@, major),
{
    let mut r: Vec<Setting> = Vec::new();
    r.push(setting("PRODUCT_NAME", e.xcode_product_name.clone()));
    r.push(setting("CARGO_XCODE_CARGO_FILE_NAME", e.cargo_file_name.clone()));
    r.push(setting("CARGO_XCODE_CARGO_DEP_FILE_NAME", dep_file_name_of(e.cargo_file_name.as_str())));
    r.push(setting("SUPPORTED_PLATFORMS", String::from_str(e.kind.supported_platforms())));
    if e.skip_install {
        r.push(setting("SKIP_INSTALL", String::from_str("YES")));
        r.push(setting("INSTALL_GROUP", String::new()));
        r.push(setting("INSTALL_MODE_FLAG", String::new()));
        r.push(setting("INSTALL_OWNER", String::new()));
    }
    if e.kind == TargetKind::DynamicLibrary && major != 1 {
        r.push(setting("DYLIB_COMPATIBILITY_VERSION", decimal_string(major)));
    }
    proof {
        assert(""@ =~= Seq::<char>::empty()) by {
            reveal_strlit("");
        }
        assert(settings_view(r@) =~= target_settings(e@, major));
    }
    r
}

/// The Release and Debug configurations, with Release the default.
fn make_configuration_pair(
    id: String,
    release_id: String,
    release: Vec<Setting>,
    debug_id: String,
    debug: Vec<Setting>,
) -> (r: ConfigurationList)
    ensures
        r@ == configuration_pair(
            id@,
            release_id@,
            settings_view(release@),
            debug_id@,
            settings_view(debug@),
        ),
{
    let mut configurations: Vec<Configuration> = Vec::new();
    configurations.push(
        Configuration { id: release_id, name: String::from_str("Release"), settings: release },
    );
    configurations.push(
        Configuration { id: debug_id, name: String::from_str("Debug"), settings: debug },
    );
    let r = ConfigurationList { id, configurations, default_name: String::from_str("Release") };
    assert(r@.configurations =~= configuration_pair(
        id@,
        release_id@,
        settings_view(release@),
        debug_id@,
        settings_view(debug@),
    ).configurations);
    r
}

/// The objects that build one product.
pub fn target_objects_of(ids: &IdAllocator, target: EmissionTarget, major: u64) -> (r:
    TargetObjects)
    ensures
        r@ == target_objects(ids.seed, target@, major),
{
    let file_type = target.kind.file_type();
    let prod = ids.make_id(file_type, target.cargo_file_name.as_str());
    let native_target = ids.make_id(file_type, prod.as_str());
    let list_id = ids.make_id("<config-list>", prod.as_str());
    let release_id = ids.make_id("<config-release>", prod.as_str());
    let debug_id = ids.make_id("<config-debug>", prod.as_str());
    let sources_phase = ids.make_id("<cargo>", prod.as_str());
    let manifest_build_file = ids.make_id("<cargo-toml>", prod.as_str());
    let release = product_settings(&target, major);
    let debug = product_settings(&target, major);
    let configuration_list = make_configuration_pair(list_id, release_id, release, debug_id, debug);
    TargetObjects {
        target,
        product_ref: prod,
        native_target,
        sources_phase,
        manifest_build_file,
        configuration_list,
    }
}

/// Renders `version_text(*v)`.
pub fn version_string(v: &PackageVersion) -> (r: String)
    ensures
        r@ == version_text(*v),
{
    let mut r = decimal_string(v.major);
    r.append(".");
    r.append(decimal_string(v.minor).as_str());
    r.append(".");
    r.append(decimal_string(v.patch).as_str());
    let ghost base = r@;
    if !v.pre.as_str().is_empty() {
        r.append(String::from_str("-").concat(v.pre.as_str()).as_str());
    } else {
        assert(base + Seq::<char>::empty() =~= base);
    }
    let ghost middle = r@;
    if !v.build.as_str().is_empty() {
        r.append(String::from_str("+").concat(v.build.as_str()).as_str());
    } else {
        assert(middle + Seq::<char>::empty() =~= middle);
    }
    r
}

/// The project's settings for one build mode: the common ones, then the
/// mode, and for Debug a build of the active architecture only.
fn project_settings(name: &str, v: &PackageVersion, release: bool) -> (r: Vec<Setting>)
    ensures
        settings_view(r@) == if release {
            release_settings(name@, *v)
        } else {
            debug_settings(name@, *v)
        },
{
    let mut r: Vec<Setting> = Vec::new();
    r.push(setting("ALWAYS_SEARCH_USER_PATHS", String::from_str("NO")));
    r.push(setting("SUPPORTS_MACCATALYST", String::from_str("YES")));
    r.push(setting("CARGO_TARGET_DIR", String::from_str("$(PROJECT_TEMP_DIR)/cargo_target")));
    r.push(setting("CARGO_XCODE_FEATURES", String::new()));
    r.push(setting("CARGO_XCODE_TARGET_ARCH[arch=arm64*]", String::from_str("aarch64")));
    r.push(setting("CARGO_XCODE_TARGET_ARCH[arch=x86_64*]", String::from_str("x86_64")));
    r.push(setting("CARGO_XCODE_TARGET_ARCH[arch=i386]", String::from_str("i686")));
    r.push(setting("CARGO_XCODE_TARGET_OS[sdk=macosx*]", String::from_str("darwin")));
    r.push(setting("CARGO_XCODE_TARGET_OS[sdk=iphonesimulator*]", String::from_str("ios-sim")));
    r.push(
        setting(
            "CARGO_XCODE_TARGET_OS[sdk=iphonesimulator*][arch=x86_64*]",
            String::from_str("ios"),
        ),
    );
    r.push(setting("CARGO_XCODE_TARGET_OS[sdk=iphoneos*]", String::from_str("ios")));
    r.push(setting("CARGO_XCODE_TARGET_OS[sdk=appletvsimulator*]", String::from_str("tvos")));
    r.push(setting("CARGO_XCODE_TARGET_OS[sdk=appletvos*]", String::from_str("tvos")));
    r.push(setting("PRODUCT_NAME", String::from_str(name)));
    r.push(setting("MARKETING_VERSION", version_string(v)));
    let mut current = decimal_string(v.major);
    current.append(".");
    current.append(decimal_string(v.minor).as_str());
    r.push(setting("CURRENT_PROJECT_VERSION", current));
    r.push(setting("SDKROOT", String::from_str("macosx")));
    if release {
        r.push(setting("CARGO_XCODE_BUILD_MODE", String::from_str("release")));
    } else {
        r.push(setting("CARGO_XCODE_BUILD_MODE", String::from_str("debug")));
        r.push(setting("ONLY_ACTIVE_ARCH", String::from_str("YES")));
    }
    proof {
        assert(""@ =~= Seq::<char>::empty()) by {
            reveal_strlit("");
        }
        if release {
            assert(settings_view(r@) =~= release_settings(name@, *v));
        } else {
            assert(settings_view(r@) =~= debug_settings(name@, *v));
        }
    }
    r
}

/// Builds the whole object graph (see `spec_graph`) of a package named
/// `name` with version `v`, whose products are `targets` and whose manifest
/// lies at `manifest_path` relative to the project.
pub fn build_graph(
    ids: &IdAllocator,
    name: &str,
    v: &PackageVersion,
    targets: Vec<EmissionTarget>,
    manifest_path: String,
) -> (r: ProjectGraph)
    ensures
        r@ == spec_graph(ids.seed, name@, *v, emission_views(targets@), manifest_path@),
{
    let ghost es = emission_views(targets@);
    let ghost seed = ids.seed;
    let ghost major = v.major;
    let ghost all_objects = es.map_values(|e: EmissionView| target_objects(seed, e, major));
    let ghost all_products = es.map_values(|e: EmissionView| product_token(seed, e));
    let ghost all_natives = all_objects.map_values(|t: TargetObjectsView| t.native_target);
    let n = targets.len();
    let mut rest = targets;
    let mut clusters: Vec<TargetObjects> = Vec::new();
    let mut product_refs: Vec<String> = Vec::new();
    let mut target_list: Vec<String> = Vec::new();
    let mut any_static = false;
    let mut i: usize = 0;
    while rest.len() > 0
        invariant
            n == es.len(),
            i + rest@.len() == n,
            clusters@.len() == i,
            product_refs@.len() == i,
            target_list@.len() == i,
            emission_views(rest@) == es.skip(i as int),
            clusters@.map_values(|t: TargetObjects| t@) == all_objects.take(i as int),
            strings_view(product_refs@) == all_products.take(i as int),
            strings_view(target_list@) == all_natives.take(i as int),
            any_static == has_static(es.take(i as int)),
            seed == ids.seed,
            major == v.major,
            all_objects == es.map_values(|e: EmissionView| target_objects(seed, e, major)),
            all_products == es.map_values(|e: EmissionView| product_token(seed, e)),
            all_natives == all_objects.map_values(|t: TargetObjectsView| t.native_target),
        decreases rest@.len(),
    {
        let ghost old_rest = rest@;
        let e = rest.remove(0);
        assert(e@ == es[i as int]) by {
            assert(emission_views(old_rest)[0] == e@);
        }
        assert forall|k: int| 0 <= k < rest@.len() implies emission_views(rest@)[k] == es.skip(
            i + 1,
        )[k] by {
            assert(rest@[k] == old_rest[k + 1]);
            assert(emission_views(old_rest)[k + 1] == es.skip(i as int)[k + 1]);
        }
        assert(emission_views(rest@) =~= es.skip(i + 1));
        if e.kind == TargetKind::StaticLibrary {
            any_static = true;
        }
        assert(any_static == has_static(es.take(i + 1))) by {
            let t = es.take(i + 1);
            if has_static(es.take(i as int)) {
                let j = choose|j: int| 0 <= j < i && (#[trigger] es.take(i as int)[j]).kind
                    == TargetKind::StaticLibrary;
                assert(t[j] == es.take(i as int)[j]);
            }
            if e.kind == TargetKind::StaticLibrary {
                assert(t[i as int].kind == TargetKind::StaticLibrary);
            }
            if has_static(t) {
                let j = choose|j: int| 0 <= j < t.len() && (#[trigger] t[j]).kind
                    == TargetKind::StaticLibrary;
                if j < i {
                    assert(es.take(i as int)[j] == t[j]);
                }
            }
        }
        let objects = target_objects_of(ids, e, v.major);
        let ghost prev_clusters = clusters@;
        let ghost prev_refs = product_refs@;
        let ghost prev_list = target_list@;
        let ghost ov = objects@;
        assert(ov == all_objects[i as int]);
        product_refs.push(objects.product_ref.clone());
        target_list.push(objects.native_target.clone());
        clusters.push(objects);
        assert(clusters@.map_values(|t: TargetObjects| t@) =~= all_objects.take(i + 1)) by {
            assert(clusters@[i as int]@ == ov);
            assert forall|k: int| 0 <= k < i implies clusters@[k] == prev_clusters[k] by {}
        }
        assert(strings_view(product_refs@) =~= all_products.take(i + 1)) by {
            assert(product_refs@[i as int]@ == ov.product_ref);
            assert(all_products[i as int] == ov.product_ref);
            assert forall|k: int| 0 <= k < i implies product_refs@[k] == prev_refs[k] by {}
        }
        assert(strings_view(target_list@) =~= all_natives.take(i + 1)) by {
            assert(target_list@[i as int]@ == ov.native_target);
            assert(all_natives[i as int] == ov.native_target);
            assert forall|k: int| 0 <= k < i implies target_list@[k] == prev_list[k] by {}
        }
        i = i + 1;
    }
    assert(es.take(n as int) =~= es);
    assert(all_objects.take(n as int) =~= all_objects);
    assert(all_products.take(n as int) =~= all_products);
    assert(all_natives.take(n as int) =~= all_natives);
    let ghost g = spec_graph(seed, name@, *v, es, manifest_path@);
    let manifest_ref = ids.make_id("", "Cargo.toml");
    let products_id = ids.make_id("", "Products");
    let frameworks_id = ids.make_id("", "Frameworks");
    let mut main_children: Vec<String> = Vec::new();
    main_children.push(manifest_ref.clone());
    main_children.push(products_id.clone());
    main_children.push(frameworks_id.clone());
    let mut framework_children: Vec<String> = Vec::new();
    let system_library = if any_static {
        let l = ids.make_id("", "libresolv.tbd");
        framework_children.push(l.clone());
        Some(l)
    } else {
        None
    };
    let configuration_list = make_configuration_pair(
        ids.make_id("", "<configuration-list>"),
        ids.make_id("configuration", "Release"),
        project_settings(name, v, true),
        ids.make_id("configuration", "Debug"),
        project_settings(name, v, false),
    );
    let r = ProjectGraph {
        project: ids.make_id("", "<project>"),
        manifest_ref,
        manifest_path,
        system_library,
        main_group: Group { id: ids.make_id("", "<root>"), name: String::new(), children: main_children },
        products_group: Group {
            id: products_id,
            name: String::from_str("Products"),
            children: product_refs,
        },
        frameworks_group: Group {
            id: frameworks_id,
            name: String::from_str("Frameworks"),
            children: framework_children,
        },
        build_rule: ids.make_id("", "BuildRule"),
        merge_phase: ids.make_id("", "LipoScript"),
        configuration_list,
        targets: clusters,
        target_list,
    };
    proof {
        reveal_strlit("");
        assert(r@.main_group.children =~= g.main_group.children);
        assert(r@.main_group.name =~= g.main_group.name);
        assert(r@.frameworks_group.children =~= g.frameworks_group.children);
        assert(r@.targets =~= g.targets);
        assert(r@.target_list =~= g.target_list);
        assert(r@.products_group.children =~= g.products_group.children);
    }
    r
}

} // verus!
