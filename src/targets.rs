//! The package as Cargo describes it, and the classification of its targets
//! into the products that an Xcode project builds.
use vstd::prelude::*;
use crate::text::{
    comma_joined, join_commas, same_text, texts, underscore, underscored,
};

verus! {

/// A semantic version.
#[derive(Clone, Debug)]
pub struct PackageVersion {
    pub major: u64,
    pub minor: u64,
    pub patch: u64,
    /// Pre-release identifiers, empty when there are none.
    pub pre: String,
    /// Build metadata, empty when there is none.
    pub build: String,
}

/// One target of a package: its name, its kinds (`bin`, `cdylib`,
/// `staticlib`, `test`, ...) and the features it requires.
#[derive(Clone, Debug)]
pub struct TargetInfo {
    pub name: String,
    pub kind: Vec<String>,
    pub required_features: Vec<String>,
}

/// What the project generation reads of a package.
#[derive(Clone, Debug)]
pub struct PackageInfo {
    /// The package's unique identity.
    pub id: String,
    pub name: String,
    pub version: PackageVersion,
    pub manifest_path: String,
    /// The targets in the order Cargo lists them.
    pub targets: Vec<TargetInfo>,
}

/// The kinds of product that a project builds.
#[derive(PartialEq, Eq, Structural, Clone, Copy, Debug)]
pub enum TargetKind {
    Executable,
    DynamicLibrary,
    StaticLibrary,
}

/// The product kind of a Cargo target kind, if it is one that is built.
pub open spec fn kind_of_tag(tag: Seq<char>) -> Option<TargetKind> {
    if tag == "bin"@ {
        Some(TargetKind::Executable)
    } else if tag == "cdylib"@ {
        Some(TargetKind::DynamicLibrary)
    } else if tag == "staticlib"@ {
        Some(TargetKind::StaticLibrary)
    } else {
        None
    }
}

/// The Cargo kind a product kind comes from.
pub open spec fn spec_tag(k: TargetKind) -> Seq<char> {
    match k {
        TargetKind::Executable => "bin"@,
        TargetKind::DynamicLibrary => "cdylib"@,
        TargetKind::StaticLibrary => "staticlib"@,
    }
}

/// Xcode's file type of the product.
pub open spec fn spec_file_type(k: TargetKind) -> Seq<char> {
    match k {
        TargetKind::Executable => "compiled.mach-o.executable"@,
        TargetKind::DynamicLibrary => "compiled.mach-o.dylib"@,
        TargetKind::StaticLibrary => "archive.ar"@,
    }
}

/// Xcode's product type.
pub open spec fn spec_product_type(k: TargetKind) -> Seq<char> {
    match k {
        TargetKind::Executable => "com.apple.product-type.tool"@,
        TargetKind::DynamicLibrary => "com.apple.product-type.library.dynamic"@,
        TargetKind::StaticLibrary => "com.apple.product-type.library.static"@,
    }
}

/// The platforms the product is built for: static libraries go to the
/// simulators and devices too, the rest to macOS only.
pub open spec fn spec_platforms(k: TargetKind) -> Seq<char> {
    match k {
        TargetKind::StaticLibrary => "macosx iphonesimulator iphoneos appletvsimulator appletvos"@,
        _ => "macosx"@,
    }
}

impl TargetKind {
    /// Classifies a Cargo target kind.
    pub fn from_tag(tag: &str) -> (r: Option<TargetKind>)
        ensures
            r == kind_of_tag(tag@),
    {
        if same_text(tag, "bin") {
            Some(TargetKind::Executable)
        } else if same_text(tag, "cdylib") {
            Some(TargetKind::DynamicLibrary)
        } else if same_text(tag, "staticlib") {
            Some(TargetKind::StaticLibrary)
        } else {
            None
        }
    }

    pub fn tag(&self) -> (r: &'static str)
        ensures
            r@ == spec_tag(*self),
    {
        match self {
            TargetKind::Executable => "bin",
            TargetKind::DynamicLibrary => "cdylib",
            TargetKind::StaticLibrary => "staticlib",
        }
    }

    pub fn file_type(&self) -> (r: &'static str)
        ensures
            r@ == spec_file_type(*self),
    {
        match self {
            TargetKind::Executable => "compiled.mach-o.executable",
            TargetKind::DynamicLibrary => "compiled.mach-o.dylib",
            TargetKind::StaticLibrary => "archive.ar",
        }
    }

    pub fn product_type(&self) -> (r: &'static str)
        ensures
            r@ == spec_product_type(*self),
    {
        match self {
            TargetKind::Executable => "com.apple.product-type.tool",
            TargetKind::DynamicLibrary => "com.apple.product-type.library.dynamic",
            TargetKind::StaticLibrary => "com.apple.product-type.library.static",
        }
    }

    pub fn supported_platforms(&self) -> (r: &'static str)
        ensures
            r@ == spec_platforms(*self),
    {
        match self {
            TargetKind::StaticLibrary => "macosx iphonesimulator iphoneos appletvsimulator appletvos",
            _ => "macosx",
        }
    }
}

/// One product of the project: a target of the package built as one kind.
pub struct EmissionTarget {
    pub kind: TargetKind,
    /// The name the product is known by in the project.
    pub base_name: String,
    /// The name of the file that Cargo builds.
    pub cargo_file_name: String,
    pub xcode_product_name: String,
    pub xcode_file_name: String,
    /// The arguments that select this product in a Cargo build.
    pub compiler_flags: String,
    /// Whether archiving must leave the product out of the installation.
    pub skip_install: bool,
}

/// The value of an `EmissionTarget`.
pub struct EmissionView {
    pub kind: TargetKind,
    pub base_name: Seq<char>,
    pub cargo_file_name: Seq<char>,
    pub xcode_product_name: Seq<char>,
    pub xcode_file_name: Seq<char>,
    pub compiler_flags: Seq<char>,
    pub skip_install: bool,
}

impl View for EmissionTarget {
    type V = EmissionView;

    open spec fn view(&self) -> EmissionView {
        EmissionView {
            kind: self.kind,
            base_name: self.base_name@,
            cargo_file_name: self.cargo_file_name@,
            xcode_product_name: self.xcode_product_name@,
            xcode_file_name: self.xcode_file_name@,
            compiler_flags: self.compiler_flags@,
            skip_install: self.skip_install,
        }
    }
}

/// The view of an optional string.
pub open spec fn opt_text(o: Option<String>) -> Option<Seq<char>> {
    match o {
        Some(s) => Some(s@),
        None => None,
    }
}

/// The arguments that select a product in a Cargo build: an executable by
/// the target's own name, with its required features if it has any; a
/// library by `--lib`.
pub open spec fn spec_compiler_flags(
    kind: TargetKind,
    target_name: Seq<char>,
    features: Seq<char>,
) -> Seq<char> {
    if kind == TargetKind::Executable {
        if features.len() > 0 {
            "--bin '"@ + target_name + "'"@ + " --features '"@ + features + "'"@
        } else {
            "--bin '"@ + target_name + "'"@
        }
    } else {
        "--lib"@
    }
}

/// The product that `t` gives as `kind`, named `base` in the project.
pub open spec fn emission_for(t: TargetInfo, kind: TargetKind, base: Seq<char>) -> EmissionView {
    let features = comma_joined(texts(t.required_features@));
    let flags = spec_compiler_flags(kind, t.name@, features);
    match kind {
        TargetKind::Executable => EmissionView {
            kind,
            base_name: base,
            cargo_file_name: t.name@,
            xcode_product_name: base,
            xcode_file_name: base,
            compiler_flags: flags,
            skip_install: false,
        },
        TargetKind::DynamicLibrary => EmissionView {
            kind,
            base_name: base,
            cargo_file_name: "lib"@ + underscored(t.name@) + ".dylib"@,
            xcode_product_name: base,
            xcode_file_name: base + ".dylib"@,
            compiler_flags: flags,
            skip_install: false,
        },
        TargetKind::StaticLibrary => EmissionView {
            kind,
            base_name: base,
            cargo_file_name: "lib"@ + underscored(t.name@) + ".a"@,
            xcode_product_name: base + "_static"@,
            xcode_file_name: "lib"@ + base + "_static.a"@,
            compiler_flags: flags,
            skip_install: true,
        },
    }
}

/// The name of a target's products in the project: the project name when one
/// is given, else the target's own name.
pub open spec fn base_name_of(t: TargetInfo, custom: Option<Seq<char>>) -> Seq<char> {
    match custom {
        Some(n) => n,
        None => t.name@,
    }
}

/// The products of the first `n` kinds of `t`, in order; kinds that are not
/// built give none.
pub open spec fn kind_emissions(t: TargetInfo, custom: Option<Seq<char>>, n: nat) -> Seq<EmissionView>
    decreases n,
{
    if n == 0 {
        Seq::empty()
    } else {
        let rest = kind_emissions(t, custom, (n - 1) as nat);
        match kind_of_tag(t.kind@[n - 1]@) {
            Some(k) => rest.push(emission_for(t, k, base_name_of(t, custom))),
            None => rest,
        }
    }
}

/// The products of one target.
pub open spec fn target_emissions(t: TargetInfo, custom: Option<Seq<char>>) -> Seq<EmissionView> {
    kind_emissions(t, custom, t.kind@.len())
}

/// The products of the first `n` targets, target by target.
pub open spec fn prefix_emissions(
    targets: Seq<TargetInfo>,
    custom: Option<Seq<char>>,
    n: nat,
) -> Seq<EmissionView>
    decreases n,
{
    if n == 0 {
        Seq::empty()
    } else {
        prefix_emissions(targets, custom, (n - 1) as nat) + target_emissions(targets[n - 1], custom)
    }
}

/// The products of all targets, in the order of the targets and, within
/// one target, of its kinds.
pub open spec fn classify(targets: Seq<TargetInfo>, custom: Option<Seq<char>>) -> Seq<EmissionView> {
    prefix_emissions(targets, custom, targets.len())
}

/// The views of a list of products.
pub open spec fn emission_views(v: Seq<EmissionTarget>) -> Seq<EmissionView> {
    v.map_values(|e: EmissionTarget| e@)
}

/// Whether a target has a kind that is built.
pub open spec fn spec_is_relevant(t: TargetInfo) -> bool {
    exists|i: int| 0 <= i < t.kind@.len() && (#[trigger] kind_of_tag(t.kind@[i]@)).is_some()
}

fn compiler_flags(kind: TargetKind, target_name: &str, features: &str) -> (r: String)
    ensures
        r@ == spec_compiler_flags(kind, target_name@, features@),
{
    match kind {
        TargetKind::Executable => {
            let mut r = String::from_str("--bin '");
            r.append(target_name);
            r.append("'");
            if !features.is_empty() {
                r.append(" --features '");
                r.append(features);
                r.append("'");
            }
            r
        },
        _ => String::from_str("--lib"),
    }
}

/// The product that `t` gives as `kind`, named `base` in the project;
/// `features` is the target's required features joined by commas.
fn make_emission(t: &TargetInfo, kind: TargetKind, base: &String, features: &String) -> (r:
    EmissionTarget)
    requires
        features@ == comma_joined(texts(t.required_features@)),
    ensures
        r@ == emission_for(*t, kind, base@),
{
    let compiler_flags = compiler_flags(kind, t.name.as_str(), features.as_str());
    match kind {
        TargetKind::Executable => EmissionTarget {
            kind,
            base_name: base.clone(),
            cargo_file_name: t.name.clone(),
            xcode_product_name: base.clone(),
            xcode_file_name: base.clone(),
            compiler_flags,
            skip_install: false,
        },
        TargetKind::DynamicLibrary => {
            let mut cargo_file_name = String::from_str("lib");
            cargo_file_name.append(underscore(t.name.as_str()).as_str());
            cargo_file_name.append(".dylib");
            let xcode_file_name = base.clone().concat(".dylib");
            EmissionTarget {
                kind,
                base_name: base.clone(),
                cargo_file_name,
                xcode_product_name: base.clone(),
                xcode_file_name,
                compiler_flags,
                skip_install: false,
            }
        },
        TargetKind::StaticLibrary => {
            let mut cargo_file_name = String::from_str("lib");
            cargo_file_name.append(underscore(t.name.as_str()).as_str());
            cargo_file_name.append(".a");
            let mut xcode_file_name = String::from_str("lib");
            xcode_file_name.append(base.as_str());
            xcode_file_name.append("_static.a");
            EmissionTarget {
                kind,
                base_name: base.clone(),
                cargo_file_name,
                xcode_product_name: base.clone().concat("_static"),
                xcode_file_name,
                compiler_flags,
                skip_install: true,
            }
        },
    }
}

/// The products of all targets (see `classify`): one for each kind of each
/// target that is an executable, a dynamic library or a static library, in
/// the order of the targets and of their kinds.
pub fn classify_targets(targets: &Vec<TargetInfo>, custom_project_name: &Option<String>) -> (r: Vec<
    EmissionTarget,
>)
    ensures
        emission_views(r@) == classify(targets@, opt_text(*custom_project_name)),
{
    let ghost custom = opt_text(*custom_project_name);
    let mut out: Vec<EmissionTarget> = Vec::new();
    let mut i: usize = 0;
    while i < targets.len()
        invariant
            i <= targets@.len(),
            custom == opt_text(*custom_project_name),
            emission_views(out@) == prefix_emissions(targets@, custom, i as nat),
        decreases targets@.len() - i,
    {
        let t = &targets[i];
        let base = match custom_project_name {
            Some(c) => c.clone(),
            None => t.name.clone(),
        };
        let features = join_commas(&t.required_features);
        let ghost before = emission_views(out@);
        let mut j: usize = 0;
        while j < t.kind.len()
            invariant
                i < targets@.len(),
                *t == targets@[i as int],
                j <= t.kind@.len(),
                base@ == base_name_of(*t, custom),
                features@ == comma_joined(texts(t.required_features@)),
                emission_views(out@) == before + kind_emissions(*t, custom, j as nat),
            decreases t.kind@.len() - j,
        {
            match TargetKind::from_tag(t.kind[j].as_str()) {
                Some(k) => {
                    let ghost prev = out@;
                    out.push(make_emission(t, k, &base, &features));
                    assert(emission_views(out@) =~= emission_views(prev).push(out@.last()@));
                    assert(before + kind_emissions(*t, custom, (j + 1) as nat) =~= (before
                        + kind_emissions(*t, custom, j as nat)).push(out@.last()@));
                },
                None => {},
            }
            j = j + 1;
        }
        i = i + 1;
    }
    out
}

/// Whether a target has a kind that is built.
pub fn is_relevant_target(target: &TargetInfo) -> (r: bool)
    ensures
        r == spec_is_relevant(*target),
{
    let mut j: usize = 0;
    while j < target.kind.len()
        invariant
            j <= target.kind@.len(),
            forall|i: int| 0 <= i < j ==> (#[trigger] kind_of_tag(target.kind@[i]@)).is_none(),
        decreases target.kind@.len() - j,
    {
        if TargetKind::from_tag(target.kind[j].as_str()).is_some() {
            return true;
        }
        j = j + 1;
    }
    false
}

/// The targets that have a kind that is built, in their order.
pub open spec fn relevant_targets(targets: Seq<TargetInfo>) -> Seq<TargetInfo>
    decreases targets.len(),
{
    if targets.len() == 0 {
        Seq::empty()
    } else if spec_is_relevant(targets.last()) {
        relevant_targets(targets.drop_last()).push(targets.last())
    } else {
        relevant_targets(targets.drop_last())
    }
}

/// The package with only its relevant targets, in their order; `None` when
/// it has none.
pub fn filter_package(package: PackageInfo) -> (r: Option<PackageInfo>)
    ensures
        match r {
            Some(p) => {
                &&& p.targets@ == relevant_targets(package.targets@)
                &&& p.targets@.len() > 0
                &&& p.id == package.id
                &&& p.name == package.name
                &&& p.version == package.version
                &&& p.manifest_path == package.manifest_path
            },
            None => relevant_targets(package.targets@).len() == 0,
        },
{
    let PackageInfo { id, name, version, manifest_path, targets } = package;
    let ghost all = targets@;
    let n = targets.len();
    let mut rest = targets;
    let mut kept: Vec<TargetInfo> = Vec::new();
    let mut i: usize = 0;
    while rest.len() > 0
        invariant
            i <= all.len(),
            rest@ == all.skip(i as int),
            i + rest@.len() == all.len(),
            all.len() == n,
            kept@ == relevant_targets(all.take(i as int)),
        decreases rest@.len(),
    {
        let t = rest.remove(0);
        assert(all.take(i + 1).drop_last() =~= all.take(i as int));
        assert(all.take(i + 1).last() == t);
        let keep = is_relevant_target(&t);
        if keep {
            kept.push(t);
        }
        assert(rest@ =~= all.skip(i + 1));
        i = i + 1;
    }
    assert(all.take(i as int) =~= all);
    if kept.len() == 0 {
        None
    } else {
        Some(PackageInfo { id, name, version, manifest_path, targets: kept })
    }
}

} // verus!
