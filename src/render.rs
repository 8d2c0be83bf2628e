//! Rendering of the object graph as a project file: a nested-brace,
//! semicolon-terminated property list with annotating comments.
use vstd::prelude::*;
use crate::graph::{
    strings_view, ConfigurationListView, ConfigurationView, Configuration, ConfigurationList,
    GraphView, Group, GroupView, ProjectGraph, Setting, SettingView, TargetObjects,
    TargetObjectsView, settings_view,
};
use crate::scripts::{BUILD_SCRIPT, MERGE_SCRIPT};
use crate::targets::{spec_file_type, spec_product_type, spec_tag};
use crate::text::{quote, quoted};

verus! {

/// One line for each reference: `indent`, the token, a comma.
pub open spec fn refs_text(ids: Seq<Seq<char>>, indent: Seq<char>) -> Seq<char>
    decreases ids.len(),
{
    if ids.len() == 0 {
        Seq::empty()
    } else {
        refs_text(ids.drop_last(), indent) + indent + ids.last() + ",\n"@
    }
}

/// One line for each setting, key and value quoted.
pub open spec fn settings_text(ss: Seq<SettingView>) -> Seq<char>
    decreases ss.len(),
{
    if ss.len() == 0 {
        Seq::empty()
    } else {
        settings_text(ss.drop_last()) + "\t\t\t\t"@ + quoted(ss.last().0) + " = "@ + quoted(
            ss.last().1,
        ) + ";\n"@
    }
}

pub open spec fn configuration_text(c: ConfigurationView) -> Seq<char> {
    "\t\t"@ + c.id + " = {\n\t\t\tisa = XCBuildConfiguration;\n\t\t\tbuildSettings = {\n"@
        + settings_text(c.settings) + "\t\t\t};\n\t\t\tname = "@ + quoted(c.name) + ";\n\t\t};\n"@
}

pub open spec fn configurations_text(cs: Seq<ConfigurationView>) -> Seq<char>
    decreases cs.len(),
{
    if cs.len() == 0 {
        Seq::empty()
    } else {
        configurations_text(cs.drop_last()) + configuration_text(cs.last())
    }
}

pub open spec fn configuration_ids(cs: Seq<ConfigurationView>) -> Seq<Seq<char>> {
    cs.map_values(|c: ConfigurationView| c.id)
}

pub open spec fn configuration_list_text(l: ConfigurationListView) -> Seq<char> {
    "\t\t"@ + l.id + " = {\n\t\t\tisa = XCConfigurationList;\n\t\t\tbuildConfigurations = (\n"@
        + refs_text(configuration_ids(l.configurations), "\t\t\t\t"@)
        + "\t\t\t);\n\t\t\tdefaultConfigurationIsVisible = 0;\n\t\t\tdefaultConfigurationName = "@
        + quoted(l.default_name) + ";\n\t\t};\n"@
}

fn render_refs(ids: &Vec<String>, indent: &str) -> (r: String)
    ensures
        r@ == refs_text(strings_view(ids@), indent@),
{
    let mut r = String::new();
    let mut i: usize = 0;
    while i < ids.len()
        invariant
            i <= ids@.len(),
            r@ == refs_text(strings_view(ids@).take(i as int), indent@),
        decreases ids@.len() - i,
    {
        r.append(indent);
        r.append(ids[i].as_str());
        r.append(",\n");
        assert(strings_view(ids@).take(i + 1).drop_last() =~= strings_view(ids@).take(i as int));
        i = i + 1;
    }
    assert(strings_view(ids@).take(ids@.len() as int) =~= strings_view(ids@));
    r
}

fn render_settings(ss: &Vec<Setting>) -> (r: String)
    ensures
        r@ == settings_text(settings_view(ss@)),
{
    let mut r = String::new();
    let mut i: usize = 0;
    while i < ss.len()
        invariant
            i <= ss@.len(),
            r@ == settings_text(settings_view(ss@).take(i as int)),
        decreases ss@.len() - i,
    {
        r.append("\t\t\t\t");
        r.append(quote(ss[i].key.as_str()).as_str());
        r.append(" = ");
        r.append(quote(ss[i].value.as_str()).as_str());
        r.append(";\n");
        assert(settings_view(ss@).take(i + 1).drop_last() =~= settings_view(ss@).take(i as int));
        i = i + 1;
    }
    assert(settings_view(ss@).take(ss@.len() as int) =~= settings_view(ss@));
    r
}

fn render_configuration(c: &Configuration) -> (r: String)
    ensures
        r@ == configuration_text(c@),
{
    let mut r = String::from_str("\t\t");
    r.append(c.id.as_str());
    r.append(" = {\n\t\t\tisa = XCBuildConfiguration;\n\t\t\tbuildSettings = {\n");
    r.append(render_settings(&c.settings).as_str());
    r.append("\t\t\t};\n\t\t\tname = ");
    r.append(quote(c.name.as_str()).as_str());
    r.append(";\n\t\t};\n");
    r
}

fn render_configurations(l: &ConfigurationList) -> (r: String)
    ensures
        r@ == configurations_text(l@.configurations),
{
    let ghost cs = l@.configurations;
    let mut r = String::new();
    let mut i: usize = 0;
    while i < l.configurations.len()
        invariant
            i <= l.configurations@.len(),
            cs == l@.configurations,
            r@ == configurations_text(cs.take(i as int)),
        decreases l.configurations@.len() - i,
    {
        r.append(render_configuration(&l.configurations[i]).as_str());
        assert(cs.take(i + 1).drop_last() =~= cs.take(i as int));
        i = i + 1;
    }
    assert(cs.take(i as int) =~= cs);
    r
}

fn render_configuration_list(l: &ConfigurationList) -> (r: String)
    ensures
        r@ == configuration_list_text(l@),
{
    let ghost ids = configuration_ids(l@.configurations);
    let mut refs = String::new();
    let mut i: usize = 0;
    while i < l.configurations.len()
        invariant
            i <= l.configurations@.len(),
            ids == configuration_ids(l@.configurations),
            refs@ == refs_text(ids.take(i as int), "\t\t\t\t"@),
        decreases l.configurations@.len() - i,
    {
        refs.append("\t\t\t\t");
        refs.append(l.configurations[i].id.as_str());
        refs.append(",\n");
        assert(ids.take(i + 1).drop_last() =~= ids.take(i as int));
        i = i + 1;
    }
    assert(ids.take(i as int) =~= ids);
    let mut r = String::from_str("\t\t");
    r.append(l.id.as_str());
    r.append(" = {\n\t\t\tisa = XCConfigurationList;\n\t\t\tbuildConfigurations = (\n");
    r.append(refs.as_str());
    r.append(
        "\t\t\t);\n\t\t\tdefaultConfigurationIsVisible = 0;\n\t\t\tdefaultConfigurationName = ",
    );
    r.append(quote(l.default_name.as_str()).as_str());
    r.append(";\n\t\t};\n");
    r
}

/// The objects that each product contributes to a section.
#[derive(PartialEq, Eq, Structural, Clone, Copy)]
pub enum Part {
    BuildFile,
    ProductReference,
    NativeTarget,
    SourcesPhase,
    Configurations,
    ConfigurationList,
    TargetAttributes,
}

/// What product `t` of graph `g` contributes to the section of `part`.
pub open spec fn part_text(g: GraphView, t: TargetObjectsView, part: Part) -> Seq<char> {
    let e = t.target;
    match part {
        Part::BuildFile => "\t\t"@ + t.manifest_build_file
            + " /* Cargo.toml in Sources */ = {isa = PBXBuildFile; fileRef = "@ + g.manifest_ref
            + " /* Cargo.toml */; settings = {COMPILER_FLAGS = "@ + quoted(e.compiler_flags)
            + "; }; };\n"@,
        Part::ProductReference => "\t\t"@ + t.product_ref + " /* "@ + spec_tag(e.kind)
            + " */ = {isa = PBXFileReference; explicitFileType = "@ + quoted(
            spec_file_type(e.kind),
        ) + "; includeInIndex = 0; name = "@ + quoted(e.xcode_file_name)
            + "; sourceTree = TARGET_BUILD_DIR; };\n"@,
        Part::NativeTarget => "\t\t"@ + t.native_target
            + " = {\n\t\t\tisa = PBXNativeTarget;\n\t\t\tbuildConfigurationList = "@
            + t.configuration_list.id + ";\n\t\t\tbuildPhases = (\n\t\t\t\t"@ + t.sources_phase
            + " /* Sources */,\n\t\t\t\t"@ + g.merge_phase
            + " /* Universal Binary lipo */,\n\t\t\t);\n\t\t\tbuildRules = (\n\t\t\t\t"@
            + g.build_rule
            + " /* PBXBuildRule */,\n\t\t\t);\n\t\t\tdependencies = (\n\t\t\t);\n\t\t\tname = "@
            + quoted(e.base_name + "-"@ + spec_tag(e.kind)) + ";\n\t\t\tproductName = "@ + quoted(
            e.xcode_file_name,
        ) + ";\n\t\t\tproductReference = "@ + t.product_ref + ";\n\t\t\tproductType = "@ + quoted(
            spec_product_type(e.kind),
        ) + ";\n\t\t};\n"@,
        Part::SourcesPhase => "\t\t"@ + t.sources_phase
            + " /* Sources */ = {\n\t\t\tisa = PBXSourcesBuildPhase;\n\t\t\tbuildActionMask = 2147483647;\n\t\t\tfiles = (\n\t\t\t\t"@
            + t.manifest_build_file
            + ",\n\t\t\t);\n\t\t\trunOnlyForDeploymentPostprocessing = 0;\n\t\t};\n"@,
        Part::Configurations => configurations_text(t.configuration_list.configurations),
        Part::ConfigurationList => configuration_list_text(t.configuration_list),
        Part::TargetAttributes => "\t\t\t\t\t"@ + t.native_target
            + " = {\n\t\t\t\t\t\tCreatedOnToolsVersion = 9.2;\n\t\t\t\t\t\tProvisioningStyle = Automatic;\n\t\t\t\t\t};\n"@,
    }
}

/// What the products `ts` contribute to the section of `part`, in order.
pub open spec fn parts_text(g: GraphView, ts: Seq<TargetObjectsView>, part: Part) -> Seq<char>
    decreases ts.len(),
{
    if ts.len() == 0 {
        Seq::empty()
    } else {
        parts_text(g, ts.drop_last(), part) + part_text(g, ts.last(), part)
    }
}

fn render_part(g: &ProjectGraph, t: &TargetObjects, part: Part) -> (r: String)
    ensures
        r@ == part_text(g@, t@, part),
{
    let e = &t.target;
    match part {
        Part::BuildFile => {
            let mut r = String::from_str("\t\t");
            r.append(t.manifest_build_file.as_str());
            r.append(" /* Cargo.toml in Sources */ = {isa = PBXBuildFile; fileRef = ");
            r.append(g.manifest_ref.as_str());
            r.append(" /* Cargo.toml */; settings = {COMPILER_FLAGS = ");
            r.append(quote(e.compiler_flags.as_str()).as_str());
            r.append("; }; };\n");
            r
        },
        Part::ProductReference => {
            let mut r = String::from_str("\t\t");
            r.append(t.product_ref.as_str());
            r.append(" /* ");
            r.append(e.kind.tag());
            r.append(" */ = {isa = PBXFileReference; explicitFileType = ");
            r.append(quote(e.kind.file_type()).as_str());
            r.append("; includeInIndex = 0; name = ");
            r.append(quote(e.xcode_file_name.as_str()).as_str());
            r.append("; sourceTree = TARGET_BUILD_DIR; };\n");
            r
        },
        Part::NativeTarget => {
            let mut name = e.base_name.clone();
            name.append("-");
            name.append(e.kind.tag());
            let mut r = String::from_str("\t\t");
            r.append(t.native_target.as_str());
            r.append(" = {\n\t\t\tisa = PBXNativeTarget;\n\t\t\tbuildConfigurationList = ");
            r.append(t.configuration_list.id.as_str());
            r.append(";\n\t\t\tbuildPhases = (\n\t\t\t\t");
            r.append(t.sources_phase.as_str());
            r.append(" /* Sources */,\n\t\t\t\t");
            r.append(g.merge_phase.as_str());
            r.append(" /* Universal Binary lipo */,\n\t\t\t);\n\t\t\tbuildRules = (\n\t\t\t\t");
            r.append(g.build_rule.as_str());
            r.append(" /* PBXBuildRule */,\n\t\t\t);\n\t\t\tdependencies = (\n\t\t\t);\n\t\t\tname = ");
            r.append(quote(name.as_str()).as_str());
            r.append(";\n\t\t\tproductName = ");
            r.append(quote(e.xcode_file_name.as_str()).as_str());
            r.append(";\n\t\t\tproductReference = ");
            r.append(t.product_ref.as_str());
            r.append(";\n\t\t\tproductType = ");
            r.append(quote(e.kind.product_type()).as_str());
            r.append(";\n\t\t};\n");
            r
        },
        Part::SourcesPhase => {
            let mut r = String::from_str("\t\t");
            r.append(t.sources_phase.as_str());
            r.append(
                " /* Sources */ = {\n\t\t\tisa = PBXSourcesBuildPhase;\n\t\t\tbuildActionMask = 2147483647;\n\t\t\tfiles = (\n\t\t\t\t",
            );
            r.append(t.manifest_build_file.as_str());
            r.append(",\n\t\t\t);\n\t\t\trunOnlyForDeploymentPostprocessing = 0;\n\t\t};\n");
            r
        },
        Part::Configurations => render_configurations(&t.configuration_list),
        Part::ConfigurationList => render_configuration_list(&t.configuration_list),
        Part::TargetAttributes => {
            let mut r = String::from_str("\t\t\t\t\t");
            r.append(t.native_target.as_str());
            r.append(
                " = {\n\t\t\t\t\t\tCreatedOnToolsVersion = 9.2;\n\t\t\t\t\t\tProvisioningStyle = Automatic;\n\t\t\t\t\t};\n",
            );
            r
        },
    }
}

fn render_parts(g: &ProjectGraph, part: Part) -> (r: String)
    ensures
        r@ == parts_text(g@, g@.targets, part),
{
    let ghost ts = g@.targets;
    let mut r = String::new();
    let mut i: usize = 0;
    while i < g.targets.len()
        invariant
            i <= g.targets@.len(),
            ts == g@.targets,
            r@ == parts_text(g@, ts.take(i as int), part),
        decreases g.targets@.len() - i,
    {
        r.append(render_part(g, &g.targets[i], part).as_str());
        assert(ts.take(i + 1).drop_last() =~= ts.take(i as int));
        i = i + 1;
    }
    assert(ts.take(i as int) =~= ts);
    r
}

/// The build rule that runs Cargo on the manifest.
pub open spec fn build_rule_text(g: GraphView) -> Seq<char> {
    "\t\t"@ + g.build_rule
        + " /* PBXBuildRule */ = {\n\t\t\tisa = PBXBuildRule;\n\t\t\tcompilerSpec = com.apple.compilers.proxy.script;\n\t\t\tdependencyFile = \"$(DERIVED_FILE_DIR)/$(CARGO_XCODE_TARGET_ARCH)-$(EXECUTABLE_NAME).d\";\n\t\t\tfilePatterns = \"*/Cargo.toml\";\n\t\t\tfileType = pattern.proxy;\n\t\t\tinputFiles = (\n\t\t\t);\n\t\t\tisEditable = 0;\n\t\t\tname = \"Cargo project build\";\n\t\t\toutputFiles = (\n\t\t\t\t\"$(OBJECT_FILE_DIR)/$(CARGO_XCODE_TARGET_ARCH)-$(EXECUTABLE_NAME)\",\n\t\t\t);\n\t\t\tscript = "@
        + quoted(BUILD_SCRIPT@) + ";\n\t\t};\n"@
}

/// The file reference of the manifest.
pub open spec fn manifest_ref_text(g: GraphView) -> Seq<char> {
    "\t\t"@ + g.manifest_ref
        + " /* Cargo.toml */ = {isa = PBXFileReference; fileEncoding = 4; lastKnownFileType = text; name = Cargo.toml; path = "@
        + quoted(g.manifest_path) + "; sourceTree = \"<group>\"; };\n"@
}

/// The file reference of the system resolver library, if the graph has one.
pub open spec fn system_library_text(g: GraphView) -> Seq<char> {
    match g.system_library {
        Some(l) => "\t\t"@ + l
            + " /* libresolv.tbd */ = {isa = PBXFileReference; lastKnownFileType = \"sourcecode.text-based-dylib-definition\"; name = libresolv.tbd; path = usr/lib/libresolv.tbd; sourceTree = SDKROOT; };\n"@,
        None => Seq::empty(),
    }
}

pub open spec fn group_text(gr: GroupView) -> Seq<char> {
    "\t\t"@ + gr.id + " = {\n\t\t\tisa = PBXGroup;\n\t\t\tchildren = (\n"@ + refs_text(
        gr.children,
        "\t\t\t\t"@,
    ) + "\t\t\t);\n"@ + (if gr.name.len() > 0 {
        "\t\t\tname = "@ + quoted(gr.name) + ";\n"@
    } else {
        Seq::empty()
    }) + "\t\t\tsourceTree = \"<group>\";\n\t\t};\n"@
}

/// The project object: its configurations, groups and native targets.
pub open spec fn project_text(g: GraphView) -> Seq<char> {
    "\t\t"@ + g.project
        + " /* Project object */ = {\n\t\t\tisa = PBXProject;\n\t\t\tattributes = {\n\t\t\t\tLastUpgradeCheck = 1300;\n\t\t\t\tTargetAttributes = {\n"@
        + parts_text(g, g.targets, Part::TargetAttributes)
        + "\t\t\t\t};\n\t\t\t};\n\t\t\tbuildConfigurationList = "@ + g.configuration_list.id
        + ";\n\t\t\tcompatibilityVersion = \"Xcode 11.4\";\n\t\t\tdevelopmentRegion = en;\n\t\t\thasScannedForEncodings = 0;\n\t\t\tknownRegions = (\n\t\t\t\ten,\n\t\t\t\tBase,\n\t\t\t);\n\t\t\tmainGroup = "@
        + g.main_group.id + ";\n\t\t\tproductRefGroup = "@ + g.products_group.id
        + " /* Products */;\n\t\t\tprojectDirPath = \"\";\n\t\t\tprojectRoot = \"\";\n\t\t\ttargets = (\n"@
        + refs_text(g.target_list, "\t\t\t\t"@) + "\t\t\t);\n\t\t};\n"@
}

/// The phase that merges the architectures into a universal binary.
pub open spec fn merge_phase_text(g: GraphView) -> Seq<char> {
    "\t\t"@ + g.merge_phase
        + " /* LipoScript */ = {\n\t\t\tisa = PBXShellScriptBuildPhase;\n\t\t\tbuildActionMask = 2147483647;\n\t\t\tfiles = (\n\t\t\t);\n\t\t\tinputFileListPaths = (\n\t\t\t);\n\t\t\tinputPaths = (\n\t\t\t\t\"$(DERIVED_FILE_DIR)/$(ARCHS)-$(EXECUTABLE_NAME).xcfilelist\",\n\t\t\t);\n\t\t\tname = \"Universal Binary lipo\";\n\t\t\toutputFileListPaths = (\n\t\t\t);\n\t\t\toutputPaths = (\n\t\t\t\t\"$(TARGET_BUILD_DIR)/$(EXECUTABLE_PATH)\",\n\t\t\t);\n\t\t\trunOnlyForDeploymentPostprocessing = 0;\n\t\t\tshellPath = /bin/sh;\n\t\t\tshellScript = "@
        + quoted(MERGE_SCRIPT@) + ";\n\t\t};\n"@
}

/// The whole project file of graph `g`, section by section.
pub open spec fn document_text(g: GraphView) -> Seq<char> {
    "// !$*UTF8*$!\n{\n\tarchiveVersion = 1;\n\tclasses = {\n\t};\n\tobjectVersion = 53;\n\tobjects = {\n\n/* Begin PBXBuildFile section */\n"@
        + parts_text(g, g.targets, Part::BuildFile)
        + "/* End PBXBuildFile section */\n\n/* Begin PBXBuildRule section */\n"@
        + build_rule_text(g)
        + "/* End PBXBuildRule section */\n\n/* Begin PBXFileReference section */\n"@
        + parts_text(g, g.targets, Part::ProductReference) + manifest_ref_text(g)
        + system_library_text(g)
        + "/* End PBXFileReference section */\n\n/* Begin PBXGroup section */\n"@ + group_text(
        g.frameworks_group,
    ) + group_text(g.products_group) + group_text(g.main_group)
        + "/* End PBXGroup section */\n\n/* Begin PBXNativeTarget section */\n"@ + parts_text(
        g,
        g.targets,
        Part::NativeTarget,
    ) + "/* End PBXNativeTarget section */\n\n/* Begin PBXProject section */\n"@ + project_text(g)
        + "/* End PBXProject section */\n\n/* Begin PBXShellScriptBuildPhase section */\n"@
        + merge_phase_text(g)
        + "/* End PBXShellScriptBuildPhase section */\n\n/* Begin PBXSourcesBuildPhase section */\n"@
        + parts_text(g, g.targets, Part::SourcesPhase)
        + "/* End PBXSourcesBuildPhase section */\n\n/* Begin XCBuildConfiguration section */\n"@
        + parts_text(g, g.targets, Part::Configurations) + configurations_text(
        g.configuration_list.configurations,
    ) + "/* End XCBuildConfiguration section */\n\n/* Begin XCConfigurationList section */\n"@
        + parts_text(g, g.targets, Part::ConfigurationList) + configuration_list_text(
        g.configuration_list,
    ) + "/* End XCConfigurationList section */\n\t};\n\trootObject = "@ + g.project
        + " /* Project object */;\n}\n"@
}

fn render_group(gr: &Group) -> (r: String)
    ensures
        r@ == group_text(gr@),
{
    let mut r = String::from_str("\t\t");
    r.append(gr.id.as_str());
    r.append(" = {\n\t\t\tisa = PBXGroup;\n\t\t\tchildren = (\n");
    r.append(render_refs(&gr.children, "\t\t\t\t").as_str());
    r.append("\t\t\t);\n");
    let ghost before = r@;
    if !gr.name.as_str().is_empty() {
        r.append("\t\t\tname = ");
        r.append(quote(gr.name.as_str()).as_str());
        r.append(";\n");
    } else {
        assert(before + Seq::<char>::empty() =~= before);
    }
    r.append("\t\t\tsourceTree = \"<group>\";\n\t\t};\n");
    r
}

fn render_project(g: &ProjectGraph) -> (r: String)
    ensures
        r@ == project_text(g@),
{
    let mut r = String::from_str("\t\t");
    r.append(g.project.as_str());
    r.append(
        " /* Project object */ = {\n\t\t\tisa = PBXProject;\n\t\t\tattributes = {\n\t\t\t\tLastUpgradeCheck = 1300;\n\t\t\t\tTargetAttributes = {\n",
    );
    r.append(render_parts(g, Part::TargetAttributes).as_str());
    r.append("\t\t\t\t};\n\t\t\t};\n\t\t\tbuildConfigurationList = ");
    r.append(g.configuration_list.id.as_str());
    r.append(
        ";\n\t\t\tcompatibilityVersion = \"Xcode 11.4\";\n\t\t\tdevelopmentRegion = en;\n\t\t\thasScannedForEncodings = 0;\n\t\t\tknownRegions = (\n\t\t\t\ten,\n\t\t\t\tBase,\n\t\t\t);\n\t\t\tmainGroup = ",
    );
    r.append(g.main_group.id.as_str());
    r.append(";\n\t\t\tproductRefGroup = ");
    r.append(g.products_group.id.as_str());
    r.append(
        " /* Products */;\n\t\t\tprojectDirPath = \"\";\n\t\t\tprojectRoot = \"\";\n\t\t\ttargets = (\n",
    );
    r.append(render_refs(&g.target_list, "\t\t\t\t").as_str());
    r.append("\t\t\t);\n\t\t};\n");
    r
}

fn render_build_rule(g: &ProjectGraph) -> (r: String)
    ensures
        r@ == build_rule_text(g@),
{
    let mut r = String::from_str("\t\t");
    r.append(g.build_rule.as_str());
    r.append(
        " /* PBXBuildRule */ = {\n\t\t\tisa = PBXBuildRule;\n\t\t\tcompilerSpec = com.apple.compilers.proxy.script;\n\t\t\tdependencyFile = \"$(DERIVED_FILE_DIR)/$(CARGO_XCODE_TARGET_ARCH)-$(EXECUTABLE_NAME).d\";\n\t\t\tfilePatterns = \"*/Cargo.toml\";\n\t\t\tfileType = pattern.proxy;\n\t\t\tinputFiles = (\n\t\t\t);\n\t\t\tisEditable = 0;\n\t\t\tname = \"Cargo project build\";\n\t\t\toutputFiles = (\n\t\t\t\t\"$(OBJECT_FILE_DIR)/$(CARGO_XCODE_TARGET_ARCH)-$(EXECUTABLE_NAME)\",\n\t\t\t);\n\t\t\tscript = ",
    );
    r.append(quote(BUILD_SCRIPT).as_str());
    r.append(";\n\t\t};\n");
    r
}

fn render_manifest_ref(g: &ProjectGraph) -> (r: String)
    ensures
        r@ == manifest_ref_text(g@),
{
    let mut r = String::from_str("\t\t");
    r.append(g.manifest_ref.as_str());
    r.append(
        " /* Cargo.toml */ = {isa = PBXFileReference; fileEncoding = 4; lastKnownFileType = text; name = Cargo.toml; path = ",
    );
    r.append(quote(g.manifest_path.as_str()).as_str());
    r.append("; sourceTree = \"<group>\"; };\n");
    r
}

fn render_system_library(g: &ProjectGraph) -> (r: String)
    ensures
        r@ == system_library_text(g@),
{
    match &g.system_library {
        Some(l) => {
            let mut r = String::from_str("\t\t");
            r.append(l.as_str());
            r.append(
                " /* libresolv.tbd */ = {isa = PBXFileReference; lastKnownFileType = \"sourcecode.text-based-dylib-definition\"; name = libresolv.tbd; path = usr/lib/libresolv.tbd; sourceTree = SDKROOT; };\n",
            );
            r
        },
        None => String::new(),
    }
}

fn render_merge_phase(g: &ProjectGraph) -> (r: String)
    ensures
        r@ == merge_phase_text(g@),
{
    let mut r = String::from_str("\t\t");
    r.append(g.merge_phase.as_str());
    r.append(
        " /* LipoScript */ = {\n\t\t\tisa = PBXShellScriptBuildPhase;\n\t\t\tbuildActionMask = 2147483647;\n\t\t\tfiles = (\n\t\t\t);\n\t\t\tinputFileListPaths = (\n\t\t\t);\n\t\t\tinputPaths = (\n\t\t\t\t\"$(DERIVED_FILE_DIR)/$(ARCHS)-$(EXECUTABLE_NAME).xcfilelist\",\n\t\t\t);\n\t\t\tname = \"Universal Binary lipo\";\n\t\t\toutputFileListPaths = (\n\t\t\t);\n\t\t\toutputPaths = (\n\t\t\t\t\"$(TARGET_BUILD_DIR)/$(EXECUTABLE_PATH)\",\n\t\t\t);\n\t\t\trunOnlyForDeploymentPostprocessing = 0;\n\t\t\tshellPath = /bin/sh;\n\t\t\tshellScript = ",
    );
    r.append(quote(MERGE_SCRIPT).as_str());
    r.append(";\n\t\t};\n");
    r
}

/// Renders the project file of a graph.
pub fn render_document(g: &ProjectGraph) -> (r: String)
    ensures
        r@ == document_text(g@),
{
    let mut r = String::from_str(
        "// !$*UTF8*$!\n{\n\tarchiveVersion = 1;\n\tclasses = {\n\t};\n\tobjectVersion = 53;\n\tobjects = {\n\n/* Begin PBXBuildFile section */\n",
    );
    r.append(render_parts(g, Part::BuildFile).as_str());
    r.append("/* End PBXBuildFile section */\n\n/* Begin PBXBuildRule section */\n");
    r.append(render_build_rule(g).as_str());
    r.append("/* End PBXBuildRule section */\n\n/* Begin PBXFileReference section */\n");
    r.append(render_parts(g, Part::ProductReference).as_str());
    r.append(render_manifest_ref(g).as_str());
    r.append(render_system_library(g).as_str());
    r.append("/* End PBXFileReference section */\n\n/* Begin PBXGroup section */\n");
    r.append(render_group(&g.frameworks_group).as_str());
    r.append(render_group(&g.products_group).as_str());
    r.append(render_group(&g.main_group).as_str());
    r.append("/* End PBXGroup section */\n\n/* Begin PBXNativeTarget section */\n");
    r.append(render_parts(g, Part::NativeTarget).as_str());
    r.append("/* End PBXNativeTarget section */\n\n/* Begin PBXProject section */\n");
    r.append(render_project(g).as_str());
    r.append("/* End PBXProject section */\n\n/* Begin PBXShellScriptBuildPhase section */\n");
    r.append(render_merge_phase(g).as_str());
    r.append(
        "/* End PBXShellScriptBuildPhase section */\n\n/* Begin PBXSourcesBuildPhase section */\n",
    );
    r.append(render_parts(g, Part::SourcesPhase).as_str());
    r.append(
        "/* End PBXSourcesBuildPhase section */\n\n/* Begin XCBuildConfiguration section */\n",
    );
    r.append(render_parts(g, Part::Configurations).as_str());
    r.append(render_configurations(&g.configuration_list).as_str());
    r.append(
        "/* End XCBuildConfiguration section */\n\n/* Begin XCConfigurationList section */\n",
    );
    r.append(render_parts(g, Part::ConfigurationList).as_str());
    r.append(render_configuration_list(&g.configuration_list).as_str());
    r.append("/* End XCConfigurationList section */\n\t};\n\trootObject = ");
    r.append(g.project.as_str());
    r.append(" /* Project object */;\n}\n");
    r
}

} // verus!
