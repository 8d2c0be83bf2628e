//! Generation of Xcode project files that drive Cargo builds.
//!
//! The work is a pipeline of pure steps: the package's targets are
//! classified into products, every object of the project gets a stable
//! token, the objects form a graph, and the graph is rendered as text.
use vstd::prelude::*;

pub mod graph;
pub mod ids;
pub mod laws;
pub mod render;
pub mod scripts;
pub mod targets;
pub mod text;

use crate::graph::{build_graph, spec_graph};
use crate::ids::{seed_of, IdAllocator};
use crate::render::{document_text, render_document};
use crate::targets::{classify, classify_targets, opt_text, PackageInfo};

verus! {

/// The relative path from `base` to `path`, as `pathdiff` finds it.
pub uninterp spec fn relative_path_of(path: Seq<char>, base: Seq<char>) -> Option<Seq<char>>;

/// Relies on `pathdiff::diff_paths`: the path of `path` relative to the
/// directory `base`, worked out from the two paths alone, or `None` where
/// there is none.
#[verifier::external_body]
fn diff_paths(path: &str, base: &str) -> (r: Option<String>)
    ensures
        opt_text(r) == relative_path_of(path@, base@),
{
    match pathdiff::diff_paths(path, base) {
        Some(p) => Some(p.to_string_lossy().into_owned()),
        None => None,
    }
}

/// Why a project file could not be made.
#[derive(PartialEq, Eq, Structural, Clone, Copy, Debug)]
pub enum GenerateError {
    /// The manifest cannot be reached by a path relative to the output
    /// directory (a relative manifest path under an absolute directory).
    ManifestPathNotRelative,
}

/// The project file of a package whose seed is `seed`, built with the
/// project name `custom` if one is given, when its manifest lies at
/// `manifest_path` relative to the project.
pub open spec fn project_document(
    seed: u64,
    package: PackageInfo,
    custom: Option<Seq<char>>,
    manifest_path: Seq<char>,
) -> Seq<char> {
    document_text(
        spec_graph(
            seed,
            package.name@,
            package.version,
            classify(package.targets@, custom),
            manifest_path,
        ),
    )
}

/// Makes the project of one package.
pub struct Generator {
    pub ids: IdAllocator,
    pub package: PackageInfo,
    /// Where the project goes; beside the manifest when not given.
    pub output_dir: Option<String>,
    /// The name of the project and of its products, in place of the
    /// package's and the targets' names.
    pub custom_project_name: Option<String>,
}

impl Generator {
    pub fn new(
        package: PackageInfo,
        output_dir: Option<String>,
        custom_project_name: Option<String>,
    ) -> (r: Generator)
        ensures
            r.ids.seed == seed_of(package.id@),
            r.package == package,
            r.output_dir == output_dir,
            r.custom_project_name == custom_project_name,
    {
        let ids = IdAllocator::new(package.id.as_str());
        Generator { ids, package, output_dir, custom_project_name }
    }

    /// The path of the manifest as the project refers to it: relative to the
    /// output directory when there is one, else `Cargo.toml` beside the
    /// project.
    pub fn manifest_reference_path(&self) -> (r: Option<String>)
        ensures
            opt_text(r) == match self.output_dir {
                Some(dir) => relative_path_of(self.package.manifest_path@, dir@),
                None => Some("Cargo.toml"@),
            },
    {
        match &self.output_dir {
            Some(dir) => diff_paths(self.package.manifest_path.as_str(), dir.as_str()),
            None => Some(String::from_str("Cargo.toml")),
        }
    }

    /// The project file when the manifest lies at `manifest_path` relative to
    /// the project.
    pub fn pbxproj_with_manifest_path(&self, manifest_path: String) -> (r: String)
        ensures
            r@ == project_document(
                self.ids.seed,
                self.package,
                opt_text(self.custom_project_name),
                manifest_path@,
            ),
    {
        let targets = classify_targets(&self.package.targets, &self.custom_project_name);
        let graph = build_graph(
            &self.ids,
            self.package.name.as_str(),
            &self.package.version,
            targets,
            manifest_path,
        );
        render_document(&graph)
    }

    /// The project file of the package.
    pub fn pbxproj(&self) -> (r: Result<String, GenerateError>)
        ensures
            match self.output_dir {
                Some(dir) => match relative_path_of(self.package.manifest_path@, dir@) {
                    Some(p) => r matches Ok(text) && text@ == project_document(
                        self.ids.seed,
                        self.package,
                        opt_text(self.custom_project_name),
                        p,
                    ),
                    None => r == Err::<String, GenerateError>(
                        GenerateError::ManifestPathNotRelative,
                    ),
                },
                None => r matches Ok(text) && text@ == project_document(
                    self.ids.seed,
                    self.package,
                    opt_text(self.custom_project_name),
                    "Cargo.toml"@,
                ),
            },
    {
        match self.manifest_reference_path() {
            Some(path) => Ok(self.pbxproj_with_manifest_path(path)),
            None => Err(GenerateError::ManifestPathNotRelative),
        }
    }

    /// The name of the project's directory: the project name, else the
    /// package's, with the `.xcodeproj` extension.
    pub fn project_dir_name(&self) -> (r: String)
        ensures
            r@ == match self.custom_project_name {
                Some(n) => n@,
                None => self.package.name@,
            } + ".xcodeproj"@,
    {
        let base = match &self.custom_project_name {
            Some(n) => n.clone(),
            None => self.package.name.clone(),
        };
        base.concat(".xcodeproj")
    }
}

} // verus!
