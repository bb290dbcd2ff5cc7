//! The configuration of a test app and the module files it yields.

use vstd::prelude::*;
use vstd::string::*;
use std::path::PathBuf;
use crate::laws::law_paths_plain;
use crate::render::{detector_relative, file_path_of, module_content, plain_dir, render_module, GenerateError};
use crate::tree::{nodes_view, plan_modules, plan_spec, ModuleNode, NodeView};

verus! {

#[verifier::external_type_specification]
#[verifier::external_body]
pub struct ExPathBuf(PathBuf);

/// Configuration of the `package.json` file of the test app.
pub struct PackageJsonConfig {
    /// The version of React to depend on.
    pub react_version: String,
}

impl Default for PackageJsonConfig {
    fn default() -> (r: Self)
        ensures
            r.react_version@ == "^18.2.0"@,
    {
        PackageJsonConfig { react_version: String::from_str("^18.2.0") }
    }
}

/// The parameters of a generated test app.
pub struct TestAppBuilder {
    /// Where to write the app; a fresh temporary directory where absent.
    pub target: Option<PathBuf>,
    pub module_count: usize,
    pub directories_count: usize,
    pub dynamic_import_count: usize,
    pub flatness: usize,
    /// Whether, and how, to write a `package.json`.
    pub package_json: Option<PackageJsonConfig>,
}

impl Default for TestAppBuilder {
    fn default() -> (r: Self)
        ensures
            r.target is None,
            r.module_count == 1000,
            r.directories_count == 50,
            r.dynamic_import_count == 0,
            r.flatness == 5,
            r.package_json matches Some(p) && p.react_version@ == "^18.2.0"@,
    {
        TestAppBuilder {
            target: None,
            module_count: 1000,
            directories_count: 50,
            dynamic_import_count: 0,
            flatness: 5,
            package_json: Some(PackageJsonConfig::default()),
        }
    }
}

/// A file of the generated app: its path relative to the app's root, the
/// directory to create for it (if any) and its text.
pub struct GeneratedFile {
    pub path: String,
    pub subdirectory: Option<String>,
    pub content: String,
}

/// What a generated module file holds, as values.
pub open spec fn module_file_spec(n: NodeView) -> (Seq<char>, Option<Seq<char>>, Seq<char>) {
    (
        file_path_of(n.dir, n.stem),
        if n.kind matches crate::tree::ModuleKind::Container { nested: true, .. } {
            Some(n.dir + "/"@ + n.stem)
        } else {
            None
        },
        module_content(n, detector_relative(n.dir)->0),
    )
}

pub open spec fn file_view(f: GeneratedFile) -> (Seq<char>, Option<Seq<char>>, Seq<char>) {
    (f.path@, match f.subdirectory { Some(d) => Some(d@), None => None }, f.content@)
}

/// Whether every module of `nodes` can name the instrumentation component.
pub open spec fn all_derivable(nodes: Seq<NodeView>) -> bool {
    forall|i: int| 0 <= i < nodes.len() ==> (#[trigger] detector_relative(nodes[i].dir)) is Some
}

/// Whether every module of `nodes` lies in a plain directory.
pub open spec fn all_plain(nodes: Seq<NodeView>) -> bool {
    forall|i: int| 0 <= i < nodes.len() ==> plain_dir(#[trigger] nodes[i].dir)
}

/// The module files of `nodes`, in order.
pub open spec fn module_files_spec(nodes: Seq<NodeView>) -> Seq<(Seq<char>, Option<Seq<char>>, Seq<char>)> {
    nodes.map_values(|n: NodeView| module_file_spec(n))
}

/// Renders the module files of `nodes`, in order, or fails on the first
/// module that cannot name the instrumentation component.
pub fn render_modules(nodes: &Vec<ModuleNode>) -> (r: Result<Vec<GeneratedFile>, GenerateError>)
    ensures
        r is Ok <==> all_derivable(nodes_view(nodes@)),
        r matches Ok(files) ==> files@.map_values(|f: GeneratedFile| file_view(f))
            == module_files_spec(nodes_view(nodes@)),
        all_plain(nodes_view(nodes@)) ==> r is Ok,
{
    let mut files: Vec<GeneratedFile> = Vec::new();
    let mut i: usize = 0;
    while i < nodes.len()
        invariant
            i <= nodes@.len(),
            files@.map_values(|f: GeneratedFile| file_view(f)) == module_files_spec(
                nodes_view(nodes@.subrange(0, i as int)),
            ),
            all_derivable(nodes_view(nodes@.subrange(0, i as int))),
        decreases nodes@.len() - i,
    {
        let node = &nodes[i];
        let content = match render_module(node) {
            Ok(c) => c,
            Err(e) => {
                assert(nodes_view(nodes@)[i as int] == node@);
                assert(detector_relative(nodes_view(nodes@)[i as int].dir) is None);
                assert(!plain_dir(nodes_view(nodes@)[i as int].dir));
                return Err(e);
            },
        };
        let file = GeneratedFile {
            path: node.path.file_path(),
            subdirectory: crate::render::subdirectory(node),
            content,
        };
        assert(file_view(file) == module_file_spec(node@));
        let ghost before = files@;
        files.push(file);
        proof {
            let upto = nodes@.subrange(0, i + 1);
            assert(nodes_view(upto) =~= nodes_view(nodes@.subrange(0, i as int)).push(node@));
            assert(files@.map_values(|f: GeneratedFile| file_view(f)) =~= before.map_values(
                |f: GeneratedFile| file_view(f),
            ).push(file_view(file)));
            assert(module_files_spec(nodes_view(upto)) =~= module_files_spec(
                nodes_view(nodes@.subrange(0, i as int)),
            ).push(module_file_spec(node@)));
            assert forall|j: int| 0 <= j < nodes_view(upto).len() implies (#[trigger] detector_relative(
                nodes_view(upto)[j].dir,
            )) is Some by {
                if j < i {
                    assert(nodes_view(upto)[j] == nodes_view(nodes@.subrange(0, i as int))[j]);
                }
            }
        }
        i = i + 1;
    }
    assert(nodes@.subrange(0, nodes@.len() as int) =~= nodes@);
    Ok(files)
}

impl TestAppBuilder {
    /// The module tree of this app, in breadth-first order.
    pub fn plan(&self) -> (r: Vec<ModuleNode>)
        ensures
            nodes_view(r@) == plan_spec(
                self.module_count as nat,
                self.directories_count as nat,
                self.dynamic_import_count as nat,
                self.flatness as nat,
            ),
    {
        plan_modules(self.module_count, self.directories_count, self.dynamic_import_count, self.flatness)
    }

    /// The module files of this app, in breadth-first order: each with its
    /// path, the subdirectory it creates and its text.
    pub fn module_files(&self) -> (r: Result<Vec<GeneratedFile>, GenerateError>)
        ensures
            ({
                let p = plan_spec(
                    self.module_count as nat,
                    self.directories_count as nat,
                    self.dynamic_import_count as nat,
                    self.flatness as nat,
                );
                &&& r is Ok
                &&& all_derivable(p)
                &&& r matches Ok(files) ==> files@.map_values(|f: GeneratedFile| file_view(f))
                    == module_files_spec(p)
            }),
    {
        let nodes = self.plan();
        proof {
            law_paths_plain(
                self.module_count as nat,
                self.directories_count as nat,
                self.dynamic_import_count as nat,
                self.flatness as nat,
            );
        }
        render_modules(&nodes)
    }
}

} // verus!
