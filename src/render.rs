//! The text of each module of the tree.

use vstd::prelude::*;
use vstd::string::*;
use crate::tree::{ModuleKind, ModuleNode, ModulePath, NodeView};

verus! {

pub const SETUP_IMPORTS: &'static str = "import React from \"react\";\n";

pub const SETUP_DETECTOR: &'static str = "let DETECTOR_PROPS = {};\n";

pub const SETUP_EVAL: &'static str = "/* @turbopack-bench:eval-start */ \n/* @turbopack-bench:eval-end */\n";

pub const DETECTOR_ELEMENT: &'static str = "<Detector {...DETECTOR_PROPS} />\n";

pub const SETUP_HYDRATION: &'static str = "\nDETECTOR_PROPS.hydration = true;";

/// Where the instrumentation component lives, relative to the app's root.
pub const DETECTOR_PATH: &'static str = "src/detector.jsx";

pub const DETECTOR_SIBLING: &'static str = "./detector.jsx";

pub const LEAF_BODY: &'static str = "\n\nfunction Triangle({ style }) {\n    return <>\n        <polygon points=\"-5,4.33 0,-4.33 5,4.33\" style={style} />\n        ";

pub const LEAF_END: &'static str = "\n    </>;\n}\n\nexport default React.memo(Triangle);\n";

pub const CONTAINER_BODY_A: &'static str = "\n\nfunction Container({ style }) {\n    return <>\n        <g transform=\"translate(0 -2.16)   scale(0.5 0.5)\">\n            ";

pub const CONTAINER_BODY_B: &'static str = "\n        </g>\n        <g transform=\"translate(-2.5 2.16) scale(0.5 0.5)\">\n            ";

pub const CONTAINER_BODY_C: &'static str = "\n        </g>\n        <g transform=\"translate(2.5 2.16)  scale(0.5 0.5)\">\n            ";

pub const CONTAINER_BODY_END: &'static str = "\n        </g>\n        ";

pub const CONTAINER_END: &'static str = "\n    </>;\n}\n\nexport default React.memo(Container);\n";

/// The relative path that `pathdiff::diff_paths` gives from directory `base`
/// to `path`, as text.
pub uninterp spec fn relative_path_of(path: Seq<char>, base: Seq<char>) -> Option<Seq<char>>;

/// Whether a path, as text, is absolute (starts at the root).
pub open spec fn is_absolute_text(p: Seq<char>) -> bool {
    p.len() > 0 && p[0] == '/'
}

/// Whether a path, as text, has a `..` component.
pub open spec fn has_parent_segment(p: Seq<char>) -> bool {
    exists|i: int|
        0 <= i && i + 2 <= p.len() && #[trigger] p[i] == '.' && p[i + 1] == '.' && (i == 0 || p[i - 1]
            == '/') && (i + 2 == p.len() || p[i + 2] == '/')
}

/// A directory from which a relative path can always be formed: relative,
/// and without a `..` component.
pub open spec fn plain_dir(d: Seq<char>) -> bool {
    !is_absolute_text(d) && !has_parent_segment(d)
}

/// Relies on `pathdiff::diff_paths`: the path from directory `base` to
/// `path`, or `None` where none can be formed. It depends on the two paths
/// alone. Between two relative paths it fails only where it meets a `..`
/// component of `base`.
#[verifier::external_body]
fn diff_paths(path: &str, base: &str) -> (r: Option<String>)
    ensures
        !is_absolute_text(path@) && plain_dir(base@) ==> r is Some,
        match r {
            Some(s) => relative_path_of(path@, base@) == Some(s@),
            None => relative_path_of(path@, base@) is None,
        },
{
    match pathdiff::diff_paths(path, base) {
        Some(p) => Some(p.display().to_string()),
        None => None,
    }
}

/// How a module in directory `dir` names the instrumentation component.
pub open spec fn detector_relative(dir: Seq<char>) -> Option<Seq<char>> {
    if dir == "src"@ {
        Some(DETECTOR_SIBLING@)
    } else {
        relative_path_of(DETECTOR_PATH@, dir)
    }
}

pub open spec fn import_detector(rel: Seq<char>) -> Seq<char> {
    "import Detector from \""@ + rel + "\";\n"@
}

pub open spec fn leaf_content(rel: Seq<char>) -> Seq<char> {
    SETUP_IMPORTS@ + "\n"@ + import_detector(rel) + "\n\n"@ + SETUP_DETECTOR@ + "\n"@ + SETUP_EVAL@
        + LEAF_BODY@ + DETECTOR_ELEMENT@ + LEAF_END@
}

/// The prefix of the import paths of a container's children.
pub open spec fn children_import_prefix(stem: Seq<char>, nested: bool) -> Seq<char> {
    if nested {
        "./"@ + stem + "/triangle_"@
    } else {
        "./"@ + stem + "_"@
    }
}

/// The line that brings child `name`, number `n`, into scope.
pub open spec fn child_import(name: Seq<char>, n: Seq<char>, prefix: Seq<char>, lazy: bool) -> Seq<char> {
    if lazy {
        "const "@ + name + "Lazy = React.lazy(() => import('"@ + prefix + n + "'));"@
    } else {
        "import "@ + name + " from '"@ + prefix + n + "'"@
    }
}

/// The element that renders child `name`.
pub open spec fn child_usage(name: Seq<char>, lazy: bool) -> Seq<char> {
    if lazy {
        "<React.Suspense><"@ + name + "Lazy style={style} /></React.Suspense>"@
    } else {
        "<"@ + name + " style={style} />"@
    }
}

pub open spec fn hydration_setup(hydration: bool) -> Seq<char> {
    if hydration { SETUP_HYDRATION@ } else { Seq::empty() }
}

pub open spec fn container_content(
    rel: Seq<char>,
    stem: Seq<char>,
    nested: bool,
    lazy_a: bool,
    lazy_b: bool,
    lazy_c: bool,
    hydration: bool,
) -> Seq<char> {
    let prefix = children_import_prefix(stem, nested);
    SETUP_IMPORTS@ + "\n"@ + import_detector(rel) + child_import("A"@, "1"@, prefix, lazy_a) + "\n"@
        + child_import("B"@, "2"@, prefix, lazy_b) + "\n"@ + child_import("C"@, "3"@, prefix, lazy_c)
        + "\n\n"@ + SETUP_DETECTOR@ + hydration_setup(hydration) + "\n"@ + SETUP_EVAL@
        + CONTAINER_BODY_A@ + child_usage("A"@, lazy_a) + CONTAINER_BODY_B@ + child_usage("B"@, lazy_b)
        + CONTAINER_BODY_C@ + child_usage("C"@, lazy_c) + CONTAINER_BODY_END@ + DETECTOR_ELEMENT@
        + CONTAINER_END@
}

/// The text of a module, given how it names the instrumentation component.
pub open spec fn module_content(n: NodeView, rel: Seq<char>) -> Seq<char> {
    match n.kind {
        ModuleKind::Leaf => leaf_content(rel),
        ModuleKind::Container { nested, lazy_a, lazy_b, lazy_c, hydration } =>
            container_content(rel, n.stem, nested, lazy_a, lazy_b, lazy_c, hydration),
    }
}

/// The file of a module, relative to the app's root.
pub open spec fn file_path_of(dir: Seq<char>, stem: Seq<char>) -> Seq<char> {
    dir + "/"@ + stem + ".jsx"@
}

/// The error of a generation pass that the library itself can meet.
#[derive(Debug)]
pub enum GenerateError {
    /// No relative path leads from the module's directory to the
    /// instrumentation component.
    PathDerivation { dir: String },
}

impl ModulePath {
    /// The module's file, relative to the app's root.
    pub fn file_path(&self) -> (r: String)
        ensures
            r@ == file_path_of(self.dir@, self.stem@),
    {
        self.dir.clone().concat("/").concat(self.stem.as_str()).concat(".jsx")
    }
}

/// The directory that a container creates for its children, if it nests them.
pub fn subdirectory(node: &ModuleNode) -> (r: Option<String>)
    ensures
        match node.kind {
            ModuleKind::Container { nested: true, .. } => r is Some && r->0@ == node.path.dir@ + "/"@
                + node.path.stem@,
            _ => r is None,
        },
{
    match node.kind {
        ModuleKind::Container { nested: true, .. } => Some(
            node.path.dir.clone().concat("/").concat(node.path.stem.as_str()),
        ),
        _ => None,
    }
}

fn append_child_import(s: &mut String, name: &str, n: &str, prefix: &str, lazy: bool)
    ensures
        final(s)@ == old(s)@ + child_import(name@, n@, prefix@, lazy),
{
    if lazy {
        s.append("const ");
        s.append(name);
        s.append("Lazy = React.lazy(() => import('");
    } else {
        s.append("import ");
        s.append(name);
        s.append(" from '");
    }
    s.append(prefix);
    s.append(n);
    if lazy {
        s.append("'));");
    } else {
        s.append("'");
    }
    assert(final(s)@ =~= old(s)@ + child_import(name@, n@, prefix@, lazy));
}

fn append_child_usage(s: &mut String, name: &str, lazy: bool)
    ensures
        final(s)@ == old(s)@ + child_usage(name@, lazy),
{
    if lazy {
        s.append("<React.Suspense><");
        s.append(name);
        s.append("Lazy style={style} /></React.Suspense>");
    } else {
        s.append("<");
        s.append(name);
        s.append(" style={style} />");
    }
    assert(final(s)@ =~= old(s)@ + child_usage(name@, lazy));
}

/// The text of a module that names the instrumentation component by
/// `relative_detector`.
pub fn render_with_detector(node: &ModuleNode, relative_detector: &str) -> (r: String)
    ensures
        r@ == module_content(node@, relative_detector@),
{
    let mut s = String::from_str(SETUP_IMPORTS);
    s.append("\n");
    s.append("import Detector from \"");
    s.append(relative_detector);
    s.append("\";\n");
    let ghost head = s@;
    assert(head =~= SETUP_IMPORTS@ + "\n"@ + import_detector(relative_detector@));
    match node.kind {
        ModuleKind::Leaf => {
            s.append("\n\n");
            s.append(SETUP_DETECTOR);
            s.append("\n");
            s.append(SETUP_EVAL);
            s.append(LEAF_BODY);
            s.append(DETECTOR_ELEMENT);
            s.append(LEAF_END);
            assert(s@ =~= leaf_content(relative_detector@));
        },
        ModuleKind::Container { nested, lazy_a, lazy_b, lazy_c, hydration } => {
            let prefix = if nested {
                String::from_str("./").concat(node.path.stem.as_str()).concat("/triangle_")
            } else {
                String::from_str("./").concat(node.path.stem.as_str()).concat("_")
            };
            assert(prefix@ =~= children_import_prefix(node.path.stem@, nested));
            let ghost p = prefix@;
            append_child_import(&mut s, "A", "1", prefix.as_str(), lazy_a);
            s.append("\n");
            append_child_import(&mut s, "B", "2", prefix.as_str(), lazy_b);
            s.append("\n");
            append_child_import(&mut s, "C", "3", prefix.as_str(), lazy_c);
            s.append("\n\n");
            s.append(SETUP_DETECTOR);
            if hydration {
                s.append(SETUP_HYDRATION);
            }
            s.append("\n");
            s.append(SETUP_EVAL);
            s.append(CONTAINER_BODY_A);
            append_child_usage(&mut s, "A", lazy_a);
            s.append(CONTAINER_BODY_B);
            append_child_usage(&mut s, "B", lazy_b);
            s.append(CONTAINER_BODY_C);
            append_child_usage(&mut s, "C", lazy_c);
            s.append(CONTAINER_BODY_END);
            s.append(DETECTOR_ELEMENT);
            s.append(CONTAINER_END);
            assert(s@ =~= container_content(
                relative_detector@,
                node.path.stem@,
                nested,
                lazy_a,
                lazy_b,
                lazy_c,
                hydration,
            ));
        },
    }
    s
}

/// The text of a module. A module directly in `src` names the
/// instrumentation component as its sibling; any other goes by the relative
/// path from its directory, and fails where there is none.
pub fn render_module(node: &ModuleNode) -> (r: Result<String, GenerateError>)
    ensures
        r is Ok <==> detector_relative(node.path.dir@) is Some,
        r matches Ok(c) ==> c@ == module_content(node@, detector_relative(node.path.dir@)->0),
        plain_dir(node.path.dir@) ==> r is Ok,
{
    proof {
        reveal_strlit("src/detector.jsx");
    }
    assert(DETECTOR_PATH@[0] == 's');
    let src = String::from_str("src");
    if node.path.dir == src {
        Ok(render_with_detector(node, DETECTOR_SIBLING))
    } else {
        match diff_paths(DETECTOR_PATH, node.path.dir.as_str()) {
            Some(rel) => Ok(render_with_detector(node, rel.as_str())),
            None => Err(GenerateError::PathDerivation { dir: node.path.dir.clone() }),
        }
    }
}

} // verus!
