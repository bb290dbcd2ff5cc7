use turbopack_create_test_app::bootstrap::{bootstrap_files, package_json_content};
use turbopack_create_test_app::builder::{PackageJsonConfig, TestAppBuilder};
use turbopack_create_test_app::decision::{decide, decide_early};
use turbopack_create_test_app::render::{render_module, render_with_detector, subdirectory, GenerateError};
use turbopack_create_test_app::tree::{plan_modules, ModuleKind, ModuleNode, ModulePath};

fn builder(module_count: usize, directories_count: usize, dynamic_import_count: usize, flatness: usize) -> TestAppBuilder {
    TestAppBuilder {
        target: None,
        module_count,
        directories_count,
        dynamic_import_count,
        flatness,
        package_json: None,
    }
}

fn paths(nodes: &[ModuleNode]) -> Vec<String> {
    nodes.iter().map(|n| n.path.file_path()).collect()
}

fn containers(nodes: &[ModuleNode]) -> usize {
    nodes.iter().filter(|n| matches!(n.kind, ModuleKind::Container { .. })).count()
}

fn nested(nodes: &[ModuleNode]) -> usize {
    nodes.iter().filter(|n| matches!(n.kind, ModuleKind::Container { nested: true, .. })).count()
}

fn lazies(nodes: &[ModuleNode]) -> usize {
    nodes
        .iter()
        .map(|n| match n.kind {
            ModuleKind::Container { lazy_a, lazy_b, lazy_c, .. } => lazy_a as usize + lazy_b as usize + lazy_c as usize,
            ModuleKind::Leaf => 0,
        })
        .sum()
}

fn hydrated(n: &ModuleNode) -> bool {
    matches!(n.kind, ModuleKind::Container { hydration: true, .. })
}

const LEAF_IN_SRC: &str = "import React from \"react\";\n\nimport Detector from \"./detector.jsx\";\n\n\nlet DETECTOR_PROPS = {};\n\n/* @turbopack-bench:eval-start */ \n/* @turbopack-bench:eval-end */\n\n\nfunction Triangle({ style }) {\n    return <>\n        <polygon points=\"-5,4.33 0,-4.33 5,4.33\" style={style} />\n        <Detector {...DETECTOR_PROPS} />\n\n    </>;\n}\n\nexport default React.memo(Triangle);\n";

const ROOT_OF_FOUR: &str = "import React from \"react\";\n\nimport Detector from \"./detector.jsx\";\nimport A from './triangle_1'\nimport B from './triangle_2'\nimport C from './triangle_3'\n\nlet DETECTOR_PROPS = {};\n\nDETECTOR_PROPS.hydration = true;\n/* @turbopack-bench:eval-start */ \n/* @turbopack-bench:eval-end */\n\n\nfunction Container({ style }) {\n    return <>\n        <g transform=\"translate(0 -2.16)   scale(0.5 0.5)\">\n            <A style={style} />\n        </g>\n        <g transform=\"translate(-2.5 2.16) scale(0.5 0.5)\">\n            <B style={style} />\n        </g>\n        <g transform=\"translate(2.5 2.16)  scale(0.5 0.5)\">\n            <C style={style} />\n        </g>\n        <Detector {...DETECTOR_PROPS} />\n\n    </>;\n}\n\nexport default React.memo(Container);\n";

#[test]
fn decide_without_resources_never_places() {
    assert!(!decide(0, 0));
    assert!(!decide(0, 7));
    assert!(!decide_early(0, 7));
}

#[test]
fn decide_places_when_resources_cover_opportunities() {
    assert!(decide(3, 2));
    assert!(decide(3, 3));
    assert!(decide_early(5, 0));
}

#[test]
fn decide_scatters_by_urgency() {
    // urgency 10 / 2 = 5 divides 3850
    assert!(decide(2, 10));
    // urgency 10 / 3 = 3 does not divide 3850
    assert!(!decide(3, 10));
}

#[test]
fn decide_early_squares_the_denominator() {
    // urgency 10 / 2 / 2 = 2 divides 3850
    assert!(decide_early(2, 10));
    // urgency 13 / 2 / 2 = 3 does not divide 5005
    assert!(!decide_early(2, 13));
}

#[test]
fn decide_early_zero_urgency_does_not_place() {
    // 11 / 10 / 10 rounds down to zero
    assert!(!decide_early(10, 11));
}

#[test]
fn decide_handles_largest_counts() {
    assert!(decide(usize::MAX, usize::MAX));
    assert!(decide(1, usize::MAX) == ((usize::MAX as u128 * 385) % (usize::MAX as u128) == 0));
}

#[test]
fn single_module_is_a_leaf_root() {
    let nodes = builder(1, 10, 10, 5).plan();
    assert_eq!(nodes.len(), 1);
    assert_eq!(nodes[0].kind, ModuleKind::Leaf);
    assert_eq!(nodes[0].path.file_path(), "src/triangle.jsx");
    assert!(!hydrated(&nodes[0]));
    let files = builder(1, 10, 10, 5).module_files().unwrap();
    assert_eq!(files.len(), 1);
    assert_eq!(files[0].path, "src/triangle.jsx");
    assert!(files[0].subdirectory.is_none());
    assert_eq!(files[0].content, LEAF_IN_SRC);
}

#[test]
fn zero_modules_still_make_the_root() {
    let nodes = plan_modules(0, 0, 0, 0);
    assert_eq!(paths(&nodes), vec!["src/triangle.jsx".to_string()]);
    assert_eq!(nodes[0].kind, ModuleKind::Leaf);
}

#[test]
fn four_modules_make_a_root_with_three_sibling_leaves() {
    let nodes = builder(4, 0, 0, 5).plan();
    assert_eq!(
        paths(&nodes),
        vec!["src/triangle.jsx", "src/triangle_1.jsx", "src/triangle_2.jsx", "src/triangle_3.jsx"]
    );
    assert_eq!(
        nodes[0].kind,
        ModuleKind::Container { nested: false, lazy_a: false, lazy_b: false, lazy_c: false, hydration: true }
    );
    for n in &nodes[1..] {
        assert_eq!(n.kind, ModuleKind::Leaf);
    }
    let files = builder(4, 0, 0, 5).module_files().unwrap();
    assert_eq!(files[0].content, ROOT_OF_FOUR);
    assert!(files.iter().all(|f| f.subdirectory.is_none()));
    assert_eq!(files[1].content, LEAF_IN_SRC);
}

#[test]
fn a_directory_nests_the_children() {
    let b = builder(4, 1, 0, 5);
    let nodes = b.plan();
    assert_eq!(
        paths(&nodes),
        vec![
            "src/triangle.jsx",
            "src/triangle/triangle_1.jsx",
            "src/triangle/triangle_2.jsx",
            "src/triangle/triangle_3.jsx"
        ]
    );
    assert_eq!(subdirectory(&nodes[0]), Some("src/triangle".to_string()));
    assert_eq!(subdirectory(&nodes[1]), None);
    let files = b.module_files().unwrap();
    assert_eq!(files[0].subdirectory, Some("src/triangle".to_string()));
    assert!(files[0].content.contains("import A from './triangle/triangle_1'\n"));
    let leaf = &files[1].content;
    assert!(leaf.contains("import Detector from \"../detector.jsx\";\n"));
    assert_eq!(leaf, &LEAF_IN_SRC.replace("./detector.jsx", "../detector.jsx"));
}

#[test]
fn dynamic_imports_are_lazy_with_suspense() {
    let nodes = builder(4, 0, 3, 5).plan();
    assert_eq!(
        nodes[0].kind,
        ModuleKind::Container { nested: false, lazy_a: true, lazy_b: true, lazy_c: true, hydration: true }
    );
    let content = render_module(&nodes[0]).unwrap();
    assert!(content.contains("const ALazy = React.lazy(() => import('./triangle_1'));\n"));
    assert!(content.contains("const CLazy = React.lazy(() => import('./triangle_3'));\n\n"));
    assert!(content.contains("<React.Suspense><BLazy style={style} /></React.Suspense>"));
    assert!(!content.contains("import A from"));
}

#[test]
fn default_budget_is_conserved() {
    let b = TestAppBuilder::default();
    let nodes = b.plan();
    assert!(nodes.len() >= 1000 && nodes.len() <= 1002);
    assert_eq!(nodes.len(), 1 + 3 * containers(&nodes));
    assert!(nested(&nodes) <= 50);
    assert_eq!(lazies(&nodes), 0);
}

#[test]
fn budgets_hold_on_a_mixed_configuration() {
    for &(m, d, i, f) in &[(100, 5, 10, 2), (37, 100, 100, 0), (250, 3, 7, 9), (2, 0, 1, 1), (3, 1, 1, 3)] {
        let nodes = plan_modules(m, d, i, f);
        assert_eq!(nodes.len(), 1 + 3 * containers(&nodes));
        assert!(nodes.len() >= m && nodes.len() <= m + 2);
        assert!(nested(&nodes) <= d);
        assert!(lazies(&nodes) <= i);
    }
}

#[test]
fn hydration_marks_only_the_root() {
    let nodes = plan_modules(100, 5, 10, 2);
    assert!(hydrated(&nodes[0]));
    assert!(nodes[1..].iter().all(|n| !hydrated(n)));
    let files = builder(100, 5, 10, 2).module_files().unwrap();
    let marked = files.iter().filter(|f| f.content.contains("DETECTOR_PROPS.hydration = true;")).count();
    assert_eq!(marked, 1);
    assert!(files[0].content.contains("DETECTOR_PROPS.hydration = true;"));
}

#[test]
fn root_path_is_fixed() {
    for &(m, d, i, f) in &[(1, 0, 0, 0), (10, 10, 10, 10), (1000, 50, 0, 5)] {
        assert_eq!(plan_modules(m, d, i, f)[0].path.file_path(), "src/triangle.jsx");
    }
}

#[test]
fn generation_is_deterministic() {
    let a = builder(300, 12, 20, 3).module_files().unwrap();
    let b = builder(300, 12, 20, 3).module_files().unwrap();
    assert_eq!(a.len(), b.len());
    for (x, y) in a.iter().zip(b.iter()) {
        assert_eq!(x.path, y.path);
        assert_eq!(x.subdirectory, y.subdirectory);
        assert_eq!(x.content, y.content);
    }
}

#[test]
fn module_paths_are_unique() {
    let nodes = plan_modules(500, 40, 0, 4);
    let mut p = paths(&nodes);
    p.sort();
    p.dedup();
    assert_eq!(p.len(), nodes.len());
}

#[test]
fn deeper_modules_reach_the_detector_upwards() {
    let files = builder(40, 40, 0, 5).module_files().unwrap();
    for f in &files {
        let depth = f.path.matches('/').count() - 1;
        let expected = if depth == 0 { "./detector.jsx".to_string() } else { "../".repeat(depth) + "detector.jsx" };
        assert!(f.content.contains(&format!("import Detector from \"{expected}\";\n")), "{}", f.path);
    }
}

#[test]
fn render_with_given_detector_path() {
    let node = ModuleNode {
        path: ModulePath { dir: "src/a/b".to_string(), stem: "triangle_2".to_string() },
        kind: ModuleKind::Leaf,
    };
    let content = render_with_detector(&node, "../../detector.jsx");
    assert_eq!(content, LEAF_IN_SRC.replace("./detector.jsx", "../../detector.jsx"));
}

#[test]
fn unreachable_detector_is_a_path_derivation_error() {
    let node = ModuleNode {
        path: ModulePath { dir: "/elsewhere".to_string(), stem: "triangle".to_string() },
        kind: ModuleKind::Leaf,
    };
    match render_module(&node) {
        Err(GenerateError::PathDerivation { dir }) => assert_eq!(dir, "/elsewhere"),
        Ok(_) => panic!("expected an error"),
    }
}

#[test]
fn package_json_is_pretty_and_sorted() {
    let text = package_json_content(&PackageJsonConfig::default());
    assert_eq!(
        text,
        "{\n  \"dependencies\": {\n    \"react\": \"^18.2.0\",\n    \"react-dom\": \"^18.2.0\"\n  },\n  \"name\": \"turbopack-test-app\",\n  \"private\": true,\n  \"version\": \"0.0.0\"\n}"
    );
}

#[test]
fn package_json_escapes_the_version() {
    let text = package_json_content(&PackageJsonConfig { react_version: "1\"2".to_string() });
    assert!(text.contains("\"react\": \"1\\\"2\",\n"));
}

#[test]
fn support_files_follow_the_configuration() {
    let with = TestAppBuilder::default().support_files();
    let without = builder(1, 0, 0, 0).support_files();
    assert_eq!(with.len(), without.len() + 1);
    assert_eq!(with.last().unwrap().path, "package.json");
    let names: Vec<String> = bootstrap_files().into_iter().map(|f| f.path).collect();
    assert_eq!(
        names,
        vec![
            "src/detector.jsx",
            "src/index.jsx",
            "src/pages/page.jsx",
            "src/pages/static.jsx",
            "src/app/page.jsx",
            "src/app/client/detector.jsx",
            "src/app/client/page.jsx",
            "src/layout.jsx",
            "src/index.html",
            "public/index.html"
        ]
    );
    let dirs: Vec<String> = without.iter().filter_map(|f| f.subdirectory.clone()).collect();
    assert_eq!(dirs, vec!["src/pages", "src/app/app", "src/app/client", "public"]);
}

#[test]
fn default_builder_values() {
    let b = TestAppBuilder::default();
    assert!(b.target.is_none());
    assert_eq!((b.module_count, b.directories_count, b.dynamic_import_count, b.flatness), (1000, 50, 0, 5));
    assert_eq!(b.package_json.unwrap().react_version, "^18.2.0");
}

#[test]
fn package_json_escapes_control_characters() {
    let text = package_json_content(&PackageJsonConfig { react_version: "a\\b\n\u{1}\u{1f}\t".to_string() });
    assert!(text.contains("\"react-dom\": \"a\\\\b\\n\\u0001\\u001f\\t\"\n"));
}

#[test]
fn detector_is_written_beside_the_root() {
    let files = bootstrap_files();
    let detector = files.iter().find(|f| f.path == "src/detector.jsx").unwrap();
    assert!(detector.subdirectory.is_none());
    assert!(detector.content.contains("export default function Detector({ message, hydration })"));
    let modules = builder(4, 0, 0, 5).module_files().unwrap();
    assert!(modules[0].content.contains("import Detector from \"./detector.jsx\";"));
}

#[test]
fn parent_component_in_the_directory_is_a_path_derivation_error() {
    let node = ModuleNode {
        path: ModulePath { dir: "src/../x".to_string(), stem: "triangle".to_string() },
        kind: ModuleKind::Leaf,
    };
    assert!(matches!(render_module(&node), Err(GenerateError::PathDerivation { .. })));
}
