//! Breadth-first layout of the module tree under its budgets.

use vstd::prelude::*;
use vstd::string::*;
use crate::decision::{decide, decide_early, decide_spec, decide_early_spec};

verus! {

/// Where a module lives: its directory (relative to the app's root) and its
/// file name without the `.jsx` extension.
pub struct ModulePath {
    pub dir: String,
    pub stem: String,
}

impl View for ModulePath {
    type V = (Seq<char>, Seq<char>);

    open spec fn view(&self) -> (Seq<char>, Seq<char>) {
        (self.dir@, self.stem@)
    }
}

impl ModulePath {
    pub fn clone_path(&self) -> (r: ModulePath)
        ensures
            r@ == self@,
    {
        ModulePath { dir: self.dir.clone(), stem: self.stem.clone() }
    }
}

/// How a module was classified, with the decisions taken for a container.
#[derive(Clone, Copy, PartialEq, Eq, Debug)]
pub enum ModuleKind {
    Leaf,
    /// A module with exactly three children. `nested` puts the children in a
    /// directory of their own; `lazy_*` makes the reference to the first,
    /// second and third child a dynamic import; `hydration` marks the first
    /// container processed.
    Container { nested: bool, lazy_a: bool, lazy_b: bool, lazy_c: bool, hydration: bool },
}

/// One module of the generated tree.
pub struct ModuleNode {
    pub path: ModulePath,
    pub kind: ModuleKind,
}

/// What a module of the tree is, as values.
pub struct NodeView {
    pub dir: Seq<char>,
    pub stem: Seq<char>,
    pub kind: ModuleKind,
}

impl View for ModuleNode {
    type V = NodeView;

    open spec fn view(&self) -> NodeView {
        NodeView { dir: self.path.dir@, stem: self.path.stem@, kind: self.kind }
    }
}

/// The state of a breadth-first generation pass: the pending paths and the
/// remaining budgets.
pub struct GenState {
    pub queue: Seq<(Seq<char>, Seq<char>)>,
    pub modules: nat,
    pub directories: nat,
    pub dynamic_imports: nat,
    pub is_root: bool,
}

pub open spec fn root_dir() -> Seq<char> {
    "src"@
}

pub open spec fn root_stem() -> Seq<char> {
    "triangle"@
}

/// The state before the first module is taken from the queue: the root is
/// counted against the module budget.
pub open spec fn initial_state(module_count: nat, directories_count: nat, dynamic_import_count: nat) -> GenState {
    GenState {
        queue: seq![(root_dir(), root_stem())],
        modules: if module_count > 0 { (module_count - 1) as nat } else { 0 },
        directories: directories_count,
        dynamic_imports: dynamic_import_count,
        is_root: true,
    }
}

/// The head of the queue becomes a leaf when no module budget is left, or
/// when other paths are pending and their number plus the budget is a
/// multiple of `flatness + 1`.
pub open spec fn is_leaf(s: GenState, flatness: nat) -> bool {
    s.modules == 0 || (s.queue.len() > 1 && ((s.queue.len() - 1) + s.modules) % (flatness + 1) as int == 0)
}

pub open spec fn saturating_sub3(n: nat) -> nat {
    if n >= 3 { (n - 3) as nat } else { 0 }
}

/// Whether the head of the queue, a container, nests its children.
pub open spec fn nests(s: GenState) -> bool {
    decide_spec(s.directories, s.modules / 3)
}

/// The three children of the module at `loc`.
pub open spec fn children_of(loc: (Seq<char>, Seq<char>), nested: bool) -> Seq<(Seq<char>, Seq<char>)> {
    if nested {
        let d = loc.0 + "/"@ + loc.1;
        seq![(d, "triangle_1"@), (d, "triangle_2"@), (d, "triangle_3"@)]
    } else {
        seq![(loc.0, loc.1 + "_1"@), (loc.0, loc.1 + "_2"@), (loc.0, loc.1 + "_3"@)]
    }
}

pub open spec fn take_one(d: nat, placed: bool) -> nat {
    if placed { (d - 1) as nat } else { d }
}

/// The dynamic-import decisions of a container, made after its expansion has
/// been counted, for the first, second and third child.
pub open spec fn lazy_a_of(d: nat, m: nat) -> bool {
    decide_early_spec(d, m + 2)
}

pub open spec fn lazy_b_of(d: nat, m: nat) -> bool {
    decide_early_spec(take_one(d, lazy_a_of(d, m)), m + 1)
}

pub open spec fn lazy_c_of(d: nat, m: nat) -> bool {
    decide_early_spec(take_one(take_one(d, lazy_a_of(d, m)), lazy_b_of(d, m)), m)
}

pub open spec fn dynamic_left(d: nat, m: nat) -> nat {
    take_one(take_one(take_one(d, lazy_a_of(d, m)), lazy_b_of(d, m)), lazy_c_of(d, m))
}

/// The module that the head of a non-empty queue becomes.
pub open spec fn step_node(s: GenState, flatness: nat) -> NodeView {
    let loc = s.queue[0];
    if is_leaf(s, flatness) {
        NodeView { dir: loc.0, stem: loc.1, kind: ModuleKind::Leaf }
    } else {
        let m = saturating_sub3(s.modules);
        NodeView {
            dir: loc.0,
            stem: loc.1,
            kind: ModuleKind::Container {
                nested: nests(s),
                lazy_a: lazy_a_of(s.dynamic_imports, m),
                lazy_b: lazy_b_of(s.dynamic_imports, m),
                lazy_c: lazy_c_of(s.dynamic_imports, m),
                hydration: s.is_root,
            },
        }
    }
}

/// The state after the head of a non-empty queue has been processed.
pub open spec fn step_state(s: GenState, flatness: nat) -> GenState {
    let rest = s.queue.drop_first();
    if is_leaf(s, flatness) {
        GenState { queue: rest, ..s }
    } else {
        let m = saturating_sub3(s.modules);
        GenState {
            queue: rest + children_of(s.queue[0], nests(s)),
            modules: m,
            directories: take_one(s.directories, nests(s)),
            dynamic_imports: dynamic_left(s.dynamic_imports, m),
            is_root: false,
        }
    }
}

pub open spec fn measure(s: GenState) -> nat {
    4 * s.modules + s.queue.len()
}

/// The modules produced from state `s` on, in the order they are processed.
pub open spec fn run(s: GenState, flatness: nat) -> Seq<NodeView>
    decreases measure(s),
{
    if s.queue.len() == 0 {
        seq![]
    } else {
        seq![step_node(s, flatness)] + run(step_state(s, flatness), flatness)
    }
}

/// Every step makes the measure smaller.
pub proof fn lemma_step_decreases(s: GenState, flatness: nat)
    requires
        s.queue.len() > 0,
    ensures
        measure(step_state(s, flatness)) < measure(s),
{
}

/// The modules of a whole generation pass, in breadth-first order.
pub open spec fn plan_spec(module_count: nat, directories_count: nat, dynamic_import_count: nat, flatness: nat) -> Seq<NodeView> {
    run(initial_state(module_count, directories_count, dynamic_import_count), flatness)
}

pub open spec fn queue_view(q: Seq<ModulePath>, head: int) -> Seq<(Seq<char>, Seq<char>)> {
    q.subrange(head, q.len() as int).map_values(|p: ModulePath| p@)
}

pub open spec fn nodes_view(v: Seq<ModuleNode>) -> Seq<NodeView> {
    v.map_values(|n: ModuleNode| n@)
}

fn push_children(q: &mut Vec<ModulePath>, loc: &ModulePath, nested: bool)
    ensures
        final(q)@.len() == old(q)@.len() + 3,
        final(q)@.subrange(0, old(q)@.len() as int) == old(q)@,
        final(q)@.subrange(old(q)@.len() as int, final(q)@.len() as int).map_values(|p: ModulePath| p@)
            == children_of(loc@, nested),
{
    let ghost q0 = q@;
    if nested {
        let d = loc.dir.clone().concat("/").concat(loc.stem.as_str());
        q.push(ModulePath { dir: d.clone(), stem: String::from_str("triangle_1") });
        q.push(ModulePath { dir: d.clone(), stem: String::from_str("triangle_2") });
        q.push(ModulePath { dir: d, stem: String::from_str("triangle_3") });
    } else {
        q.push(ModulePath { dir: loc.dir.clone(), stem: loc.stem.clone().concat("_1") });
        q.push(ModulePath { dir: loc.dir.clone(), stem: loc.stem.clone().concat("_2") });
        q.push(ModulePath { dir: loc.dir.clone(), stem: loc.stem.clone().concat("_3") });
    }
    assert(q@.subrange(0, q0.len() as int) =~= q0);
    assert(q@.subrange(q0.len() as int, q@.len() as int).map_values(|p: ModulePath| p@)
        =~= children_of(loc@, nested));
}

/// Lays out the module tree: breadth-first from `src/triangle.jsx`, with the
/// module, directory and dynamic-import budgets and the flatness knob.
pub fn plan_modules(
    module_count: usize,
    directories_count: usize,
    dynamic_import_count: usize,
    flatness: usize,
) -> (r: Vec<ModuleNode>)
    ensures
        nodes_view(r@) == plan_spec(
            module_count as nat,
            directories_count as nat,
            dynamic_import_count as nat,
            flatness as nat,
        ),
{
    let ghost init = initial_state(module_count as nat, directories_count as nat, dynamic_import_count as nat);
    let mut out: Vec<ModuleNode> = Vec::new();
    let mut queue: Vec<ModulePath> = Vec::new();
    queue.push(ModulePath { dir: String::from_str("src"), stem: String::from_str("triangle") });
    let mut head: usize = 0;
    let mut remaining_modules: usize = if module_count > 0 { module_count - 1 } else { 0 };
    let mut remaining_directories: usize = directories_count;
    let mut remaining_dynamic_imports: usize = dynamic_import_count;
    let mut is_root: bool = true;
    let ghost cur = GenState {
        queue: queue_view(queue@, 0),
        modules: remaining_modules as nat,
        directories: remaining_directories as nat,
        dynamic_imports: remaining_dynamic_imports as nat,
        is_root,
    };
    assert(queue_view(queue@, 0) =~= init.queue);
    assert(nodes_view(out@) + run(cur, flatness as nat) =~= run(init, flatness as nat));
    while head < queue.len()
        invariant
            head <= queue@.len(),
            cur == (GenState {
                queue: queue_view(queue@, head as int),
                modules: remaining_modules as nat,
                directories: remaining_directories as nat,
                dynamic_imports: remaining_dynamic_imports as nat,
                is_root,
            }),
            nodes_view(out@) + run(cur, flatness as nat) == run(init, flatness as nat),
        decreases measure(cur),
    {
        proof {
            lemma_step_decreases(cur, flatness as nat);
        }
        let loc = queue[head].clone_path();
        head = head + 1;
        let rest_len: usize = queue.len() - head;
        let leaf = remaining_modules == 0 || (rest_len > 0 && (rest_len as u128
            + remaining_modules as u128) % (flatness as u128 + 1) == 0);
        assert(cur.queue[0] == loc@);
        assert(leaf == is_leaf(cur, flatness as nat));
        let ghost q_before = queue@;
        let ghost out_before = out@;
        if leaf {
            out.push(ModuleNode { path: loc, kind: ModuleKind::Leaf });
        } else {
            let nested = decide(remaining_directories, remaining_modules / 3);
            if nested {
                remaining_directories = remaining_directories - 1;
            }
            push_children(&mut queue, &loc, nested);
            remaining_modules = if remaining_modules >= 3 { remaining_modules - 3 } else { 0 };
            let lazy_a = decide_early(remaining_dynamic_imports, remaining_modules + 2);
            if lazy_a {
                remaining_dynamic_imports = remaining_dynamic_imports - 1;
            }
            let lazy_b = decide_early(remaining_dynamic_imports, remaining_modules + 1);
            if lazy_b {
                remaining_dynamic_imports = remaining_dynamic_imports - 1;
            }
            let lazy_c = decide_early(remaining_dynamic_imports, remaining_modules);
            if lazy_c {
                remaining_dynamic_imports = remaining_dynamic_imports - 1;
            }
            let hydration = is_root;
            is_root = false;
            out.push(ModuleNode {
                path: loc,
                kind: ModuleKind::Container { nested, lazy_a, lazy_b, lazy_c, hydration },
            });
            assert(queue_view(queue@, head as int) =~= cur.queue.drop_first() + children_of(
                cur.queue[0],
                nested,
            )) by {
                let a = queue@.subrange(head as int, q_before.len() as int);
                assert(a =~= q_before.subrange(head as int, q_before.len() as int));
                assert(queue@.subrange(head as int, queue@.len() as int) =~= a
                    + queue@.subrange(q_before.len() as int, queue@.len() as int));
            }
        }
        let ghost next = GenState {
            queue: queue_view(queue@, head as int),
            modules: remaining_modules as nat,
            directories: remaining_directories as nat,
            dynamic_imports: remaining_dynamic_imports as nat,
            is_root,
        };
        assert(next == step_state(cur, flatness as nat)) by {
            if leaf {
                assert(queue_view(queue@, head as int) =~= cur.queue.drop_first());
            }
        }
        assert(nodes_view(out@) =~= nodes_view(out_before).push(step_node(cur, flatness as nat)));
        assert(run(cur, flatness as nat) == seq![step_node(cur, flatness as nat)] + run(next, flatness as nat));
        assert(nodes_view(out@) + run(next, flatness as nat) =~= nodes_view(out_before) + run(cur, flatness as nat));
        proof {
            cur = next;
        }
    }
    assert(cur.queue.len() == 0);
    assert(nodes_view(out@) =~= nodes_view(out@) + run(cur, flatness as nat));
    out
}

} // verus!
