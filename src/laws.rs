//! Laws of the module tree, proved over its layout.

use vstd::prelude::*;
use crate::builder::{all_plain, module_files_spec};
use crate::render::plain_dir;
use crate::decision::decide_early_spec;
use crate::tree::{
    dynamic_left, initial_state, is_leaf, lazy_a_of, lazy_b_of, lazy_c_of, lemma_step_decreases, measure,
    nests, plan_spec, root_dir, root_stem, run, saturating_sub3, step_node, step_state, GenState,
    ModuleKind, NodeView, children_of,
};

verus! {

pub open spec fn is_container(n: NodeView) -> bool {
    n.kind is Container
}

pub open spec fn is_nested(n: NodeView) -> bool {
    match n.kind {
        ModuleKind::Container { nested, .. } => nested,
        ModuleKind::Leaf => false,
    }
}

pub open spec fn has_hydration(n: NodeView) -> bool {
    match n.kind {
        ModuleKind::Container { hydration, .. } => hydration,
        ModuleKind::Leaf => false,
    }
}

pub open spec fn bit(b: bool) -> nat {
    if b { 1 } else { 0 }
}

/// How many of a module's child references are dynamic imports.
pub open spec fn lazy_count(n: NodeView) -> nat {
    match n.kind {
        ModuleKind::Container { lazy_a, lazy_b, lazy_c, .. } => bit(lazy_a) + bit(lazy_b) + bit(lazy_c),
        ModuleKind::Leaf => 0,
    }
}

pub open spec fn count_containers(ns: Seq<NodeView>) -> nat
    decreases ns.len(),
{
    if ns.len() == 0 { 0 } else { bit(is_container(ns[0])) + count_containers(ns.drop_first()) }
}

pub open spec fn count_nested(ns: Seq<NodeView>) -> nat
    decreases ns.len(),
{
    if ns.len() == 0 { 0 } else { bit(is_nested(ns[0])) + count_nested(ns.drop_first()) }
}

pub open spec fn count_lazy(ns: Seq<NodeView>) -> nat
    decreases ns.len(),
{
    if ns.len() == 0 { 0 } else { lazy_count(ns[0]) + count_lazy(ns.drop_first()) }
}

pub open spec fn count_hydration(ns: Seq<NodeView>) -> nat
    decreases ns.len(),
{
    if ns.len() == 0 { 0 } else { bit(has_hydration(ns[0])) + count_hydration(ns.drop_first()) }
}

proof fn lemma_dynamic_left(d: nat, m: nat)
    ensures
        dynamic_left(d, m) + bit(lazy_a_of(d, m)) + bit(lazy_b_of(d, m)) + bit(lazy_c_of(d, m)) == d,
{
    assert(decide_early_spec(0, m + 2) == false);
    assert(decide_early_spec(0, m + 1) == false);
    assert(decide_early_spec(0, m) == false);
}

proof fn lemma_run_unfold(s: GenState, flatness: nat)
    requires
        s.queue.len() > 0,
    ensures
        run(s, flatness) == seq![step_node(s, flatness)] + run(step_state(s, flatness), flatness),
        run(s, flatness)[0] == step_node(s, flatness),
        run(s, flatness).drop_first() == run(step_state(s, flatness), flatness),
{
    lemma_step_decreases(s, flatness);
    assert((seq![step_node(s, flatness)] + run(step_state(s, flatness), flatness)).drop_first()
        =~= run(step_state(s, flatness), flatness));
}

/// What a generation pass from state `s` on produces, counted against the
/// budgets of `s`.
proof fn lemma_run_counts(s: GenState, flatness: nat)
    ensures
        run(s, flatness).len() == s.queue.len() + 3 * count_containers(run(s, flatness)),
        s.queue.len() > 0 ==> s.modules <= 3 * count_containers(run(s, flatness)) <= s.modules + 2,
        count_nested(run(s, flatness)) <= s.directories,
        count_lazy(run(s, flatness)) <= s.dynamic_imports,
        !s.is_root ==> count_hydration(run(s, flatness)) == 0,
    decreases measure(s),
{
    let r = run(s, flatness);
    if s.queue.len() > 0 {
        let t = step_state(s, flatness);
        lemma_step_decreases(s, flatness);
        lemma_run_unfold(s, flatness);
        lemma_run_counts(t, flatness);
        if !is_leaf(s, flatness) {
            lemma_dynamic_left(s.dynamic_imports, saturating_sub3(s.modules));
            if nests(s) {
                assert(s.directories > 0);
            }
        }
    }
}

proof fn lemma_no_hydration(s: GenState, flatness: nat)
    requires
        !s.is_root,
    ensures
        forall|i: int| 0 <= i < run(s, flatness).len() ==> !has_hydration(#[trigger] run(s, flatness)[i]),
    decreases measure(s),
{
    if s.queue.len() > 0 {
        let t = step_state(s, flatness);
        lemma_step_decreases(s, flatness);
        lemma_run_unfold(s, flatness);
        lemma_no_hydration(t, flatness);
        assert forall|i: int| 0 <= i < run(s, flatness).len() implies !has_hydration(
            #[trigger] run(s, flatness)[i],
        ) by {
            if i > 0 {
                assert(run(s, flatness)[i] == run(t, flatness)[i - 1]);
            }
        }
    }
}

/// Budget conservation: the tree has the root plus three modules for each
/// container, and that total is the module budget, or exceeds it by at most
/// two where the last expansion overshoots.
pub proof fn law_budget_conservation(
    module_count: nat,
    directories_count: nat,
    dynamic_import_count: nat,
    flatness: nat,
)
    ensures
        ({
            let p = plan_spec(module_count, directories_count, dynamic_import_count, flatness);
            &&& p.len() == 1 + 3 * count_containers(p)
            &&& module_count <= p.len() <= module_count + 2
        }),
{
    lemma_run_counts(initial_state(module_count, directories_count, dynamic_import_count), flatness);
}

/// Directory budget: no more containers nest their children than there are
/// directories in the budget.
pub proof fn law_directory_budget(
    module_count: nat,
    directories_count: nat,
    dynamic_import_count: nat,
    flatness: nat,
)
    ensures
        count_nested(plan_spec(module_count, directories_count, dynamic_import_count, flatness))
            <= directories_count,
{
    lemma_run_counts(initial_state(module_count, directories_count, dynamic_import_count), flatness);
}

/// Dynamic import budget: no more child references are dynamic imports than
/// the budget allows.
pub proof fn law_dynamic_import_budget(
    module_count: nat,
    directories_count: nat,
    dynamic_import_count: nat,
    flatness: nat,
)
    ensures
        count_lazy(plan_spec(module_count, directories_count, dynamic_import_count, flatness))
            <= dynamic_import_count,
{
    lemma_run_counts(initial_state(module_count, directories_count, dynamic_import_count), flatness);
}

/// The root is always `src/triangle.jsx` and is processed first; it is a
/// leaf, and the whole tree, exactly when the module budget is at most one.
/// The hydration marker is on the root when it is a container, and on no
/// other module.
pub proof fn law_root_and_hydration(
    module_count: nat,
    directories_count: nat,
    dynamic_import_count: nat,
    flatness: nat,
)
    ensures
        ({
            let p = plan_spec(module_count, directories_count, dynamic_import_count, flatness);
            &&& p.len() >= 1
            &&& p[0].dir == root_dir() && p[0].stem == root_stem()
            &&& module_count >= 2 ==> p[0].kind is Container && has_hydration(p[0])
            &&& module_count < 2 ==> p.len() == 1 && p[0].kind is Leaf
            &&& forall|i: int| 0 < i < p.len() ==> !has_hydration(#[trigger] p[i])
            &&& count_hydration(p) == bit(module_count >= 2)
        }),
{
    let s = initial_state(module_count, directories_count, dynamic_import_count);
    let p = run(s, flatness);
    let t = step_state(s, flatness);
    lemma_run_unfold(s, flatness);
    lemma_run_counts(t, flatness);
    if module_count >= 2 {
        lemma_no_hydration(t, flatness);
        assert forall|i: int| 0 < i < p.len() implies !has_hydration(#[trigger] p[i]) by {
            assert(p[i] == run(t, flatness)[i - 1]);
        }
    } else {
        assert(t.queue.len() == 0);
        assert(run(t, flatness).len() == 0);
        assert(count_hydration(run(t, flatness)) == 0);
    }
    assert(count_hydration(p) == bit(has_hydration(p[0])) + count_hydration(run(t, flatness)));
}

/// Determinism: the same configuration always yields the same module files,
/// path for path and byte for byte.
pub proof fn law_determinism(
    a: (nat, nat, nat, nat),
    b: (nat, nat, nat, nat),
)
    requires
        a == b,
    ensures
        module_files_spec(plan_spec(a.0, a.1, a.2, a.3)) == module_files_spec(plan_spec(b.0, b.1, b.2, b.3)),
{
}

/// A queue entry whose directory starts with `s` and which holds no `.`
/// outside the file extension.
pub open spec fn clean_location(loc: (Seq<char>, Seq<char>)) -> bool {
    &&& loc.0.len() > 0
    &&& loc.0[0] == 's'
    &&& forall|i: int| 0 <= i < loc.0.len() ==> #[trigger] loc.0[i] != '.'
    &&& forall|i: int| 0 <= i < loc.1.len() ==> #[trigger] loc.1[i] != '.'
}

proof fn lemma_clean_is_plain(d: Seq<char>)
    requires
        d.len() > 0,
        d[0] == 's',
        forall|i: int| 0 <= i < d.len() ==> #[trigger] d[i] != '.',
    ensures
        plain_dir(d),
{
}

proof fn lemma_children_clean(loc: (Seq<char>, Seq<char>), nested: bool)
    requires
        clean_location(loc),
    ensures
        forall|j: int| 0 <= j < 3 ==> clean_location(#[trigger] children_of(loc, nested)[j]),
{
    reveal_strlit("/");
    reveal_strlit("triangle_1");
    reveal_strlit("triangle_2");
    reveal_strlit("triangle_3");
    reveal_strlit("_1");
    reveal_strlit("_2");
    reveal_strlit("_3");
    let c = children_of(loc, nested);
    assert forall|j: int| 0 <= j < 3 implies clean_location(#[trigger] c[j]) by {
        let d = c[j].0;
        let t = c[j].1;
        assert(d[0] == 's');
        assert forall|i: int| 0 <= i < d.len() implies #[trigger] d[i] != '.' by {
            if nested && i >= loc.0.len() + 1 {
                assert(d[i] == loc.1[i - loc.0.len() - 1]);
            }
        }
        assert forall|i: int| 0 <= i < t.len() implies #[trigger] t[i] != '.' by {
            if !nested && i < loc.1.len() {
                assert(t[i] == loc.1[i]);
            }
        }
    }
}

proof fn lemma_run_clean(s: GenState, flatness: nat)
    requires
        forall|j: int| 0 <= j < s.queue.len() ==> clean_location(#[trigger] s.queue[j]),
    ensures
        all_plain(run(s, flatness)),
    decreases measure(s),
{
    if s.queue.len() > 0 {
        let t = step_state(s, flatness);
        lemma_step_decreases(s, flatness);
        lemma_run_unfold(s, flatness);
        if !is_leaf(s, flatness) {
            lemma_children_clean(s.queue[0], nests(s));
            let ch = children_of(s.queue[0], nests(s));
            let rest = s.queue.drop_first();
            assert forall|j: int| 0 <= j < t.queue.len() implies clean_location(#[trigger] t.queue[j]) by {
                if j < rest.len() {
                    assert(t.queue[j] == s.queue[j + 1]);
                } else {
                    assert(t.queue[j] == ch[j - rest.len()]);
                }
            }
        } else {
            assert forall|j: int| 0 <= j < t.queue.len() implies clean_location(#[trigger] t.queue[j]) by {
                assert(t.queue[j] == s.queue[j + 1]);
            }
        }
        lemma_run_clean(t, flatness);
        let r = run(s, flatness);
        let q = s.queue[0];
        lemma_clean_is_plain(q.0);
        assert forall|i: int| 0 <= i < r.len() implies plain_dir(#[trigger] r[i].dir) by {
            if i > 0 {
                assert(r[i] == run(t, flatness)[i - 1]);
            }
        }
    }
}

/// Every module of a tree lies in a relative directory without a `..`
/// component, so each one can name the instrumentation component.
pub proof fn law_paths_plain(
    module_count: nat,
    directories_count: nat,
    dynamic_import_count: nat,
    flatness: nat,
)
    ensures
        all_plain(plan_spec(module_count, directories_count, dynamic_import_count, flatness)),
{
    reveal_strlit("src");
    reveal_strlit("triangle");
    let s = initial_state(module_count, directories_count, dynamic_import_count);
    assert(clean_location(s.queue[0]));
    lemma_run_clean(s, flatness);
}

} // verus!
