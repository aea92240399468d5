use vstd::prelude::*;
use vstd::set_lib::{lemma_len_subset, FiniteRange};
use crate::project::Project;

verus! {

/// Project `j` is the first of the batch that carries `name`.
pub open spec fn first_named(ps: Seq<Project>, name: Seq<char>, j: int) -> bool {
    &&& 0 <= j < ps.len()
    &&& ps[j].name@ == name
    &&& forall|l: int| 0 <= l < j ==> ps[l].name@ != name
}

/// Project `i` of the batch depends on project `j` of the same batch: one of `i`'s
/// dependency names is carried by `j`, and by no project before `j`.
pub open spec fn depends_on(ps: Seq<Project>, i: int, j: int) -> bool {
    &&& 0 <= i < ps.len()
    &&& exists|k: int|
        0 <= k < ps[i].dependencies@.len() && #[trigger] first_named(ps, ps[i].dependencies@[k].name@, j)
}

/// `c` walks the dependency edges of the batch and closes on itself.
pub open spec fn is_cycle(ps: Seq<Project>, c: Seq<usize>) -> bool {
    &&& c.len() > 0
    &&& forall|k: int| 0 <= k < c.len() ==> c[k] < ps.len()
    &&& forall|k: int| 0 <= k < c.len() - 1 ==> depends_on(ps, #[trigger] c[k] as int, c[k + 1] as int)
    &&& depends_on(ps, c.last() as int, c[0] as int)
}

pub open spec fn has_cycle(ps: Seq<Project>) -> bool {
    exists|c: Seq<usize>| is_cycle(ps, c)
}

/// `ord` lists every project of the batch exactly once, each after all of its
/// in-batch dependencies.
pub open spec fn is_build_order(ps: Seq<Project>, ord: Seq<usize>) -> bool {
    &&& ord.len() == ps.len()
    &&& ord.no_duplicates()
    &&& forall|k: int| 0 <= k < ord.len() ==> ord[k] < ps.len()
    &&& forall|i: usize| i < ps.len() ==> #[trigger] ord.contains(i)
    &&& forall|k: int, j: int|
        0 <= k < ord.len() && #[trigger] depends_on(ps, ord[k] as int, j) ==> exists|m: int|
            0 <= m < k && ord[m] == j
}

/// Colour of a project that is on the current traversal path.
pub const GREY: u8 = 1;

/// Colour of a project that is placed in the build order.
pub const BLACK: u8 = 2;

/// The index of the first project named `name`, if any.
pub open spec fn first_index(ps: Seq<Project>, name: Seq<char>) -> Option<int> {
    if exists|j: int| first_named(ps, name, j) {
        Some(choose|j: int| first_named(ps, name, j))
    } else {
        None
    }
}

/// The place of `x` on a path.
pub open spec fn index_in(path: Seq<usize>, x: usize) -> int {
    choose|l: int| 0 <= l < path.len() && path[l] == x
}

/// Traversal state: the colour of each project, the current path, the order so far.
pub type DfsState = (Seq<u8>, Seq<usize>, Seq<usize>);

/// The depth-first visit of project `v` from state `st`: `v` goes on the path, its
/// in-batch dependencies are visited in declared order, then `v` is placed. `fuel`
/// bounds the depth; the traversal below never runs out of it.
pub open spec fn dfs_visit(ps: Seq<Project>, v: usize, st: DfsState, fuel: nat) -> Result<DfsState, Seq<usize>>
    decreases fuel, 0int, 0int,
{
    if fuel == 0 {
        Err(Seq::empty())
    } else {
        dfs_deps(ps, v, 0, (st.0.update(v as int, GREY), st.1.push(v), st.2), (fuel - 1) as nat)
    }
}

/// The rest of the visit of `v`, from its `k`-th dependency on.
pub open spec fn dfs_deps(ps: Seq<Project>, v: usize, k: int, st: DfsState, fuel: nat) -> Result<DfsState, Seq<usize>>
    decreases fuel, 1int, ps[v as int].dependencies@.len() - k,
{
    if k < 0 || k >= ps[v as int].dependencies@.len() {
        Ok((st.0.update(v as int, BLACK), st.1.drop_last(), st.2.push(v)))
    } else {
        match first_index(ps, ps[v as int].dependencies@[k].name@) {
            None => dfs_deps(ps, v, k + 1, st, fuel),
            Some(j) => if st.0[j] == GREY {
                Err(st.1.subrange(index_in(st.1, j as usize), st.1.len() as int))
            } else if st.0[j] == BLACK {
                dfs_deps(ps, v, k + 1, st, fuel)
            } else {
                match dfs_visit(ps, j as usize, st, fuel) {
                    Err(c) => Err(c),
                    Ok(st2) => dfs_deps(ps, v, k + 1, st2, fuel),
                }
            },
        }
    }
}

/// The traversal from the `i`-th project of the batch on.
pub open spec fn dfs_from(ps: Seq<Project>, i: int, st: DfsState) -> Result<Seq<usize>, Seq<usize>>
    decreases ps.len() - i,
{
    if i < 0 || i >= ps.len() {
        Ok(st.2)
    } else if st.0[i] == BLACK {
        dfs_from(ps, i + 1, st)
    } else {
        match dfs_visit(ps, i as usize, st, ps.len()) {
            Err(c) => Err(c),
            Ok(st2) => dfs_from(ps, i + 1, st2),
        }
    }
}

/// What resolving a batch gives: the build order, or the cycle met first.
pub open spec fn resolution(ps: Seq<Project>) -> Result<Seq<usize>, Seq<usize>> {
    dfs_from(ps, 0, (Seq::new(ps.len(), |i: int| 0u8), Seq::empty(), Seq::empty()))
}

/// The same batch always resolves to the same order, or the same cycle.
pub proof fn lemma_resolution_is_deterministic(
    ps: Seq<Project>,
    r1: Result<Seq<usize>, Seq<usize>>,
    r2: Result<Seq<usize>, Seq<usize>>,
)
    requires
        r1 == resolution(ps),
        r2 == resolution(ps),
    ensures
        r1 == r2,
{
}

proof fn lemma_first_named_unique(ps: Seq<Project>, name: Seq<char>, j1: int, j2: int)
    requires
        first_named(ps, name, j1),
        first_named(ps, name, j2),
    ensures
        j1 == j2,
{
    if j1 < j2 {
        assert(ps[j1].name@ == name);
    } else if j2 < j1 {
        assert(ps[j2].name@ == name);
    }
}

/// The traversal state: grey projects are on the current path, black ones are
/// placed in `order` after all of their dependencies.
pub open spec fn dfs_inv(ps: Seq<Project>, color: Seq<u8>, path: Seq<usize>, order: Seq<usize>) -> bool {
    let n = ps.len();
    &&& color.len() == n
    &&& path.no_duplicates()
    &&& forall|k: int| 0 <= k < path.len() ==> path[k] < n && color[path[k] as int] == GREY
    &&& forall|i: int| 0 <= i < n && color[i] == GREY ==> path.contains(i as usize)
    &&& forall|k: int| 0 <= k < path.len() - 1 ==> depends_on(ps, #[trigger] path[k] as int, path[k + 1] as int)
    &&& order.no_duplicates()
    &&& forall|k: int| 0 <= k < order.len() ==> order[k] < n && color[order[k] as int] == BLACK
    &&& forall|i: int| 0 <= i < n && color[i] == BLACK ==> order.contains(i as usize)
    &&& forall|k: int, j: int|
        0 <= k < order.len() && #[trigger] depends_on(ps, order[k] as int, j) ==> exists|m: int|
            0 <= m < k && order[m] == j
}

proof fn lemma_distinct_below(s: Seq<usize>, n: usize)
    requires
        s.no_duplicates(),
        forall|k: int| 0 <= k < s.len() ==> s[k] < n,
    ensures
        s.len() <= n,
{
    s.unique_seq_to_set();
    let r = <usize as FiniteRange>::range_set(0, n);
    <usize as FiniteRange>::range_properties(0, n);
    assert forall|x: usize| s.to_set().contains(x) implies r.contains(x) by {
        assert(s.contains(x));
    }
    lemma_len_subset(s.to_set(), r);
}

/// The index of the first project named `name`, if any.
fn find_project(ps: &[Project], name: &String) -> (r: Option<usize>)
    ensures
        match r {
            Some(j) => first_named(ps@, name@, j as int),
            None => forall|j: int| 0 <= j < ps@.len() ==> ps@[j].name@ != name@,
        },
        r matches Some(j) ==> first_index(ps@, name@) == Some(j as int),
        r is None ==> first_index(ps@, name@) is None,
{
    let mut i: usize = 0;
    while i < ps.len()
        invariant
            i <= ps@.len(),
            forall|l: int| 0 <= l < i ==> ps@[l].name@ != name@,
        decreases ps.len() - i,
    {
        if ps[i].name.eq(name) {
            proof {
                assert(first_named(ps@, name@, i as int));
                let c = choose|j: int| first_named(ps@, name@, j);
                lemma_first_named_unique(ps@, name@, c, i as int);
            }
            return Some(i);
        }
        i = i + 1;
    }
    assert(!exists|j: int| first_named(ps@, name@, j));
    None
}


/// The position of `v` on `path`.
fn position_on_path(path: &Vec<usize>, v: usize) -> (r: usize)
    requires
        path@.contains(v),
    ensures
        r < path@.len(),
        path@[r as int] == v,
        path@.no_duplicates() ==> r == index_in(path@, v),
{
    let mut i: usize = 0;
    while i < path.len()
        invariant
            i <= path@.len(),
            forall|l: int| 0 <= l < i ==> path@[l] != v,
        decreases path.len() - i,
    {
        if path[i] == v {
            proof {
                let c = choose|l: int| 0 <= l < path@.len() && path@[l] == v;
                assert(path@[c] == v);
            }
            return i;
        }
        i = i + 1;
    }
    proof {
        let w = choose|l: int| 0 <= l < path@.len() && path@[l] == v;
        assert(path@[w] == v);
    }
    i
}

/// Post-order visit of white project `v`: each in-batch dependency in declared
/// order, then `v` itself. Meeting a project that is still on the path is a cycle.
#[verifier::rlimit(100)]
fn visit(
    ps: &[Project],
    v: usize,
    color: &mut Vec<u8>,
    path: &mut Vec<usize>,
    order: &mut Vec<usize>,
) -> (r: Result<(), Vec<usize>>)
    requires
        dfs_inv(ps@, old(color)@, old(path)@, old(order)@),
        v < ps@.len(),
        old(color)@[v as int] != GREY,
        old(color)@[v as int] != BLACK,
        old(path)@.len() > 0 ==> depends_on(ps@, old(path)@.last() as int, v as int),
    ensures
        r is Ok ==> {
            &&& dfs_inv(ps@, final(color)@, final(path)@, final(order)@)
            &&& final(path)@ == old(path)@
            &&& final(color)@[v as int] == BLACK
            &&& forall|i: int| 0 <= i < ps@.len() && old(color)@[i] == GREY ==> final(color)@[i] == GREY
            &&& forall|i: int| 0 <= i < ps@.len() && old(color)@[i] == BLACK ==> final(color)@[i] == BLACK
            &&& old(order)@.len() <= final(order)@.len()
            &&& forall|k: int| 0 <= k < old(order)@.len() ==> final(order)@[k] == old(order)@[k]
            &&& dfs_visit(ps@, v, (old(color)@, old(path)@, old(order)@), (ps@.len() - old(path)@.len()) as nat)
                == Ok::<DfsState, Seq<usize>>((final(color)@, final(path)@, final(order)@))
        },
        r matches Err(c) ==> {
            &&& is_cycle(ps@, c@)
            &&& dfs_visit(ps@, v, (old(color)@, old(path)@, old(order)@), (ps@.len() - old(path)@.len()) as nat)
                == Err::<DfsState, Seq<usize>>(c@)
        },
    decreases ps@.len() - old(path)@.len(),
{
    let ghost n = ps@.len();
    let ghost total = dfs_visit(ps@, v, (color@, path@, order@), (ps@.len() - path@.len()) as nat);
    proof {
        lemma_distinct_below(path@, ps.len());
        if path@.contains(v) {
            let w = choose|l: int| 0 <= l < path@.len() && path@[l] == v;
            assert(color@[path@[w] as int] == GREY);
        }
    }
    color.set(v, GREY);
    path.push(v);
    let ghost color0 = color@;
    let ghost order0 = order@;
    proof {
        assert(path@.no_duplicates());
        assert forall|k: int| 0 <= k < path@.len() - 1 implies depends_on(ps@, #[trigger] path@[k] as int, path@[k + 1] as int) by {
            if k < path@.len() - 2 {
                assert(path@[k] == old(path)@[k]);
                assert(path@[k + 1] == old(path)@[k + 1]);
            }
        }
        assert forall|i: int| 0 <= i < n && color@[i] == GREY implies path@.contains(i as usize) by {
            if i != v {
                assert(old(path)@.contains(i as usize));
                let w = choose|l: int| 0 <= l < old(path)@.len() && old(path)@[l] == i as usize;
                assert(path@[w] == i as usize);
            } else {
                assert(path@[path@.len() - 1] == v);
            }
        }
        assert forall|i: int| 0 <= i < n && color@[i] == BLACK implies order@.contains(i as usize) by {
            assert(old(color)@[i] == BLACK);
        }
        lemma_distinct_below(path@, ps.len());
    }
    let ghost fuel1: nat = (n - path@.len()) as nat;
    assert(total == dfs_deps(ps@, v, 0, (color@, path@, order@), fuel1));
    let deps = &ps[v].dependencies;
    let mut k: usize = 0;
    while k < deps.len()
        invariant
            n == ps@.len(),
            v < n,
            deps@ == ps@[v as int].dependencies@,
            k <= deps@.len(),
            dfs_inv(ps@, color@, path@, order@),
            path@ == old(path)@.push(v),
            color@[v as int] == GREY,
            forall|i: int| 0 <= i < n && color0[i] == GREY ==> color@[i] == GREY,
            forall|i: int| 0 <= i < n && color0[i] == BLACK ==> color@[i] == BLACK,
            forall|i: int| 0 <= i < n && old(color)@[i] == GREY ==> color0[i] == GREY,
            forall|i: int| 0 <= i < n && old(color)@[i] == BLACK ==> color0[i] == BLACK,
            order0 == old(order)@,
            old(order)@.len() <= order@.len(),
            forall|m: int| 0 <= m < old(order)@.len() ==> order@[m] == old(order)@[m],
            forall|l: int, j: int|
                0 <= l < k && #[trigger] first_named(ps@, deps@[l].name@, j) ==> color@[j] == BLACK,
            fuel1 == n - path@.len(),
            dfs_deps(ps@, v, k as int, (color@, path@, order@), fuel1) == total,
            total == dfs_visit(ps@, v, (old(color)@, old(path)@, old(order)@), (n - old(path)@.len()) as nat),
        decreases deps.len() - k,
    {
        match find_project(ps, &deps[k].name) {
            None => {
                assert forall|l: int, j: int|
                    0 <= l < k + 1 && #[trigger] first_named(ps@, deps@[l].name@, j) implies color@[j] == BLACK by {
                    if l == k {
                        assert(ps@[j].name@ == deps@[k as int].name@);
                    }
                }
            },
            Some(j) => {
                assert(depends_on(ps@, v as int, j as int)) by {
                    assert(first_named(ps@, ps@[v as int].dependencies@[k as int].name@, j as int));
                }
                if color[j] == GREY {
                    proof {
                        assert(path@.contains(j));
                    }
                    let p = position_on_path(path, j);
                    let mut cycle: Vec<usize> = Vec::new();
                    let mut q: usize = p;
                    while q < path.len()
                        invariant
                            p <= q <= path@.len(),
                            p < path@.len(),
                            path@[p as int] == j,
                            cycle@ == path@.subrange(p as int, q as int),
                        decreases path.len() - q,
                    {
                        cycle.push(path[q]);
                        q = q + 1;
                        proof {
                            assert(cycle@ =~= path@.subrange(p as int, q as int));
                        }
                    }
                    proof {
                        assert(forall|i: int| 0 <= i < path@.len() - 1 ==> depends_on(ps@, #[trigger] path@[i] as int, path@[i + 1] as int));
                        assert forall|i: int| 0 <= i < cycle@.len() - 1 implies depends_on(ps@, #[trigger] cycle@[i] as int, cycle@[i + 1] as int) by {
                            assert(cycle@[i] == path@[p + i]);
                            assert(cycle@[i + 1] == path@[p + i + 1]);
                        }
                        assert(cycle@.last() == v);
                        assert(cycle@[0] == j);
                        assert forall|i: int| 0 <= i < cycle@.len() implies cycle@[i] < ps@.len() by {
                            assert(cycle@[i] == path@[p + i]);
                        }
                    }
                    assert(total == Err::<DfsState, Seq<usize>>(cycle@));
                    return Err(cycle);
                } else if color[j] != BLACK {
                    proof {
                        lemma_distinct_below(path@, ps.len());
                    }
                    let ghost st = (color@, path@, order@);
                    let res = visit(ps, j, color, path, order);
                    match res {
                        Err(c) => {
                            assert(dfs_deps(ps@, v, k as int, st, fuel1) == Err::<DfsState, Seq<usize>>(c@));
                            assert(total == Err::<DfsState, Seq<usize>>(c@));
                            return Err(c);
                        },
                        Ok(()) => {},
                    }
                }
                assert forall|l: int, j2: int|
                    0 <= l < k + 1 && #[trigger] first_named(ps@, deps@[l].name@, j2) implies color@[j2] == BLACK by {
                    if l == k {
                        if j2 != j {
                            if j2 < j {
                                assert(ps@[j2].name@ != deps@[k as int].name@);
                            } else {
                                assert(ps@[j as int].name@ != deps@[k as int].name@);
                            }
                        }
                    }
                }
            },
        }
        k = k + 1;
    }
    let ghost pre_order = order@;
    let ghost pre_color = color@;
    let ghost pre_path = path@;
    color.set(v, BLACK);
    path.pop();
    order.push(v);
    proof {
        assert(path@ =~= old(path)@);
        assert(!pre_order.contains(v)) by {
            if pre_order.contains(v) {
                let w = choose|l: int| 0 <= l < pre_order.len() && pre_order[l] == v;
                assert(pre_color[pre_order[w] as int] == BLACK);
            }
        }
        assert forall|i: int| 0 <= i < n && color@[i] == GREY implies path@.contains(i as usize) by {
            assert(pre_color[i] == GREY);
            assert(old(path)@.push(v).contains(i as usize));
            let w = choose|l: int| 0 <= l < old(path)@.push(v).len() && old(path)@.push(v)[l] == i as usize;
            assert(w < old(path)@.len());
            assert(path@[w] == i as usize);
        }
        assert forall|kk: int| 0 <= kk < path@.len() implies path@[kk] < n && color@[path@[kk] as int] == GREY by {
            assert(old(path)@.push(v)[kk] == path@[kk]);
            assert(old(path)@.no_duplicates());
            assert(old(path)@.push(v).no_duplicates());
            assert(old(path)@.push(v)[old(path)@.len() as int] == v);
        }
        assert forall|kk: int| 0 <= kk < path@.len() - 1 implies depends_on(ps@, #[trigger] path@[kk] as int, path@[kk + 1] as int) by {
            assert(old(path)@.push(v)[kk] == path@[kk]);
            assert(old(path)@.push(v)[kk + 1] == path@[kk + 1]);
            assert(depends_on(ps@, old(path)@.push(v)[kk] as int, old(path)@.push(v)[kk + 1] as int));
        }
        assert forall|i: int| 0 <= i < n && color@[i] == BLACK implies order@.contains(i as usize) by {
            if i == v {
                assert(order@[order@.len() - 1] == v);
            } else {
                assert(pre_order.contains(i as usize));
                let w = choose|l: int| 0 <= l < pre_order.len() && pre_order[l] == i as usize;
                assert(order@[w] == i as usize);
            }
        }
        assert forall|kk: int| 0 <= kk < order@.len() implies order@[kk] < n && color@[order@[kk] as int] == BLACK by {
            if kk < pre_order.len() {
                assert(order@[kk] == pre_order[kk]);
            }
        }
        assert forall|kk: int, j: int|
            0 <= kk < order@.len() && #[trigger] depends_on(ps@, order@[kk] as int, j) implies exists|m: int|
                0 <= m < kk && order@[m] == j by {
            if kk < pre_order.len() {
                assert(order@[kk] == pre_order[kk]);
                let m = choose|m: int| 0 <= m < kk && pre_order[m] == j;
                assert(order@[m] == j);
            } else {
                assert(order@[kk] == v);
                let l = choose|l: int|
                    0 <= l < ps@[v as int].dependencies@.len() && #[trigger] first_named(ps@, ps@[v as int].dependencies@[l].name@, j);
                assert(first_named(ps@, deps@[l].name@, j));
                assert(pre_color[j] == BLACK);
                assert(pre_order.contains(j as usize));
                let m = choose|m: int| 0 <= m < pre_order.len() && pre_order[m] == j as usize;
                assert(order@[m] == j);
            }
        }
        assert forall|i: int| 0 <= i < n && old(color)@[i] == GREY implies color@[i] == GREY by {
            assert(pre_color[i] == GREY);
            if i == v {
                assert(old(path)@.contains(v));
                let w = choose|l: int| 0 <= l < old(path)@.len() && old(path)@[l] == v;
                assert(old(color)@[old(path)@[w] as int] == GREY);
            }
        }
        assert forall|kk: int| 0 <= kk < old(order)@.len() implies order@[kk] == old(order)@[kk] by {
            assert(pre_order[kk] == old(order)@[kk]);
        }
        assert(color@ == pre_color.update(v as int, BLACK));
        assert(path@ == pre_path.drop_last());
        assert(order@ == pre_order.push(v));
        assert(total == Ok::<DfsState, Seq<usize>>((color@, path@, order@)));
    }
    Ok(())
}

/// Why a batch has no build order.
#[derive(Debug)]
pub enum ResolveError {
    /// The names of projects that depend on each other in a ring, each on the next
    /// and the last on the first.
    CyclicDependency { cycle: Vec<String> },
}

/// A position of `x` in `o`.
pub open spec fn position_of(o: Seq<usize>, x: usize) -> int {
    choose|m: int| 0 <= m < o.len() && o[m] == x
}

proof fn lemma_edge_points_back(ps: Seq<Project>, o: Seq<usize>, a: usize, b: usize)
    requires
        is_build_order(ps, o),
        a < ps.len(),
        depends_on(ps, a as int, b as int),
    ensures
        b < ps.len(),
        0 <= position_of(o, b) < position_of(o, a),
        o[position_of(o, a)] == a,
        o[position_of(o, b)] == b,
{
    let l = choose|l: int| 0 <= l < ps[a as int].dependencies@.len() && #[trigger] first_named(ps, ps[a as int].dependencies@[l].name@, b as int);
    assert(o.contains(a));
    assert(o.contains(b));
    let ka = position_of(o, a);
    let kb = position_of(o, b);
    assert(depends_on(ps, o[ka] as int, b as int));
    let m = choose|m: int| 0 <= m < ka && o[m] == b;
    assert(kb == m);
}

proof fn lemma_cycle_descends(ps: Seq<Project>, o: Seq<usize>, c: Seq<usize>, k: int)
    requires
        is_build_order(ps, o),
        is_cycle(ps, c),
        0 <= k < c.len(),
    ensures
        position_of(o, c[k]) <= position_of(o, c[0]) - k,
    decreases k,
{
    if k > 0 {
        lemma_cycle_descends(ps, o, c, k - 1);
        assert(depends_on(ps, c[k - 1] as int, c[k] as int));
        lemma_edge_points_back(ps, o, c[k - 1], c[k]);
    }
}

/// A batch with a build order has no cycle.
pub proof fn lemma_build_order_excludes_cycles(ps: Seq<Project>, o: Seq<usize>, c: Seq<usize>)
    requires
        is_build_order(ps, o),
    ensures
        !is_cycle(ps, c),
{
    if is_cycle(ps, c) {
        lemma_cycle_descends(ps, o, c, c.len() - 1);
        lemma_edge_points_back(ps, o, c.last(), c[0]);
    }
}

/// The indices of the batch in build order, or a cycle of indices where none exists.
pub fn resolve_order(ps: &[Project]) -> (r: Result<Vec<usize>, Vec<usize>>)
    ensures
        match r {
            Ok(o) => is_build_order(ps@, o@) && resolution(ps@) == Ok::<Seq<usize>, Seq<usize>>(o@),
            Err(c) => is_cycle(ps@, c@) && resolution(ps@) == Err::<Seq<usize>, Seq<usize>>(c@),
        },
        r is Ok <==> !has_cycle(ps@),
{
    let n = ps.len();
    let mut color: Vec<u8> = Vec::new();
    let mut i: usize = 0;
    while i < n
        invariant
            i <= n,
            n == ps@.len(),
            color@.len() == i,
            forall|l: int| 0 <= l < i ==> color@[l] == 0,
        decreases n - i,
    {
        color.push(0);
        i = i + 1;
    }
    let mut path: Vec<usize> = Vec::new();
    let mut order: Vec<usize> = Vec::new();
    assert(color@ =~= Seq::new(ps@.len(), |i: int| 0u8));
    assert(path@ =~= Seq::<usize>::empty());
    assert(order@ =~= Seq::<usize>::empty());
    i = 0;
    while i < n
        invariant
            i <= n,
            n == ps@.len(),
            dfs_inv(ps@, color@, path@, order@),
            path@.len() == 0,
            forall|l: int| 0 <= l < i ==> color@[l] == BLACK,
            dfs_from(ps@, i as int, (color@, path@, order@)) == resolution(ps@),
        decreases n - i,
    {
        if color[i] != BLACK {
            assert(color@[i as int] != GREY) by {
                if color@[i as int] == GREY {
                    assert(path@.contains(i));
                }
            }
            let ghost st = (color@, path@, order@);
            match visit(ps, i, &mut color, &mut path, &mut order) {
                Err(c) => {
                    assert(dfs_from(ps@, i as int, st) == Err::<Seq<usize>, Seq<usize>>(c@));
                    return Err(c);
                },
                Ok(()) => {},
            }
        }
        i = i + 1;
    }
    proof {
        lemma_distinct_below(order@, n);
        order@.unique_seq_to_set();
        let r = <usize as FiniteRange>::range_set(0, n);
        <usize as FiniteRange>::range_properties(0, n);
        assert forall|x: usize| r.contains(x) implies order@.to_set().contains(x) by {
            assert(color@[x as int] == BLACK);
            assert(order@.contains(x));
        }
        lemma_len_subset(r, order@.to_set());
        assert forall|x: usize| x < ps@.len() implies #[trigger] order@.contains(x) by {
            assert(color@[x as int] == BLACK);
        }
        assert(is_build_order(ps@, order@));
        assert forall|c: Seq<usize>| !is_cycle(ps@, c) by {
            lemma_build_order_excludes_cycles(ps@, order@, c);
        }
    }
    Ok(order)
}

/// The projects of the batch in build order: every project once, each after the
/// projects of the batch that it depends on. Fails, naming a cycle, where the
/// dependencies of the batch go round in a ring.
pub fn resolve_dependencies<'a>(projects: &'a [Project]) -> (r: Result<Vec<&'a Project>, ResolveError>)
    ensures
        match r {
            Ok(v) => {
                &&& resolution(projects@) is Ok
                &&& is_build_order(projects@, resolution(projects@)->Ok_0)
                &&& v@.len() == resolution(projects@)->Ok_0.len()
                &&& forall|k: int|
                    0 <= k < v@.len() ==> *v@[k] == projects@[resolution(projects@)->Ok_0[k] as int]
            },
            Err(ResolveError::CyclicDependency { cycle }) => {
                &&& resolution(projects@) is Err
                &&& is_cycle(projects@, resolution(projects@)->Err_0)
                &&& cycle@.len() == resolution(projects@)->Err_0.len()
                &&& forall|k: int|
                    0 <= k < cycle@.len() ==> cycle@[k]@ == projects@[resolution(projects@)->Err_0[k] as int].name@
            },
        },
        r is Ok <==> !has_cycle(projects@),
{
    match resolve_order(projects) {
        Ok(o) => {
            let mut v: Vec<&'a Project> = Vec::new();
            let mut k: usize = 0;
            while k < o.len()
                invariant
                    k <= o@.len(),
                    is_build_order(projects@, o@),
                    v@.len() == k,
                    forall|l: int| 0 <= l < k ==> *v@[l] == projects@[o@[l] as int],
                decreases o.len() - k,
            {
                v.push(&projects[o[k]]);
                k = k + 1;
            }
            Ok(v)
        },
        Err(c) => {
            let mut cycle: Vec<String> = Vec::new();
            let mut k: usize = 0;
            while k < c.len()
                invariant
                    k <= c@.len(),
                    is_cycle(projects@, c@),
                    cycle@.len() == k,
                    forall|l: int| 0 <= l < k ==> cycle@[l]@ == projects@[c@[l] as int].name@,
                decreases c.len() - k,
            {
                cycle.push(projects[c[k]].name.clone());
                k = k + 1;
            }
            Err(ResolveError::CyclicDependency { cycle })
        },
    }
}

} // verus!
