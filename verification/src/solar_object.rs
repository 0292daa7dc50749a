//! Building the celestial-body tree from loaded records.
//!
//! The scene file lists bodies flat, each naming its parent; exactly one, the
//! sun, has none. The builder turns the list into the arena the hierarchy
//! works on — root first, every parent before its children — and rejects
//! malformed scenes: duplicate names, no root or several, a body whose parent
//! chain never reaches the root (an undefined reference or a cycle), or a
//! period of zero.

use vstd::prelude::*;

use crate::render_solar_object::{OrbitalBody, SolarSystem};

verus! {

/// One body as the scene file describes it: its numbers and the name of its
/// parent.
#[derive(Debug, Clone)]
pub struct BodyRecord {
    pub name: String,
    pub parent: Option<String>,
    pub radius: u64,
    pub distance_from_parent: u64,
    pub orbital_period_ms: Option<u64>,
    pub rotation_period_ms: u64,
    pub tilt: i64,
}

/// No two records share a name, so every parent reference is unambiguous.
pub open spec fn names_distinct(records: Seq<BodyRecord>) -> bool {
    forall|i: int, j: int| 0 <= i < j < records.len()
        ==> (#[trigger] records[i].name)@ != (#[trigger] records[j].name)@
}

/// Every rotation period is positive, and so is every orbital period that is
/// present.
pub open spec fn periods_valid(records: Seq<BodyRecord>) -> bool {
    &&& forall|i: int| 0 <= i < records.len()
        ==> (#[trigger] records[i].rotation_period_ms) > 0
    &&& forall|i: int| 0 <= i < records.len()
        ==> ((#[trigger] records[i].orbital_period_ms) matches Some(p) ==> p > 0)
}

/// Record `c` names record `p` as its parent.
pub open spec fn child_of(records: Seq<BodyRecord>, c: int, p: int) -> bool {
    records[c].parent matches Some(nm) && nm@ == records[p].name@
}

/// Index `i` occurs somewhere in `order`.
pub open spec fn appears(order: Seq<int>, i: int) -> bool {
    exists|k: int| 0 <= k < order.len() && #[trigger] order[k] == i
}

/// `order` lists every record exactly once, parentless first, and each later
/// record's parent earlier in the list: the shape of a tree walked root
/// first.
pub open spec fn valid_order(records: Seq<BodyRecord>, order: Seq<int>) -> bool {
    &&& records.len() > 0
    &&& order.len() == records.len()
    &&& forall|k: int| 0 <= k < order.len() ==> 0 <= #[trigger] order[k] < records.len()
    &&& forall|k1: int, k2: int| 0 <= k1 < k2 < order.len()
        ==> #[trigger] order[k1] != #[trigger] order[k2]
    &&& forall|i: int| 0 <= i < records.len() ==> #[trigger] appears(order, i)
    &&& records[order[0]].parent is None
    &&& forall|k: int| 1 <= k < order.len()
        ==> exists|j: int| 0 <= j < k && child_of(records, #[trigger] order[k], order[j])
}

/// The records describe a well-formed scene: unambiguous names, sound
/// periods, and parent references that form one tree.
pub open spec fn forms_tree(records: Seq<BodyRecord>) -> bool {
    &&& names_distinct(records)
    &&& periods_valid(records)
    &&& exists|order: Seq<int>| valid_order(records, order)
}

/// How many entries of a boolean sequence are set.
pub open spec fn count_true(s: Seq<bool>) -> int
    decreases s.len(),
{
    if s.len() == 0 {
        0
    } else {
        count_true(s.drop_last()) + if s.last() { 1int } else { 0int }
    }
}

/// The count of set entries lies between zero and the length.
proof fn lemma_count_true_le(s: Seq<bool>)
    ensures
        0 <= count_true(s) <= s.len(),
    decreases s.len(),
{
    if s.len() > 0 {
        lemma_count_true_le(s.drop_last());
    }
}

/// Setting an unset entry raises the count by one.
proof fn lemma_count_true_update(s: Seq<bool>, i: int)
    requires
        0 <= i < s.len(),
        !s[i],
    ensures
        count_true(s.update(i, true)) == count_true(s) + 1,
    decreases s.len(),
{
    let t = s.update(i, true);
    if i == s.len() - 1 {
        assert(t.drop_last() =~= s.drop_last());
    } else {
        assert(t.drop_last() =~= s.drop_last().update(i, true));
        lemma_count_true_update(s.drop_last(), i);
    }
}

/// A full count means every entry is set.
proof fn lemma_count_true_full(s: Seq<bool>)
    requires
        count_true(s) == s.len(),
    ensures
        forall|i: int| 0 <= i < s.len() ==> s[i],
    decreases s.len(),
{
    if s.len() > 0 {
        lemma_count_true_le(s.drop_last());
        lemma_count_true_full(s.drop_last());
        assert(forall|i: int| 0 <= i < s.len() - 1 ==> s[i] == s.drop_last()[i]);
    }
}

/// No entry of a boolean sequence set means a count of zero.
proof fn lemma_count_true_zero(s: Seq<bool>)
    requires
        forall|i: int| 0 <= i < s.len() ==> !s[i],
    ensures
        count_true(s) == 0,
    decreases s.len(),
{
    if s.len() > 0 {
        lemma_count_true_zero(s.drop_last());
    }
}

/// Every entry of a boolean sequence set means a full count.
proof fn lemma_count_true_all(s: Seq<bool>)
    requires
        forall|i: int| 0 <= i < s.len() ==> s[i],
    ensures
        count_true(s) == s.len(),
    decreases s.len(),
{
    if s.len() > 0 {
        lemma_count_true_all(s.drop_last());
    }
}

/// Index `a` occurs somewhere in the found list.
pub open spec fn found_contains(found: Seq<usize>, a: int) -> bool {
    exists|kk: int| 0 <= kk < found.len() && (#[trigger] found[kk]) as int == a
}

/// The state of a finished search from the root: everything found is marked,
/// everything marked was found, and every child of a found record is marked —
/// the search has closed over the records reachable from the unique root.
pub open spec fn search_closed(
    records: Seq<BodyRecord>,
    taken: Seq<bool>,
    found: Seq<usize>,
    root: int,
) -> bool {
    &&& taken.len() == records.len()
    &&& 0 <= root < records.len()
    &&& records[root].parent is None
    &&& forall|a: int| 0 <= a < records.len() && (#[trigger] records[a].parent) is None
        ==> a == root
    &&& taken[root]
    &&& forall|kk: int| 0 <= kk < found.len() ==> (#[trigger] found[kk]) < records.len()
    &&& forall|kk: int| 0 <= kk < found.len() ==> taken[(#[trigger] found[kk]) as int]
    &&& forall|a: int| 0 <= a < records.len() && taken[a] ==> #[trigger] found_contains(found, a)
    &&& forall|a: int, kk: int| 0 <= a < records.len() && 0 <= kk < found.len()
        && #[trigger] child_of(records, a, found[kk] as int) ==> taken[a]
}

/// In a closed search every record of a tree order is marked: its parent
/// chain descends the order to the root, which the search started from.
proof fn lemma_order_taken(
    records: Seq<BodyRecord>,
    taken: Seq<bool>,
    found: Seq<usize>,
    root: int,
    order: Seq<int>,
    k: int,
)
    requires
        search_closed(records, taken, found, root),
        valid_order(records, order),
        0 <= k < order.len(),
    ensures
        taken[order[k]],
    decreases k,
{
    if k == 0 {
        assert(order[0] == root);
    } else {
        let j = choose|j: int| 0 <= j < k && child_of(records, order[k], order[j]);
        lemma_order_taken(records, taken, found, root, order, j);
        assert(found_contains(found, order[j]));
        let kk = choose|kk: int|
            0 <= kk < found.len() && (#[trigger] found[kk]) as int == order[j];
        assert(child_of(records, order[k], found[kk] as int));
    }
}

/// A closed search that did not mark every record refutes any tree order:
/// the records do not form a tree.
proof fn lemma_unreached_no_tree(
    records: Seq<BodyRecord>,
    taken: Seq<bool>,
    found: Seq<usize>,
    root: int,
)
    requires
        search_closed(records, taken, found, root),
        count_true(taken) < records.len(),
    ensures
        !forms_tree(records),
{
    if exists|order: Seq<int>| valid_order(records, order) {
        let order = choose|order: Seq<int>| valid_order(records, order);
        assert forall|a: int| 0 <= a < records.len() implies taken[a] by {
            assert(appears(order, a));
            let k = choose|k: int| 0 <= k < order.len() && #[trigger] order[k] == a;
            lemma_order_taken(records, taken, found, root, order, k);
        }
        lemma_count_true_all(taken);
        assert(false);
    }
}

/// Without any parentless record there is no tree order: nothing can stand
/// first.
proof fn lemma_no_root_no_tree(records: Seq<BodyRecord>)
    requires
        forall|a: int| 0 <= a < records.len() ==> (#[trigger] records[a].parent) is Some,
    ensures
        !forms_tree(records),
{
    if exists|order: Seq<int>| valid_order(records, order) {
        let order = choose|order: Seq<int>| valid_order(records, order);
        assert(records[order[0]].parent is None);
        assert(false);
    }
}

/// With two parentless records there is no tree order: only one can stand
/// first, and the other can then name no parent.
proof fn lemma_two_roots_no_tree(records: Seq<BodyRecord>, r1: int, r2: int)
    requires
        0 <= r1 < records.len(),
        0 <= r2 < records.len(),
        r1 != r2,
        records[r1].parent is None,
        records[r2].parent is None,
    ensures
        !forms_tree(records),
{
    if exists|order: Seq<int>| valid_order(records, order) {
        let order = choose|order: Seq<int>| valid_order(records, order);
        assert(appears(order, r1));
        assert(appears(order, r2));
        let k1 = choose|k: int| 0 <= k < order.len() && #[trigger] order[k] == r1;
        let k2 = choose|k: int| 0 <= k < order.len() && #[trigger] order[k] == r2;
        let k = if k1 == 0 { k2 } else { k1 };
        assert(k >= 1);
        let j = choose|j: int| 0 <= j < k && child_of(records, order[k], order[j]);
        assert(records[order[k]].parent is Some);
        assert(false);
    }
}

/// The arena entry `k` carries the data of record `rec`, with its parent
/// reference resolved to an earlier arena index of the right name.
pub open spec fn body_matches(rec: BodyRecord, bodies: Seq<OrbitalBody>, k: int) -> bool {
    &&& bodies[k].name@ == rec.name@
    &&& bodies[k].radius == rec.radius
    &&& bodies[k].distance_from_parent == rec.distance_from_parent
    &&& bodies[k].orbital_period_ms == rec.orbital_period_ms
    &&& bodies[k].rotation_period_ms == rec.rotation_period_ms
    &&& bodies[k].tilt == rec.tilt
    &&& match bodies[k].parent {
        None => rec.parent is None,
        Some(pj) => {
            &&& pj < k
            &&& rec.parent matches Some(nm) && nm@ == bodies[pj as int].name@
        },
    }
}

/// Arena entry `k` realizes one of the records.
pub open spec fn realizes(records: Seq<BodyRecord>, bodies: Seq<OrbitalBody>, k: int) -> bool {
    exists|i: int| 0 <= i < records.len() && #[trigger] body_matches(records[i], bodies, k)
}

/// Builds the celestial-body arena from the loaded records: the parentless
/// record becomes the root, every other body is attached under the record its
/// parent reference names, root first and every parent before its children.
/// Returns nothing exactly when the records do not describe one well-formed
/// tree: a duplicated name, no parentless record or several, an unreachable
/// body (undefined parent or a cycle), or a period of zero.
#[verifier::loop_isolation(false)]
pub fn build_solar_system(records: Vec<BodyRecord>) -> (r: Option<SolarSystem>)
    ensures
        r is Some <==> forms_tree(records@),
        r matches Some(sys) ==> {
            &&& sys.wf()
            &&& sys.bodies.len() == records.len()
            &&& forall|k: int| 0 <= k < sys.bodies@.len() ==> #[trigger] realizes(
                records@,
                sys.bodies@,
                k,
            )
            &&& forall|k1: int, k2: int| 0 <= k1 < k2 < sys.bodies@.len()
                ==> (#[trigger] sys.bodies[k1].name)@ != (#[trigger] sys.bodies[k2].name)@
            &&& sys.bodies[0].inverse_normals
            &&& forall|k: int| 1 <= k < sys.bodies@.len()
                ==> !(#[trigger] sys.bodies[k].inverse_normals)
        },
{
    let n = records.len();

    // Reject duplicated names: parent references would be ambiguous.
    let mut i: usize = 0;
    while i < n
        invariant
            i <= n,
            forall|a: int, b: int| 0 <= a < b < n && a < i
                ==> (#[trigger] records@[a].name)@ != (#[trigger] records@[b].name)@,
        decreases n - i,
    {
        let mut j: usize = i + 1;
        while j < n
            invariant
                i < j <= n,
                forall|b: int| i < b < j
                    ==> records@[i as int].name@ != (#[trigger] records@[b].name)@,
            decreases n - j,
        {
            if records[i].name == records[j].name {
                return None;
            }
            j += 1;
        }
        i += 1;
    }
    assert(names_distinct(records@));

    // Reject zero periods: the hierarchy divides by them.
    i = 0;
    while i < n
        invariant
            i <= n,
            forall|a: int| 0 <= a < i ==> (#[trigger] records@[a].rotation_period_ms) > 0,
            forall|a: int| 0 <= a < i
                ==> ((#[trigger] records@[a].orbital_period_ms) matches Some(p) ==> p > 0),
        decreases n - i,
    {
        if records[i].rotation_period_ms == 0 {
            return None;
        }
        match records[i].orbital_period_ms {
            Some(p) => {
                if p == 0 {
                    return None;
                }
            }
            None => {}
        }
        i += 1;
    }
    assert(periods_valid(records@));

    // Find the unique parentless record, the root.
    let mut root_opt: Option<usize> = None;
    i = 0;
    while i < n
        invariant
            i <= n,
            match root_opt {
                None => forall|a: int| 0 <= a < i ==> (#[trigger] records@[a].parent) is Some,
                Some(rt) => {
                    &&& rt < i
                    &&& records@[rt as int].parent is None
                    &&& forall|a: int| 0 <= a < i && a != rt
                        ==> (#[trigger] records@[a].parent) is Some
                },
            },
        decreases n - i,
    {
        if records[i].parent.is_none() {
            match root_opt {
                Some(rt) => {
                    proof {
                        lemma_two_roots_no_tree(records@, rt as int, i as int);
                    }
                    return None;
                }
                None => {
                    root_opt = Some(i);
                }
            }
        }
        i += 1;
    }
    let root: usize = match root_opt {
        None => {
            proof {
                lemma_no_root_no_tree(records@);
            }
            return None;
        }
        Some(rt) => rt,
    };

    // Search out from the root, attaching every record whose parent has been
    // reached already; `body_src[k]` is the record of arena entry `k`.
    let mut taken: Vec<bool> = Vec::new();
    i = 0;
    while i < n
        invariant
            i <= n,
            taken@.len() == i,
            forall|a: int| 0 <= a < i ==> !(#[trigger] taken@[a]),
        decreases n - i,
    {
        taken.push(false);
        i += 1;
    }
    proof {
        lemma_count_true_zero(taken@);
    }
    let mut body_src: Vec<usize> = Vec::new();
    let mut parent_arena: Vec<Option<usize>> = Vec::new();
    proof {
        lemma_count_true_update(taken@, root as int);
    }
    taken[root] = true;
    body_src.push(root);
    parent_arena.push(None);
    proof {
        lemma_count_true_le(taken@);
        assert((body_src@[0]) as int == root as int);
        assert(found_contains(body_src@, root as int));
    }
    let mut k: usize = 0;
    while k < body_src.len()
        invariant
            taken@.len() == n,
            body_src@.len() == count_true(taken@),
            body_src@.len() <= n,
            parent_arena@.len() == body_src@.len(),
            k <= body_src@.len(),
            body_src@.len() >= 1,
            body_src@[0] == root,
            parent_arena@[0] is None,
            forall|kk: int| 0 <= kk < body_src@.len() ==> (#[trigger] body_src@[kk]) < n,
            forall|kk: int| 0 <= kk < body_src@.len()
                ==> taken@[(#[trigger] body_src@[kk]) as int],
            forall|a: int| 0 <= a < n && taken@[a] ==> #[trigger] found_contains(body_src@, a),
            forall|k1: int, k2: int| 0 <= k1 < k2 < body_src@.len()
                ==> #[trigger] body_src@[k1] != #[trigger] body_src@[k2],
            forall|kk: int| 1 <= kk < body_src@.len()
                ==> ((#[trigger] parent_arena@[kk]) matches Some(pk) && (pk as int) < kk
                    && child_of(records@, body_src@[kk] as int, body_src@[pk as int] as int)),
            forall|a: int, kk: int| 0 <= a < n && 0 <= kk < k
                && #[trigger] child_of(records@, a, body_src@[kk] as int) ==> taken@[a],
        decreases n - k,
    {
        let cur: usize = body_src[k];
        let mut i2: usize = 0;
        while i2 < n
            invariant
                i2 <= n,
                k < body_src@.len(),
                cur == body_src@[k as int],
                taken@.len() == n,
                body_src@.len() == count_true(taken@),
                body_src@.len() <= n,
                parent_arena@.len() == body_src@.len(),
                body_src@[0] == root,
                parent_arena@[0] is None,
                forall|kk: int| 0 <= kk < body_src@.len() ==> (#[trigger] body_src@[kk]) < n,
                forall|kk: int| 0 <= kk < body_src@.len()
                    ==> taken@[(#[trigger] body_src@[kk]) as int],
                forall|a: int| 0 <= a < n && taken@[a]
                    ==> #[trigger] found_contains(body_src@, a),
                forall|k1: int, k2: int| 0 <= k1 < k2 < body_src@.len()
                    ==> #[trigger] body_src@[k1] != #[trigger] body_src@[k2],
                forall|kk: int| 1 <= kk < body_src@.len()
                    ==> ((#[trigger] parent_arena@[kk]) matches Some(pk) && (pk as int) < kk
                        && child_of(
                        records@,
                        body_src@[kk] as int,
                        body_src@[pk as int] as int,
                    )),
                forall|a: int, kk: int| 0 <= a < n && 0 <= kk < k
                    && #[trigger] child_of(records@, a, body_src@[kk] as int) ==> taken@[a],
                forall|a: int| 0 <= a < i2 && child_of(records@, a, cur as int)
                    ==> taken@[a],
            decreases n - i2,
        {
            let attach: bool = if taken[i2] {
                false
            } else {
                match &records[i2].parent {
                    Some(p) => *p == records[cur].name,
                    None => false,
                }
            };
            if attach {
                proof {
                    lemma_count_true_update(taken@, i2 as int);
                }
                let ghost old_taken = taken@;
                let ghost old_src = body_src@;
                taken[i2] = true;
                body_src.push(i2);
                parent_arena.push(Some(k));
                proof {
                    lemma_count_true_le(taken@);
                    assert forall|a: int| 0 <= a < n && taken@[a]
                        implies #[trigger] found_contains(body_src@, a) by {
                        if a == i2 as int {
                            assert((body_src@[old_src.len() as int]) as int == a);
                        } else {
                            assert(found_contains(old_src, a));
                            let kk = choose|kk: int|
                                0 <= kk < old_src.len() && (#[trigger] old_src[kk]) as int == a;
                            assert((body_src@[kk]) as int == a);
                        }
                    }
                }
            }
            i2 += 1;
        }
        k += 1;
    }

    if body_src.len() != n {
        proof {
            lemma_count_true_le(taken@);
            lemma_unreached_no_tree(records@, taken@, body_src@, root as int);
        }
        return None;
    }

    // Every record was reached: lay the arena out in search order.
    proof {
        lemma_count_true_full(taken@);
    }
    let mut bodies: Vec<OrbitalBody> = Vec::new();
    let mut k2: usize = 0;
    while k2 < n
        invariant
            k2 <= n,
            bodies@.len() == k2,
            forall|k: int| 0 <= k < k2 ==> #[trigger] body_matches(
                records@[body_src@[k] as int],
                bodies@,
                k,
            ),
            forall|k: int| 0 <= k < k2
                ==> (#[trigger] bodies@[k].parent) == parent_arena@[k],
            forall|k: int| 1 <= k < k2 ==> !(#[trigger] bodies@[k].inverse_normals),
            k2 >= 1 ==> bodies@[0].inverse_normals,
        decreases n - k2,
    {
        let src: usize = body_src[k2];
        let inverse_normals: bool = k2 == 0;
        let body = OrbitalBody {
            name: records[src].name.clone(),
            radius: records[src].radius,
            distance_from_parent: records[src].distance_from_parent,
            orbital_period_ms: records[src].orbital_period_ms,
            rotation_period_ms: records[src].rotation_period_ms,
            tilt: records[src].tilt,
            inverse_normals,
            parent: parent_arena[k2],
        };
        proof {
            if k2 >= 1 {
                let pk = parent_arena@[k2 as int]->Some_0;
                assert(child_of(
                    records@,
                    body_src@[k2 as int] as int,
                    body_src@[pk as int] as int,
                ));
                assert(body_matches(records@[body_src@[pk as int] as int], bodies@, pk as int));
            }
        }
        let ghost old_bodies = bodies@;
        bodies.push(body);
        proof {
            assert forall|k: int| 0 <= k < bodies@.len() implies #[trigger] body_matches(
                records@[body_src@[k] as int],
                bodies@,
                k,
            ) by {
                if k < k2 as int {
                    assert(body_matches(records@[body_src@[k] as int], old_bodies, k));
                    assert(bodies@[k] == old_bodies[k]);
                    match old_bodies[k].parent {
                        None => {}
                        Some(pj) => {
                            assert(bodies@[pj as int] == old_bodies[pj as int]);
                        }
                    }
                } else {
                    assert(bodies@[k] == body);
                    match parent_arena@[k] {
                        None => {}
                        Some(pj) => {
                            assert(bodies@[pj as int] == old_bodies[pj as int]);
                        }
                    }
                }
            }
        }
        k2 += 1;
    }
    let sys = SolarSystem { bodies };

    proof {
        // The search order is itself a witness that the records form a tree.
        let order: Seq<int> = body_src@.map_values(|v: usize| v as int);
        assert forall|a: int| 0 <= a < records@.len() implies #[trigger] appears(order, a) by {
            assert(taken@[a]);
            assert(found_contains(body_src@, a));
            let kk = choose|kk: int|
                0 <= kk < body_src@.len() && (#[trigger] body_src@[kk]) as int == a;
            assert(order[kk] == a);
        }
        assert forall|k: int| 1 <= k < order.len() implies exists|j: int|
            0 <= j < k && child_of(records@, #[trigger] order[k], order[j]) by {
            let pk = parent_arena@[k]->Some_0;
            assert(child_of(records@, order[k], order[pk as int]));
        }
        assert(valid_order(records@, order));
        assert(forms_tree(records@));

        // The arena is well formed and realizes the records.
        assert forall|k: int| 0 <= k < sys.bodies@.len() implies #[trigger] realizes(
            records@,
            sys.bodies@,
            k,
        ) by {
            assert(body_matches(records@[body_src@[k] as int], sys.bodies@, k));
        }
        assert forall|k: int| 1 <= k < sys.bodies@.len() implies (
            (#[trigger] sys.bodies@[k].parent) matches Some(j) && j < k) by {
            assert(body_matches(records@[body_src@[k] as int], sys.bodies@, k));
        }
        assert forall|k: int| 0 <= k < sys.bodies@.len() implies (
            #[trigger] sys.bodies@[k].rotation_period_ms) > 0 by {
            assert(body_matches(records@[body_src@[k] as int], sys.bodies@, k));
        }
        assert forall|k: int| 0 <= k < sys.bodies@.len() implies (
            (#[trigger] sys.bodies@[k].orbital_period_ms) matches Some(p) ==> p > 0) by {
            assert(body_matches(records@[body_src@[k] as int], sys.bodies@, k));
        }
        assert(sys.bodies@[0].parent is None);
        assert forall|k1: int, k2: int| 0 <= k1 < k2 < sys.bodies@.len() implies (
            #[trigger] sys.bodies@[k1].name)@ != (#[trigger] sys.bodies@[k2].name)@ by {
            assert(body_matches(records@[body_src@[k1] as int], sys.bodies@, k1));
            assert(body_matches(records@[body_src@[k2] as int], sys.bodies@, k2));
            let i1 = body_src@[k1] as int;
            let i2 = body_src@[k2] as int;
            assert(i1 != i2);
            if i1 < i2 {
                assert(records@[i1].name@ != records@[i2].name@);
            } else {
                assert(records@[i2].name@ != records@[i1].name@);
            }
        }
    }
    Some(sys)
}

} // verus!
