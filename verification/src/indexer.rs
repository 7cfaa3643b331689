use vstd::prelude::*;

use crate::geometry::{IndexedTriangle, Normal, Triangle, Vertex};

verus! {

/// The index a pool lookup yields for a value: the first position holding
/// the value, or the pool's length when the value is absent (where an
/// insertion would place it).
pub open spec fn pool_pos<T>(pool: Seq<T>, v: T) -> int
    decreases pool.len(),
{
    if pool.len() == 0 {
        0
    } else if pool[0] == v {
        0
    } else {
        1 + pool_pos(pool.drop_first(), v)
    }
}

/// The pool after an exact-match deduplicating insertion: unchanged when the
/// value is already present, otherwise the value appended at the end.
pub open spec fn pool_insert<T>(pool: Seq<T>, v: T) -> Seq<T> {
    if pool.contains(v) {
        pool
    } else {
        pool.push(v)
    }
}

/// No two entries of the pool are equal.
pub open spec fn distinct<T>(pool: Seq<T>) -> bool {
    forall|i: int, j: int| 0 <= i < j < pool.len() ==> pool[i] != pool[j]
}

/// The longer sequence keeps every entry of the shorter one in place.
pub open spec fn extends<T>(t: Seq<T>, s: Seq<T>) -> bool {
    s.len() <= t.len() && forall|i: int| 0 <= i < s.len() ==> t[i] == s[i]
}

/// A value present in a pool is found at its lookup index.
pub proof fn lemma_pool_pos_contains<T>(pool: Seq<T>, v: T)
    requires
        pool.contains(v),
    ensures
        0 <= pool_pos(pool, v) < pool.len(),
        pool[pool_pos(pool, v)] == v,
    decreases pool.len(),
{
    if pool[0] == v {
    } else {
        let i = choose|i: int| 0 <= i < pool.len() && pool[i] == v;
        assert(pool.drop_first()[i - 1] == v);
        assert(pool.drop_first().contains(v));
        lemma_pool_pos_contains(pool.drop_first(), v);
    }
}

/// A value absent from a pool has the pool's length as its lookup index.
pub proof fn lemma_pool_pos_absent<T>(pool: Seq<T>, v: T)
    requires
        !pool.contains(v),
    ensures
        pool_pos(pool, v) == pool.len(),
    decreases pool.len(),
{
    if pool.len() == 0 {
    } else {
        assert(pool[0] != v);
        assert forall|j: int| 0 <= j < pool.drop_first().len() implies pool.drop_first()[j]
            != v by {
            assert(pool.drop_first()[j] == pool[j + 1]);
        }
        assert(!pool.drop_first().contains(v));
        lemma_pool_pos_absent(pool.drop_first(), v);
    }
}

/// The lookup index is the first position holding the value.
pub proof fn lemma_pool_pos_first<T>(pool: Seq<T>, v: T, i: int)
    requires
        0 <= i < pool.len(),
        pool[i] == v,
        forall|j: int| 0 <= j < i ==> pool[j] != v,
    ensures
        pool.contains(v),
        pool_pos(pool, v) == i,
    decreases i,
{
    if i == 0 {
    } else {
        assert(pool[0] != v);
        assert(pool.drop_first()[i - 1] == v);
        assert forall|j: int| 0 <= j < i - 1 implies pool.drop_first()[j] != v by {
            assert(pool.drop_first()[j] == pool[j + 1]);
        }
        lemma_pool_pos_first(pool.drop_first(), v, i - 1);
    }
}

/// After an insertion the value sits at its lookup index, and the pool keeps
/// its earlier entries, stays deduplicated, and grows by at most one.
pub proof fn lemma_pool_insert_pos<T>(pool: Seq<T>, v: T)
    requires
        distinct(pool),
    ensures
        0 <= pool_pos(pool, v) < pool_insert(pool, v).len(),
        pool_insert(pool, v)[pool_pos(pool, v)] == v,
        pool.len() <= pool_insert(pool, v).len() <= pool.len() + 1,
        extends(pool_insert(pool, v), pool),
        distinct(pool_insert(pool, v)),
{
    if pool.contains(v) {
        lemma_pool_pos_contains(pool, v);
    } else {
        lemma_pool_pos_absent(pool, v);
        assert forall|i: int, j: int|
            0 <= i < j < pool.push(v).len() implies pool.push(v)[i] != pool.push(v)[j] by {
            if j == pool.len() {
                assert(pool.push(v)[i] == pool[i]);
                assert(pool[i] != v);
            }
        }
    }
}

/// Indexes one triangle against the pools: looks up or inserts its three
/// vertices in order, then its normal, and records the resulting indices.
pub open spec fn index_one(vs: Seq<Vertex>, ns: Seq<Normal>, t: Triangle) -> (
    Seq<Vertex>,
    Seq<Normal>,
    IndexedTriangle,
) {
    let ia = pool_pos(vs, t.a);
    let vs1 = pool_insert(vs, t.a);
    let ib = pool_pos(vs1, t.b);
    let vs2 = pool_insert(vs1, t.b);
    let ic = pool_pos(vs2, t.c);
    let vs3 = pool_insert(vs2, t.c);
    let im = pool_pos(ns, t.normal);
    let ns1 = pool_insert(ns, t.normal);
    (
        vs3,
        ns1,
        IndexedTriangle {
            normal: t.normal,
            normal_index: im as usize,
            a: ia as usize,
            b: ib as usize,
            c: ic as usize,
        },
    )
}

/// Indexes a whole triangle list, front to back, threading the growing
/// vertex and normal pools through and appending one indexed triangle per
/// input triangle.
pub open spec fn index_all(
    vs: Seq<Vertex>,
    ns: Seq<Normal>,
    its: Seq<IndexedTriangle>,
    ts: Seq<Triangle>,
) -> (Seq<Vertex>, Seq<Normal>, Seq<IndexedTriangle>)
    decreases ts.len(),
{
    if ts.len() == 0 {
        (vs, ns, its)
    } else {
        let r = index_one(vs, ns, ts[0]);
        index_all(r.0, r.1, its.push(r.2), ts.drop_first())
    }
}

/// Indexing a list with one more triangle at its end indexes the shorter
/// list first and then that triangle against the pools so far.
pub proof fn lemma_index_all_snoc(
    vs: Seq<Vertex>,
    ns: Seq<Normal>,
    its: Seq<IndexedTriangle>,
    ts: Seq<Triangle>,
    t: Triangle,
)
    ensures
        index_all(vs, ns, its, ts.push(t)) == ({
            let m = index_all(vs, ns, its, ts);
            let r = index_one(m.0, m.1, t);
            (r.0, r.1, m.2.push(r.2))
        }),
    decreases ts.len(),
{
    let r = index_one(vs, ns, ts.push(t)[0]);
    if ts.len() == 0 {
        assert(ts.push(t)[0] == t);
        assert(ts.push(t).drop_first() =~= Seq::<Triangle>::empty());
        assert(index_all(vs, ns, its, ts.push(t)) == index_all(
            r.0,
            r.1,
            its.push(r.2),
            Seq::<Triangle>::empty(),
        ));
        assert(index_all(r.0, r.1, its.push(r.2), Seq::<Triangle>::empty()) == (
            r.0,
            r.1,
            its.push(r.2),
        ));
        assert(index_all(vs, ns, its, ts) == (vs, ns, its));
    } else {
        assert(ts.push(t)[0] == ts[0]);
        assert(ts.push(t).drop_first() =~= ts.drop_first().push(t));
        assert(index_all(vs, ns, its, ts.push(t)) == index_all(
            r.0,
            r.1,
            its.push(r.2),
            ts.drop_first().push(t),
        ));
        lemma_index_all_snoc(r.0, r.1, its.push(r.2), ts.drop_first(), t);
        assert(index_all(vs, ns, its, ts) == index_all(r.0, r.1, its.push(r.2), ts.drop_first()));
    }
}

/// Finds the first entry of the vertex pool equal to the given position.
fn find_vertex(pool: &Vec<Vertex>, v: Vertex) -> (r: Option<usize>)
    ensures
        match r {
            Some(i) => pool@.contains(v) && i == pool_pos(pool@, v),
            None => !pool@.contains(v),
        },
{
    let len: usize = pool.len();
    let mut j: usize = 0;
    while j < len
        invariant
            j <= len,
            len == pool@.len(),
            forall|k: int| 0 <= k < j ==> pool@[k] != v,
        decreases len - j,
    {
        if pool[j] == v {
            proof {
                lemma_pool_pos_first(pool@, v, j as int);
            }
            return Some(j);
        }
        j = j + 1;
    }
    proof {
        assert(!pool@.contains(v));
    }
    None
}

/// Finds the first entry of the normal pool equal to the given normal.
fn find_normal(pool: &Vec<Normal>, n: Normal) -> (r: Option<usize>)
    ensures
        match r {
            Some(i) => pool@.contains(n) && i == pool_pos(pool@, n),
            None => !pool@.contains(n),
        },
{
    let len: usize = pool.len();
    let mut j: usize = 0;
    while j < len
        invariant
            j <= len,
            len == pool@.len(),
            forall|k: int| 0 <= k < j ==> pool@[k] != n,
        decreases len - j,
    {
        if pool[j] == n {
            proof {
                lemma_pool_pos_first(pool@, n, j as int);
            }
            return Some(j);
        }
        j = j + 1;
    }
    proof {
        assert(!pool@.contains(n));
    }
    None
}

/// Looks the vertex up in the pool, inserting it at the end when absent, and
/// returns its pool index.
fn lookup_vertex(pool: &mut Vec<Vertex>, v: Vertex) -> (i: usize)
    ensures
        final(pool)@ == pool_insert(old(pool)@, v),
        i == pool_pos(old(pool)@, v),
{
    match find_vertex(pool, v) {
        Some(i) => i,
        None => {
            let n = pool.len();
            proof {
                lemma_pool_pos_absent(pool@, v);
            }
            pool.push(v);
            n
        },
    }
}

/// Looks the normal up in the pool, inserting it at the end when absent, and
/// returns its pool index.
fn lookup_normal(pool: &mut Vec<Normal>, n: Normal) -> (i: usize)
    ensures
        final(pool)@ == pool_insert(old(pool)@, n),
        i == pool_pos(old(pool)@, n),
{
    match find_normal(pool, n) {
        Some(i) => i,
        None => {
            let len = pool.len();
            proof {
                lemma_pool_pos_absent(pool@, n);
            }
            pool.push(n);
            len
        },
    }
}

/// Runs the indexer: deduplicates the triangles' vertices and normals into
/// insertion-ordered pools under exact equality, and appends one indexed
/// triangle per input triangle.
pub fn index_triangles(
    triangles: &Vec<Triangle>,
    vertices: &mut Vec<Vertex>,
    normals: &mut Vec<Normal>,
    idx_triangles: &mut Vec<IndexedTriangle>,
)
    ensures
        final(vertices)@ == index_all(old(vertices)@, old(normals)@, old(idx_triangles)@, triangles@).0,
        final(normals)@ == index_all(old(vertices)@, old(normals)@, old(idx_triangles)@, triangles@).1,
        final(idx_triangles)@ == index_all(
            old(vertices)@,
            old(normals)@,
            old(idx_triangles)@,
            triangles@,
        ).2,
{
    let len: usize = triangles.len();
    let mut k: usize = 0;
    assert(triangles@.take(0) =~= Seq::<Triangle>::empty());
    while k < len
        invariant
            k <= len,
            len == triangles@.len(),
            vertices@ == index_all(
                old(vertices)@,
                old(normals)@,
                old(idx_triangles)@,
                triangles@.take(k as int),
            ).0,
            normals@ == index_all(
                old(vertices)@,
                old(normals)@,
                old(idx_triangles)@,
                triangles@.take(k as int),
            ).1,
            idx_triangles@ == index_all(
                old(vertices)@,
                old(normals)@,
                old(idx_triangles)@,
                triangles@.take(k as int),
            ).2,
        decreases len - k,
    {
        let t = triangles[k];
        let ghost vs0 = vertices@;
        let ghost ns0 = normals@;
        let a_position = lookup_vertex(vertices, t.a);
        let b_position = lookup_vertex(vertices, t.b);
        let c_position = lookup_vertex(vertices, t.c);
        let normal_index = lookup_normal(normals, t.normal);
        let it = IndexedTriangle {
            normal: t.normal,
            normal_index,
            a: a_position,
            b: b_position,
            c: c_position,
        };
        idx_triangles.push(it);
        proof {
            let r = index_one(vs0, ns0, t);
            assert(vertices@ == r.0 && normals@ == r.1 && it == r.2);
            lemma_index_all_snoc(
                old(vertices)@,
                old(normals)@,
                old(idx_triangles)@,
                triangles@.take(k as int),
                t,
            );
            assert(triangles@.take(k as int).push(t) =~= triangles@.take(k + 1));
        }
        k = k + 1;
    }
    proof {
        assert(triangles@.take(len as int) =~= triangles@);
    }
}

/// One indexed triangle expands back through the pools to exactly the
/// original triangle's data: all four indices are in range, the three vertex
/// indices yield its three positions, and the normal index yields its normal.
pub open spec fn round_trip_ok(
    vs: Seq<Vertex>,
    ns: Seq<Normal>,
    it: IndexedTriangle,
    t: Triangle,
) -> bool {
    &&& it.a < vs.len() && vs[it.a as int] == t.a
    &&& it.b < vs.len() && vs[it.b as int] == t.b
    &&& it.c < vs.len() && vs[it.c as int] == t.c
    &&& it.normal_index < ns.len() && ns[it.normal_index as int] == t.normal
    &&& it.normal == t.normal
}

/// Indexing only ever appends: the resulting pools keep every earlier entry
/// in place, stay deduplicated, and grow by at most three vertices and one
/// normal per triangle, and exactly one indexed triangle is appended per
/// input triangle.
pub proof fn lemma_index_all_extends(
    vs: Seq<Vertex>,
    ns: Seq<Normal>,
    its: Seq<IndexedTriangle>,
    ts: Seq<Triangle>,
)
    requires
        distinct(vs),
        distinct(ns),
    ensures
        ({
            let r = index_all(vs, ns, its, ts);
            &&& extends(r.0, vs) && extends(r.1, ns) && extends(r.2, its)
            &&& r.2.len() == its.len() + ts.len()
            &&& distinct(r.0) && distinct(r.1)
            &&& r.0.len() <= vs.len() + 3 * ts.len()
            &&& r.1.len() <= ns.len() + ts.len()
        }),
    decreases ts.len(),
{
    if ts.len() == 0 {
    } else {
        let t0 = ts[0];
        let r1 = index_one(vs, ns, t0);
        let vs1 = pool_insert(vs, t0.a);
        let vs2 = pool_insert(vs1, t0.b);
        lemma_pool_insert_pos(vs, t0.a);
        lemma_pool_insert_pos(vs1, t0.b);
        lemma_pool_insert_pos(vs2, t0.c);
        lemma_pool_insert_pos(ns, t0.normal);
        lemma_index_all_extends(r1.0, r1.1, its.push(r1.2), ts.drop_first());
    }
}

/// Indexing round trip: the pools that indexing builds have no duplicate
/// entries, and every indexed triangle appended for an input triangle
/// expands back through those pools to that triangle's exact data.
pub proof fn lemma_index_round_trip(
    vs: Seq<Vertex>,
    ns: Seq<Normal>,
    its: Seq<IndexedTriangle>,
    ts: Seq<Triangle>,
)
    requires
        distinct(vs),
        distinct(ns),
        vs.len() + 3 * ts.len() <= usize::MAX,
        ns.len() + ts.len() <= usize::MAX,
    ensures
        ({
            let r = index_all(vs, ns, its, ts);
            &&& r.2.len() == its.len() + ts.len()
            &&& extends(r.2, its)
            &&& distinct(r.0) && distinct(r.1)
            &&& forall|k: int|
                0 <= k < ts.len() ==> round_trip_ok(r.0, r.1, r.2[its.len() + k], ts[k])
        }),
    decreases ts.len(),
{
    lemma_index_all_extends(vs, ns, its, ts);
    if ts.len() == 0 {
    } else {
        let t0 = ts[0];
        let r1 = index_one(vs, ns, t0);
        let vs1 = pool_insert(vs, t0.a);
        let vs2 = pool_insert(vs1, t0.b);
        let vs3 = pool_insert(vs2, t0.c);
        let ns1 = pool_insert(ns, t0.normal);
        lemma_pool_insert_pos(vs, t0.a);
        lemma_pool_insert_pos(vs1, t0.b);
        lemma_pool_insert_pos(vs2, t0.c);
        lemma_pool_insert_pos(ns, t0.normal);
        lemma_index_round_trip(vs3, ns1, its.push(r1.2), ts.drop_first());
        lemma_index_all_extends(vs3, ns1, its.push(r1.2), ts.drop_first());
        let r = index_all(vs3, ns1, its.push(r1.2), ts.drop_first());
        assert(index_all(vs, ns, its, ts) == r);
        assert(r.2[its.len() as int] == r1.2);
        assert(round_trip_ok(r.0, r.1, r1.2, t0)) by {
            assert(r.0[r1.2.a as int] == vs1[pool_pos(vs, t0.a)]);
            assert(r.0[r1.2.b as int] == vs2[pool_pos(vs1, t0.b)]);
            assert(r.0[r1.2.c as int] == vs3[pool_pos(vs2, t0.c)]);
            assert(r.1[r1.2.normal_index as int] == ns1[pool_pos(ns, t0.normal)]);
        }
        assert forall|k: int|
            0 <= k < ts.len() implies round_trip_ok(
            r.0,
            r.1,
            index_all(vs, ns, its, ts).2[its.len() + k],
            ts[k],
        ) by {
            if k == 0 {
            } else {
                let km1 = k - 1;
                assert(ts.drop_first()[km1] == ts[k]);
                assert(round_trip_ok(r.0, r.1, r.2[its.push(r1.2).len() + km1], ts.drop_first()[km1]));
                assert(its.push(r1.2).len() + km1 == its.len() + k);
            }
        }
    }
}

} // verus!
