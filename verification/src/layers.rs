//! Version-layered sequences: a base part followed by the parts of every
//! format version a replay reaches, oldest first.
use vstd::prelude::*;

verus! {

/// `base` followed by the first `depth` layers, in order.
pub open spec fn layered<A>(base: Seq<A>, layers: Seq<Seq<A>>, depth: nat) -> Seq<A> {
    base + layers.take(depth as int).flatten_alt()
}

/// Adding one more layer appends that layer's part.
pub proof fn lemma_layered_step<A>(base: Seq<A>, layers: Seq<Seq<A>>, depth: nat)
    requires
        depth < layers.len(),
    ensures
        layered(base, layers, depth + 1) == layered(base, layers, depth) + layers[depth as int],
{
    let t = layers.take(depth + 1 as int);
    assert(t.drop_last() =~= layers.take(depth as int));
    assert(t.last() == layers[depth as int]);
    assert(t.flatten_alt() == t.drop_last().flatten_alt() + t.last());
    assert((base + layers.take(depth as int).flatten_alt()) + layers[depth as int]
        =~= base + (layers.take(depth as int).flatten_alt() + layers[depth as int]));
}

/// With no layers the result is the base.
pub proof fn lemma_layered_zero<A>(base: Seq<A>, layers: Seq<Seq<A>>)
    ensures
        layered(base, layers, 0) == base,
{
    assert(layers.take(0).flatten_alt() == Seq::<A>::empty());
    assert(base + Seq::<A>::empty() =~= base);
}

/// A layered sequence of smaller depth is a prefix of one of larger depth.
pub proof fn lemma_layered_prefix<A>(base: Seq<A>, layers: Seq<Seq<A>>, d1: nat, d2: nat)
    requires
        d1 <= d2 <= layers.len(),
    ensures
        layered(base, layers, d1).is_prefix_of(layered(base, layers, d2)),
    decreases d2 - d1,
{
    if d1 < d2 {
        lemma_layered_prefix(base, layers, d1, (d2 - 1) as nat);
        lemma_layered_step(base, layers, (d2 - 1) as nat);
        let a = layered(base, layers, d1);
        let b = layered(base, layers, (d2 - 1) as nat);
        let c = layered(base, layers, d2);
        assert(c.subrange(0, b.len() as int) =~= b);
        assert(c.subrange(0, a.len() as int) =~= b.subrange(0, a.len() as int));
    } else {
        let a = layered(base, layers, d1);
        assert(a.subrange(0, a.len() as int) =~= a);
    }
}

/// Mapping over a layered sequence maps the base and every layer.
pub proof fn lemma_layered_map<A, B>(base: Seq<A>, layers: Seq<Seq<A>>, depth: nat, f: spec_fn(A) -> B)
    requires
        depth <= layers.len(),
    ensures
        layered(base, layers, depth).map_values(f)
            == layered(base.map_values(f), layers.map_values(|l: Seq<A>| l.map_values(f)), depth),
    decreases depth,
{
    let g = |l: Seq<A>| l.map_values(f);
    let mlayers = layers.map_values(g);
    if depth == 0 {
        lemma_layered_zero(base, layers);
        lemma_layered_zero(base.map_values(f), mlayers);
    } else {
        let d = (depth - 1) as nat;
        lemma_layered_map(base, layers, d, f);
        lemma_layered_step(base, layers, d);
        lemma_layered_step(base.map_values(f), mlayers, d);
        let x = layered(base, layers, d);
        let y = layers[d as int];
        assert((x + y).map_values(f) =~= x.map_values(f) + y.map_values(f));
        assert(mlayers[d as int] == y.map_values(f));
    }
}

} // verus!
