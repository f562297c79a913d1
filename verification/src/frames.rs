//! Row groups of the frame table and the index columns of both tables.
//!
//! The frame table holds one row group per port for the leading character,
//! then one per port whose character is an Ice Climber, for the follower.
//! Every row carries its frame index; frame indexes start at
//! `peppi::frame::FIRST_INDEX` rather than zero.
use vstd::prelude::*;

verus! {

/// Internal character id of Popo.
pub const POPO: i32 = 10;

/// Internal character id of Nana.
pub const NANA: i32 = 11;

/// Value of `peppi::frame::FIRST_INDEX`, the index of a replay's first frame.
pub open spec fn first_index() -> int {
    -123
}

/// Reads `peppi::frame::FIRST_INDEX`, which peppi declares as `-123`.
#[verifier::external_body]
fn first_frame_index() -> (index: i32)
    ensures
        index == first_index(),
{
    peppi::frame::FIRST_INDEX
}

/// Whether a character id is one of the Ice Climbers.
pub open spec fn spec_is_ice_climber(character: i32) -> bool {
    character == POPO || character == NANA
}

/// Whether a character id is one of the Ice Climbers, the only characters
/// with a follower.
pub fn is_ice_climber(character: i32) -> (b: bool)
    ensures
        b == spec_is_ice_climber(character),
        b == (character == 10 || character == 11),
{
    character == POPO || character == NANA
}

/// One row group of the frame table: the data of `port`, for its leader or
/// for its follower.
#[derive(Clone, Copy, Debug, PartialEq, Eq, Structural)]
pub struct RowGroup {
    pub port: usize,
    pub is_follower: bool,
}

/// Leader row groups of ports `0 .. num_ports`, in port order.
pub open spec fn leader_groups(num_ports: nat) -> Seq<RowGroup> {
    Seq::new(num_ports, |p: int| RowGroup { port: p as usize, is_follower: false })
}

/// Follower row groups for the ports whose first-frame character, given in
/// `first_characters` by port, is an Ice Climber, in port order.
pub open spec fn follower_groups(first_characters: Seq<i32>) -> Seq<RowGroup>
    decreases first_characters.len(),
{
    if first_characters.len() == 0 {
        Seq::empty()
    } else {
        let earlier = follower_groups(first_characters.drop_last());
        if spec_is_ice_climber(first_characters.last()) {
            earlier.push(RowGroup { port: (first_characters.len() - 1) as usize, is_follower: true })
        } else {
            earlier
        }
    }
}

/// All row groups of the frame table, in the order they are written.
pub open spec fn spec_frame_row_groups(first_characters: Seq<i32>) -> Seq<RowGroup> {
    leader_groups(first_characters.len()) + follower_groups(first_characters)
}

/// The row groups of the frame table, given each port's character on the
/// first frame: a leader row group for every port in port order, then a
/// follower row group for every port whose character is Popo or Nana.
pub fn frame_row_groups(first_characters: &[i32]) -> (groups: Vec<RowGroup>)
    ensures
        groups@ == spec_frame_row_groups(first_characters@),
        forall|p: int|
            0 <= p < first_characters@.len() ==> #[trigger] groups@[p] == (RowGroup {
                port: p as usize,
                is_follower: false,
            }),
        forall|p: int|
            0 <= p < first_characters@.len() ==> (groups@.contains(
                RowGroup { port: p as usize, is_follower: true },
            ) <==> (#[trigger] first_characters@[p] == 10 || first_characters@[p] == 11)),
{
    let num_ports = first_characters.len();
    let mut groups: Vec<RowGroup> = Vec::new();
    let mut port: usize = 0;
    while port < num_ports
        invariant
            port <= num_ports == first_characters@.len(),
            groups@ == leader_groups(port as nat),
        decreases num_ports - port,
    {
        groups.push(RowGroup { port, is_follower: false });
        port = port + 1;
        assert(groups@ =~= leader_groups(port as nat));
    }
    let mut port: usize = 0;
    while port < num_ports
        invariant
            port <= num_ports == first_characters@.len(),
            groups@ == leader_groups(num_ports as nat) + follower_groups(
                first_characters@.take(port as int),
            ),
        decreases num_ports - port,
    {
        let ghost taken = first_characters@.take(port as int);
        assert(first_characters@.take(port + 1 as int).drop_last() =~= taken);
        if is_ice_climber(first_characters[port]) {
            groups.push(RowGroup { port, is_follower: true });
            assert(groups@ =~= leader_groups(num_ports as nat) + follower_groups(
                first_characters@.take(port + 1 as int),
            ));
        }
        port = port + 1;
    }
    assert(first_characters@.take(num_ports as int) =~= first_characters@);
    proof {
        assert forall|p: int|
            0 <= p < first_characters@.len() implies (groups@.contains(
                RowGroup { port: p as usize, is_follower: true },
            ) <==> (#[trigger] first_characters@[p] == 10 || first_characters@[p] == 11)) by {
            lemma_follower_row_group_iff_ice_climber(first_characters@, p);
        }
    }
    groups
}

/// A port gets a follower row group exactly when its first-frame character
/// is Popo (internal id 10) or Nana (internal id 11); every port gets its
/// leader row group first, at its own position.
pub proof fn lemma_follower_row_group_iff_ice_climber(first_characters: Seq<i32>, p: int)
    requires
        first_characters.len() <= usize::MAX,
        0 <= p < first_characters.len(),
    ensures
        spec_frame_row_groups(first_characters)[p] == (RowGroup {
            port: p as usize,
            is_follower: false,
        }),
        spec_frame_row_groups(first_characters).contains(
            RowGroup { port: p as usize, is_follower: true },
        ) <==> (first_characters[p] == 10 || first_characters[p] == 11),
{
    lemma_follower_groups_are_ice_climbers(first_characters);
    let groups = spec_frame_row_groups(first_characters);
    let n = first_characters.len() as int;
    let f = follower_groups(first_characters);
    let target = RowGroup { port: p as usize, is_follower: true };
    if groups.contains(target) {
        let i = choose|i: int| 0 <= i < groups.len() && groups[i] == target;
        assert(i >= n) by {
            if i < n {
                assert(groups[i] == leader_groups(n as nat)[i]);
            }
        }
        assert(groups[i] == f[i - n]);
        assert(f[i - n].port == p as usize);
        assert(spec_is_ice_climber(first_characters[f[i - n].port as int]));
    }
    if first_characters[p] == 10 || first_characters[p] == 11 {
        assert(spec_is_ice_climber(first_characters[p]));
        let i = choose|i: int| 0 <= i < f.len() && (#[trigger] f[i]).port == p;
        assert(f[i].is_follower);
        assert(groups[n + i] == f[i]);
        assert(groups[n + i] == target);
    }
}

/// The follower row groups are exactly the Ice Climber ports, each once,
/// in increasing port order.
pub proof fn lemma_follower_groups_are_ice_climbers(first_characters: Seq<i32>)
    requires
        first_characters.len() <= usize::MAX,
    ensures
        forall|i: int|
            0 <= i < follower_groups(first_characters).len() ==> {
                let g = #[trigger] follower_groups(first_characters)[i];
                &&& g.is_follower
                &&& g.port < first_characters.len()
                &&& spec_is_ice_climber(first_characters[g.port as int])
            },
        forall|i: int, j: int|
            0 <= i < j < follower_groups(first_characters).len() ==> (#[trigger] follower_groups(
                first_characters,
            )[i]).port < (#[trigger] follower_groups(first_characters)[j]).port,
        forall|p: int|
            0 <= p < first_characters.len() && spec_is_ice_climber(#[trigger] first_characters[p])
                ==> exists|i: int|
                0 <= i < follower_groups(first_characters).len() && (#[trigger] follower_groups(
                    first_characters,
                )[i]).port == p,
    decreases first_characters.len(),
{
    if first_characters.len() > 0 {
        let rest = first_characters.drop_last();
        lemma_follower_groups_are_ice_climbers(rest);
        let fr = follower_groups(rest);
        let f = follower_groups(first_characters);
        let last = (first_characters.len() - 1) as int;
        assert forall|i: int| 0 <= i < fr.len() implies #[trigger] fr[i].port < last by {
            assert(fr[i].port < rest.len());
        }
        assert forall|p: int|
            0 <= p < first_characters.len() && spec_is_ice_climber(
                #[trigger] first_characters[p],
            ) implies exists|i: int| 0 <= i < f.len() && (#[trigger] f[i]).port == p by {
            if p < last {
                assert(rest[p] == first_characters[p]);
                let i = choose|i: int| 0 <= i < fr.len() && (#[trigger] fr[i]).port == p;
                assert(f[i] == fr[i]);
            } else {
                assert(first_characters.last() == first_characters[p]);
                assert(f == fr.push(RowGroup { port: last as usize, is_follower: true }));
                assert(f[f.len() - 1].port == p);
            }
        }
        assert forall|i: int| 0 <= i < f.len() implies {
            let g = #[trigger] f[i];
            &&& g.is_follower
            &&& g.port < first_characters.len()
            &&& spec_is_ice_climber(first_characters[g.port as int])
        } by {
            if i < fr.len() {
                assert(f[i] == fr[i]);
                assert(rest[fr[i].port as int] == first_characters[fr[i].port as int]);
            }
        }
        assert forall|i: int, j: int| 0 <= i < j < f.len() implies (#[trigger] f[i]).port < (
        #[trigger] f[j]).port by {
            assert(f[i] == fr[i]);
            if j < fr.len() {
                assert(f[j] == fr[j]);
            } else {
                assert(fr[i].port < last);
            }
        }
    }
}

/// Frame index of every frame of a replay with `num_frames` frames.
pub open spec fn spec_frame_indexes(num_frames: nat) -> Seq<i32> {
    Seq::new(num_frames, |i: int| (i + first_index()) as i32)
}

/// The index column of a frame row group: `FIRST_INDEX`, `FIRST_INDEX + 1`,
/// and so on, one per frame.
pub fn frame_indexes(num_frames: usize) -> (indexes: Vec<i32>)
    requires
        num_frames <= i32::MAX + 1,
    ensures
        indexes@ == spec_frame_indexes(num_frames as nat),
        forall|i: int| 0 <= i < num_frames ==> indexes@[i] == i + first_index(),
        forall|i: int| 0 <= i < num_frames ==> #[trigger] indexes@[i] == i - 123,
{
    let first = first_frame_index();
    let mut indexes: Vec<i32> = Vec::new();
    let mut i: usize = 0;
    while i < num_frames
        invariant
            i <= num_frames <= i32::MAX + 1,
            first == first_index(),
            indexes@ == spec_frame_indexes(i as nat),
        decreases num_frames - i,
    {
        indexes.push(i as i32 + first);
        i = i + 1;
        assert(indexes@ =~= spec_frame_indexes(i as nat));
    }
    indexes
}

/// A column holding `value` on every one of `num_frames` rows.
pub fn constant_column<T: Copy>(value: T, num_frames: usize) -> (column: Vec<T>)
    ensures
        column@ == Seq::new(num_frames as nat, |i: int| value),
{
    let mut column: Vec<T> = Vec::new();
    let mut i: usize = 0;
    while i < num_frames
        invariant
            i <= num_frames,
            column@ == Seq::new(i as nat, |k: int| value),
        decreases num_frames - i,
    {
        column.push(value);
        i = i + 1;
        assert(column@ =~= Seq::new(i as nat, |k: int| value));
    }
    column
}

/// The port column of a row group of `port`: the port number on every row.
pub fn port_column(port: usize, num_frames: usize) -> (column: Vec<i32>)
    requires
        port <= i32::MAX,
    ensures
        column@ == Seq::new(num_frames as nat, |i: int| port as i32),
{
    constant_column(port as i32, num_frames)
}

/// The follower column of a row group: its follower flag on every row.
pub fn follower_column(is_follower: bool, num_frames: usize) -> (column: Vec<bool>)
    ensures
        column@ == Seq::new(num_frames as nat, |i: int| is_follower),
{
    constant_column(is_follower, num_frames)
}

/// Number of item rows, given the number of items on each frame.
pub open spec fn total_items(counts: Seq<usize>) -> nat
    decreases counts.len(),
{
    if counts.len() == 0 {
        0
    } else {
        total_items(counts.drop_last()) + counts.last() as nat
    }
}

/// The frame index of every item row: the items of frame `n` come in one
/// run, each row carrying `n + FIRST_INDEX`.
pub open spec fn spec_item_frame_indexes(counts: Seq<usize>) -> Seq<i32> {
    Seq::new(
        counts.len(),
        |n: int| Seq::new(counts[n] as nat, |k: int| (n + first_index()) as i32),
    ).flatten_alt()
}

/// The index column of the item table, given the number of items on each
/// frame in frame order: frame `n`'s index repeated once per item on it.
/// It has as many rows as the item columns, which hold all items of frame
/// 0, then all of frame 1, and so on.
pub fn item_frame_indexes(counts: &[usize]) -> (indexes: Vec<i32>)
    requires
        counts@.len() <= i32::MAX + 1,
    ensures
        indexes@ == spec_item_frame_indexes(counts@),
        indexes@.len() == total_items(counts@),
        indexes@.len() == items_before(counts@, counts@.len() as int),
        forall|n: int, j: int|
            #![trigger indexes@[j], items_before(counts@, n)]
            0 <= n < counts@.len() && items_before(counts@, n) <= j < items_before(counts@, n)
                + counts@[n] ==> indexes@[j] == n - 123,
{
    let first = first_frame_index();
    let ghost runs = Seq::new(
        counts@.len(),
        |n: int| Seq::new(counts@[n] as nat, |k: int| (n + first_index()) as i32),
    );
    let mut indexes: Vec<i32> = Vec::new();
    let mut n: usize = 0;
    while n < counts.len()
        invariant
            n <= counts@.len() <= i32::MAX + 1,
            first == first_index(),
            runs == Seq::new(
                counts@.len(),
                |n: int| Seq::new(counts@[n] as nat, |k: int| (n + first_index()) as i32),
            ),
            indexes@ == runs.take(n as int).flatten_alt(),
            indexes@.len() == total_items(counts@.take(n as int)),
        decreases counts@.len() - n,
    {
        let index = n as i32 + first;
        let count = counts[n];
        let ghost before = indexes@;
        let mut k: usize = 0;
        while k < count
            invariant
                k <= count == counts@[n as int],
                n < counts@.len(),
                index == n + first_index(),
                indexes@ == before + Seq::new(k as nat, |j: int| index),
            decreases count - k,
        {
            indexes.push(index);
            k = k + 1;
            assert(indexes@ =~= before + Seq::new(k as nat, |j: int| index));
        }
        proof {
            let t = runs.take(n + 1 as int);
            assert(t.drop_last() =~= runs.take(n as int));
            assert(runs[n as int] =~= Seq::new(count as nat, |j: int| index));
            assert(counts@.take(n + 1 as int).drop_last() =~= counts@.take(n as int));
        }
        n = n + 1;
    }
    assert(runs.take(counts@.len() as int) =~= runs);
    assert(counts@.take(counts@.len() as int) =~= counts@);
    proof {
        lemma_item_frame_indexes_len(counts@);
        assert forall|n: int, j: int|
            #![trigger indexes@[j], items_before(counts@, n)]
            0 <= n < counts@.len() && items_before(counts@, n) <= j < items_before(counts@, n)
                + counts@[n] implies indexes@[j] == n - 123 by {
            lemma_item_frame_index_values(counts@, n, j - items_before(counts@, n));
        }
    }
    indexes
}

/// Number of item rows on the frames before frame `n`: the sum of
/// `counts[0 .. n]`.
pub open spec fn items_before(counts: Seq<usize>, n: int) -> int {
    counts.take(n).fold_left(0int, |acc: int, c: usize| acc + c)
}

/// A count of item rows is never negative.
proof fn lemma_items_before_nonneg(counts: Seq<usize>, n: int)
    requires
        0 <= n <= counts.len(),
    ensures
        items_before(counts, n) >= 0,
    decreases counts.take(n).len(),
{
    let t = counts.take(n);
    if t.len() > 0 {
        assert(t.drop_last() =~= counts.take(t.len() - 1));
        lemma_items_before_nonneg(counts, t.len() - 1);
    }
}

/// The item index column has one row per item: as many rows as the counts
/// add up to.
pub proof fn lemma_item_frame_indexes_len(counts: Seq<usize>)
    ensures
        spec_item_frame_indexes(counts).len() == items_before(counts, counts.len() as int),
    decreases counts.len(),
{
    let add = |acc: int, c: usize| acc + c;
    assert(counts.take(counts.len() as int) =~= counts);
    if counts.len() > 0 {
        let d = counts.drop_last();
        lemma_item_frame_indexes_len(d);
        lemma_item_frame_indexes_split(counts);
        assert(d.take(d.len() as int) =~= d);
    }
}

/// The index column of some frames is the column of all but the last frame,
/// followed by the last frame's run.
proof fn lemma_item_frame_indexes_split(counts: Seq<usize>)
    requires
        counts.len() > 0,
    ensures
        spec_item_frame_indexes(counts) == spec_item_frame_indexes(counts.drop_last()) + Seq::new(
            counts.last() as nat,
            |k: int| ((counts.len() - 1) + first_index()) as i32,
        ),
{
    let runs = Seq::new(
        counts.len(),
        |n: int| Seq::new(counts[n] as nat, |k: int| (n + first_index()) as i32),
    );
    let d = counts.drop_last();
    let druns = Seq::new(
        d.len(),
        |n: int| Seq::new(d[n] as nat, |k: int| (n + first_index()) as i32),
    );
    assert(runs.drop_last() =~= druns);
    assert(runs.last() =~= Seq::new(
        counts.last() as nat,
        |k: int| ((counts.len() - 1) + first_index()) as i32,
    ));
}

/// Every item row of frame `n` holds frame `n`'s index, `n - 123`, and the
/// rows of frame `n` come right after those of the frames before it.
pub proof fn lemma_item_frame_index_values(counts: Seq<usize>, n: int, k: int)
    requires
        counts.len() <= i32::MAX + 1,
        0 <= n < counts.len(),
        0 <= k < counts[n],
    ensures
        items_before(counts, n) + k < spec_item_frame_indexes(counts).len(),
        spec_item_frame_indexes(counts)[items_before(counts, n) + k] == n - 123,
    decreases counts.len(),
{
    let d = counts.drop_last();
    lemma_item_frame_indexes_split(counts);
    lemma_item_frame_indexes_len(d);
    let last = counts.len() - 1;
    assert(d.take(d.len() as int) =~= d);
    let whole = spec_item_frame_indexes(counts);
    let front = spec_item_frame_indexes(d);
    let run = Seq::new(counts.last() as nat, |k: int| ((counts.len() - 1) + first_index()) as i32);
    assert(whole == front + run);
    if n == last {
        assert(counts.take(n) =~= d);
        assert(items_before(counts, n) == front.len());
        assert(whole[front.len() + k] == run[k]);
        assert(run[k] == (last + first_index()) as i32);
        assert(i32::MIN <= last - 123 <= i32::MAX);
    } else {
        lemma_item_frame_index_values(d, n, k);
        assert(d.take(n) =~= counts.take(n));
        assert(d[n] == counts[n]);
        assert(items_before(d, n) == items_before(counts, n));
        assert(items_before(counts, n) + k < front.len());
        lemma_items_before_nonneg(counts, n);
        assert(whole[items_before(counts, n) + k] == front[items_before(counts, n) + k]);
    }
}

} // verus!
