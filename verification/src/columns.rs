//! Which columns a row group receives, and in which order.
//!
//! A Parquet row group takes its columns one after the other, in the order
//! of the schema's leaf fields. The functions here decide, for the data a
//! replay carries, the sequence of columns written for it; the caller then
//! hands each column's values to the row group writer in that order.
use vstd::prelude::*;

use crate::layers::{layered, lemma_layered_map, lemma_layered_step, lemma_layered_zero};
use crate::versions::{FrameVersions, ItemVersion, PostVersion, PreVersion};

verus! {

/// Physical type of a column.
#[derive(Clone, Copy, Debug, PartialEq, Eq, Structural)]
pub enum ColumnKind {
    Boolean,
    Int32,
    Int64,
    Float,
}

/// A pre-frame field of one port.
#[derive(Clone, Copy, Debug, PartialEq, Eq, Structural)]
pub enum PreColumn {
    PositionX,
    PositionY,
    Direction,
    JoystickX,
    JoystickY,
    CstickX,
    CstickY,
    TriggersPhysicalL,
    TriggersPhysicalR,
    TriggersLogical,
    RandomSeed,
    ButtonsPhysical,
    ButtonsLogical,
    State,
    RawAnalogX,
    Damage,
}

/// A post-frame field of one port.
#[derive(Clone, Copy, Debug, PartialEq, Eq, Structural)]
pub enum PostColumn {
    PositionX,
    PositionY,
    Direction,
    Damage,
    Shield,
    State,
    Character,
    LastAttackLanded,
    ComboCount,
    LastHitBy,
    Stocks,
    StateAge,
    Flags,
    MiscAs,
    Airborne,
    Ground,
    Jumps,
    LCancel,
    HurtboxState,
    VelocityAutogenousX,
    VelocityAutogenousY,
    VelocityKnockbackX,
    VelocityKnockbackY,
    Hitlag,
}

/// A column of the item table.
#[derive(Clone, Copy, Debug, PartialEq, Eq, Structural)]
pub enum ItemColumn {
    /// Frame index of each item row.
    Index,
    Id,
    Type,
    State,
    Direction,
    PositionX,
    PositionY,
    VelocityX,
    VelocityY,
    Damage,
    Timer,
    Misc,
    Owner,
}

impl PreColumn {
    /// Physical type the schema declares for this field.
    pub open spec fn spec_kind(self) -> ColumnKind {
        match self {
            PreColumn::Direction => ColumnKind::Boolean,
            PreColumn::RandomSeed | PreColumn::ButtonsPhysical | PreColumn::ButtonsLogical
            | PreColumn::State | PreColumn::RawAnalogX => ColumnKind::Int32,
            _ => ColumnKind::Float,
        }
    }

    /// Physical type the schema declares for this field.
    pub fn kind(&self) -> (k: ColumnKind)
        ensures
            k == self.spec_kind(),
    {
        match self {
            PreColumn::Direction => ColumnKind::Boolean,
            PreColumn::RandomSeed | PreColumn::ButtonsPhysical | PreColumn::ButtonsLogical
            | PreColumn::State | PreColumn::RawAnalogX => ColumnKind::Int32,
            _ => ColumnKind::Float,
        }
    }
}

impl PostColumn {
    /// Physical type the schema declares for this field.
    pub open spec fn spec_kind(self) -> ColumnKind {
        match self {
            PostColumn::Direction | PostColumn::Airborne => ColumnKind::Boolean,
            PostColumn::State | PostColumn::Character | PostColumn::LastAttackLanded
            | PostColumn::ComboCount | PostColumn::LastHitBy | PostColumn::Stocks
            | PostColumn::Ground | PostColumn::Jumps | PostColumn::LCancel
            | PostColumn::HurtboxState => ColumnKind::Int32,
            PostColumn::Flags => ColumnKind::Int64,
            _ => ColumnKind::Float,
        }
    }

    /// Physical type the schema declares for this field.
    pub fn kind(&self) -> (k: ColumnKind)
        ensures
            k == self.spec_kind(),
    {
        match self {
            PostColumn::Direction | PostColumn::Airborne => ColumnKind::Boolean,
            PostColumn::State | PostColumn::Character | PostColumn::LastAttackLanded
            | PostColumn::ComboCount | PostColumn::LastHitBy | PostColumn::Stocks
            | PostColumn::Ground | PostColumn::Jumps | PostColumn::LCancel
            | PostColumn::HurtboxState => ColumnKind::Int32,
            PostColumn::Flags => ColumnKind::Int64,
            _ => ColumnKind::Float,
        }
    }
}

impl ItemColumn {
    /// Physical type the schema declares for this column.
    pub open spec fn spec_kind(self) -> ColumnKind {
        match self {
            ItemColumn::Direction => ColumnKind::Boolean,
            ItemColumn::PositionX | ItemColumn::PositionY | ItemColumn::VelocityX
            | ItemColumn::VelocityY | ItemColumn::Timer => ColumnKind::Float,
            _ => ColumnKind::Int32,
        }
    }

    /// Physical type the schema declares for this column.
    pub fn kind(&self) -> (k: ColumnKind)
        ensures
            k == self.spec_kind(),
    {
        match self {
            ItemColumn::Direction => ColumnKind::Boolean,
            ItemColumn::PositionX | ItemColumn::PositionY | ItemColumn::VelocityX
            | ItemColumn::VelocityY | ItemColumn::Timer => ColumnKind::Float,
            _ => ColumnKind::Int32,
        }
    }
}

/// Leaf fields of `SCHEMA_FRAME_PRE`, in the order the text declares them.
pub open spec fn pre_base_leaves() -> Seq<PreColumn> {
    seq![
        PreColumn::PositionX,
        PreColumn::PositionY,
        PreColumn::Direction,
        PreColumn::JoystickX,
        PreColumn::JoystickY,
        PreColumn::CstickX,
        PreColumn::CstickY,
        PreColumn::TriggersPhysicalL,
        PreColumn::TriggersPhysicalR,
        PreColumn::TriggersLogical,
        PreColumn::RandomSeed,
        PreColumn::ButtonsPhysical,
        PreColumn::ButtonsLogical,
        PreColumn::State,
    ]
}

/// Leaf fields of the pre-frame version blocks (`SCHEMA_FRAME_PRE_V1_2`,
/// `SCHEMA_FRAME_PRE_V1_4`).
pub open spec fn pre_layer_leaves() -> Seq<Seq<PreColumn>> {
    seq![seq![PreColumn::RawAnalogX], seq![PreColumn::Damage]]
}

/// Leaf fields of the pre-frame group for replays reaching `v`, in schema order.
pub open spec fn pre_schema_leaves(v: PreVersion) -> Seq<PreColumn> {
    layered(pre_base_leaves(), pre_layer_leaves(), v.spec_depth())
}

/// Base pre-frame fields in the order they are written: as the schema
/// declares them, except that the logical trigger is written before the two
/// physical triggers.
pub open spec fn pre_base_written() -> Seq<PreColumn> {
    seq![
        PreColumn::PositionX,
        PreColumn::PositionY,
        PreColumn::Direction,
        PreColumn::JoystickX,
        PreColumn::JoystickY,
        PreColumn::CstickX,
        PreColumn::CstickY,
        PreColumn::TriggersLogical,
        PreColumn::TriggersPhysicalL,
        PreColumn::TriggersPhysicalR,
        PreColumn::RandomSeed,
        PreColumn::ButtonsPhysical,
        PreColumn::ButtonsLogical,
        PreColumn::State,
    ]
}

/// Pre-frame fields written for replays reaching `v`, in order.
pub open spec fn spec_write_pre(v: PreVersion) -> Seq<PreColumn> {
    layered(pre_base_written(), pre_layer_leaves(), v.spec_depth())
}

/// Leaf fields of `SCHEMA_FRAME_POST`, in the order the text declares them.
pub open spec fn post_base_leaves() -> Seq<PostColumn> {
    seq![
        PostColumn::PositionX,
        PostColumn::PositionY,
        PostColumn::Direction,
        PostColumn::Damage,
        PostColumn::Shield,
        PostColumn::State,
        PostColumn::Character,
        PostColumn::LastAttackLanded,
        PostColumn::ComboCount,
        PostColumn::LastHitBy,
        PostColumn::Stocks,
    ]
}

/// Leaf fields of the post-frame version blocks, oldest first
/// (`SCHEMA_FRAME_POST_V0_2` to `SCHEMA_FRAME_POST_V3_8`).
pub open spec fn post_layer_leaves() -> Seq<Seq<PostColumn>> {
    seq![
        seq![PostColumn::StateAge],
        seq![
            PostColumn::Flags,
            PostColumn::MiscAs,
            PostColumn::Airborne,
            PostColumn::Ground,
            PostColumn::Jumps,
            PostColumn::LCancel,
        ],
        seq![PostColumn::HurtboxState],
        seq![
            PostColumn::VelocityAutogenousX,
            PostColumn::VelocityAutogenousY,
            PostColumn::VelocityKnockbackX,
            PostColumn::VelocityKnockbackY,
        ],
        seq![PostColumn::Hitlag],
    ]
}

/// Leaf fields of the post-frame group for replays reaching `v`, in schema order.
pub open spec fn post_schema_leaves(v: PostVersion) -> Seq<PostColumn> {
    layered(post_base_leaves(), post_layer_leaves(), v.spec_depth())
}

/// Leaf fields of `SCHEMA_ITEM`, in the order the text declares them.
pub open spec fn item_base_leaves() -> Seq<ItemColumn> {
    seq![
        ItemColumn::Id,
        ItemColumn::Type,
        ItemColumn::State,
        ItemColumn::Direction,
        ItemColumn::PositionX,
        ItemColumn::PositionY,
        ItemColumn::VelocityX,
        ItemColumn::VelocityY,
        ItemColumn::Damage,
        ItemColumn::Timer,
    ]
}

/// Leaf fields of the item version blocks (`SCHEMA_ITEM_V3_2`, `SCHEMA_ITEM_V3_6`).
pub open spec fn item_layer_leaves() -> Seq<Seq<ItemColumn>> {
    seq![seq![ItemColumn::Misc], seq![ItemColumn::Owner]]
}

/// Leaf columns of the item table for replays reaching `v`: the frame
/// index, then the item fields, in schema order.
pub open spec fn item_schema_leaves(v: ItemVersion) -> Seq<ItemColumn> {
    seq![ItemColumn::Index] + layered(item_base_leaves(), item_layer_leaves(), v.spec_depth())
}

/// The pre-frame columns of one port, in the order they are written: the
/// base fields, then `raw_analog_x` (1.2) and `damage` (1.4) where present.
pub fn write_pre(pre: &PreVersion) -> (columns: Vec<PreColumn>)
    ensures
        columns@ == spec_write_pre(*pre),
{
    let mut columns = vec![
        PreColumn::PositionX,
        PreColumn::PositionY,
        PreColumn::Direction,
        PreColumn::JoystickX,
        PreColumn::JoystickY,
        PreColumn::CstickX,
        PreColumn::CstickY,
        PreColumn::TriggersLogical,
        PreColumn::TriggersPhysicalL,
        PreColumn::TriggersPhysicalR,
        PreColumn::RandomSeed,
        PreColumn::ButtonsPhysical,
        PreColumn::ButtonsLogical,
        PreColumn::State,
    ];
    proof {
        assert(columns@ =~= pre_base_written());
        lemma_layered_zero(pre_base_written(), pre_layer_leaves());
        lemma_layered_step(pre_base_written(), pre_layer_leaves(), 0);
        lemma_layered_step(pre_base_written(), pre_layer_leaves(), 1);
    }
    let depth = pre.depth();
    if depth >= 1 {
        columns.push(PreColumn::RawAnalogX);
        if depth >= 2 {
            columns.push(PreColumn::Damage);
        }
    }
    columns
}

/// The post-frame columns of one port, in the order they are written: the
/// base fields, then the blocks of Slippi 0.2, 2.0, 2.1, 3.5 and 3.8 as far
/// as the replay carries them. This is the order the schema declares them in.
pub fn write_post(post: &PostVersion) -> (columns: Vec<PostColumn>)
    ensures
        columns@ == post_schema_leaves(*post),
{
    let mut columns = vec![
        PostColumn::PositionX,
        PostColumn::PositionY,
        PostColumn::Direction,
        PostColumn::Damage,
        PostColumn::Shield,
        PostColumn::State,
        PostColumn::Character,
        PostColumn::LastAttackLanded,
        PostColumn::ComboCount,
        PostColumn::LastHitBy,
        PostColumn::Stocks,
    ];
    proof {
        assert(columns@ =~= post_base_leaves());
        lemma_layered_zero(post_base_leaves(), post_layer_leaves());
        lemma_layered_step(post_base_leaves(), post_layer_leaves(), 0);
        lemma_layered_step(post_base_leaves(), post_layer_leaves(), 1);
        lemma_layered_step(post_base_leaves(), post_layer_leaves(), 2);
        lemma_layered_step(post_base_leaves(), post_layer_leaves(), 3);
        lemma_layered_step(post_base_leaves(), post_layer_leaves(), 4);
    }
    let depth = post.depth();
    if depth >= 1 {
        columns.push(PostColumn::StateAge);
        if depth >= 2 {
            let ghost before = columns@;
            columns.push(PostColumn::Flags);
            columns.push(PostColumn::MiscAs);
            columns.push(PostColumn::Airborne);
            columns.push(PostColumn::Ground);
            columns.push(PostColumn::Jumps);
            columns.push(PostColumn::LCancel);
            assert(columns@ =~= before + post_layer_leaves()[1]);
            if depth >= 3 {
                columns.push(PostColumn::HurtboxState);
                if depth >= 4 {
                    let ghost before = columns@;
                    columns.push(PostColumn::VelocityAutogenousX);
                    columns.push(PostColumn::VelocityAutogenousY);
                    columns.push(PostColumn::VelocityKnockbackX);
                    columns.push(PostColumn::VelocityKnockbackY);
                    assert(columns@ =~= before + post_layer_leaves()[3]);
                    if depth >= 5 {
                        columns.push(PostColumn::Hitlag);
                    }
                }
            }
        }
    }
    columns
}

/// The columns of the item table, in the order they are written: the frame
/// index, the base item fields, then `misc` (3.2) and `owner` (3.6) where
/// present. This is the order the schema declares them in.
pub fn write_item(item: &ItemVersion) -> (columns: Vec<ItemColumn>)
    ensures
        columns@ == item_schema_leaves(*item),
{
    let mut columns = vec![
        ItemColumn::Index,
        ItemColumn::Id,
        ItemColumn::Type,
        ItemColumn::State,
        ItemColumn::Direction,
        ItemColumn::PositionX,
        ItemColumn::PositionY,
        ItemColumn::VelocityX,
        ItemColumn::VelocityY,
        ItemColumn::Damage,
        ItemColumn::Timer,
    ];
    proof {
        lemma_layered_zero(item_base_leaves(), item_layer_leaves());
        lemma_layered_step(item_base_leaves(), item_layer_leaves(), 0);
        lemma_layered_step(item_base_leaves(), item_layer_leaves(), 1);
        assert(columns@ =~= seq![ItemColumn::Index] + item_base_leaves());
    }
    let depth = item.depth();
    if depth >= 1 {
        columns.push(ItemColumn::Misc);
        if depth >= 2 {
            columns.push(ItemColumn::Owner);
        }
    }
    proof {
        let l = layered(item_base_leaves(), item_layer_leaves(), item.spec_depth());
        if item.spec_depth() >= 1 {
            assert(seq![ItemColumn::Index] + layered(item_base_leaves(), item_layer_leaves(), 1)
                =~= (seq![ItemColumn::Index] + item_base_leaves()).push(ItemColumn::Misc));
        }
        if item.spec_depth() >= 2 {
            assert(seq![ItemColumn::Index] + layered(item_base_leaves(), item_layer_leaves(), 2)
                =~= (seq![ItemColumn::Index] + item_base_leaves()).push(ItemColumn::Misc).push(
                ItemColumn::Owner,
            ));
        }
    }
    columns
}

/// Every pre-frame column is written with the physical type the schema
/// declares at its position: the written order and the schema's leaf order
/// agree column by column on the type.
pub proof fn lemma_write_pre_kinds_match_schema(v: PreVersion)
    ensures
        spec_write_pre(v).map_values(|c: PreColumn| c.spec_kind())
            == pre_schema_leaves(v).map_values(|c: PreColumn| c.spec_kind()),
{
    let f = |c: PreColumn| c.spec_kind();
    lemma_layered_map(pre_base_written(), pre_layer_leaves(), v.spec_depth(), f);
    lemma_layered_map(pre_base_leaves(), pre_layer_leaves(), v.spec_depth(), f);
    assert(pre_base_written().map_values(f) =~= pre_base_leaves().map_values(f));
}

/// The pre-frame columns are written in schema order, except the three
/// trigger fields: at the positions where the schema declares
/// `physical.l`, `physical.r`, `logical`, the writes are `logical`,
/// `physical.l`, `physical.r`.
pub proof fn lemma_write_pre_order(v: PreVersion)
    ensures
        spec_write_pre(v).len() == pre_schema_leaves(v).len(),
        forall|i: int|
            0 <= i < spec_write_pre(v).len() && !(7 <= i < 10) ==> #[trigger] spec_write_pre(v)[i]
                == pre_schema_leaves(v)[i],
        spec_write_pre(v)[7] == pre_schema_leaves(v)[9],
        spec_write_pre(v)[8] == pre_schema_leaves(v)[7],
        spec_write_pre(v)[9] == pre_schema_leaves(v)[8],
{
    let layers = pre_layer_leaves().take(v.spec_depth() as int).flatten_alt();
    assert forall|i: int|
        0 <= i < spec_write_pre(v).len() && !(7 <= i < 10) implies #[trigger] spec_write_pre(v)[i]
        == pre_schema_leaves(v)[i] by {
        if i < 14 {
            assert(spec_write_pre(v)[i] == pre_base_written()[i]);
            assert(pre_schema_leaves(v)[i] == pre_base_leaves()[i]);
        } else {
            assert(spec_write_pre(v)[i] == layers[i - 14]);
            assert(pre_schema_leaves(v)[i] == layers[i - 14]);
        }
    }
}

/// A column of the frame table.
#[derive(Clone, Copy, Debug, PartialEq, Eq, Structural)]
pub enum FrameColumn {
    /// Frame index of each row.
    Index,
    /// Port of the row group.
    Port,
    /// Whether the row group holds the follower's data.
    IsFollower,
    /// A field of the `pre` group.
    Pre(PreColumn),
    /// A field of the `post` group.
    Post(PostColumn),
}

impl FrameColumn {
    /// Physical type the schema declares for this column.
    pub open spec fn spec_kind(self) -> ColumnKind {
        match self {
            FrameColumn::Index | FrameColumn::Port => ColumnKind::Int32,
            FrameColumn::IsFollower => ColumnKind::Boolean,
            FrameColumn::Pre(c) => c.spec_kind(),
            FrameColumn::Post(c) => c.spec_kind(),
        }
    }

    /// Physical type the schema declares for this column.
    pub fn kind(&self) -> (k: ColumnKind)
        ensures
            k == self.spec_kind(),
    {
        match self {
            FrameColumn::Index | FrameColumn::Port => ColumnKind::Int32,
            FrameColumn::IsFollower => ColumnKind::Boolean,
            FrameColumn::Pre(c) => c.kind(),
            FrameColumn::Post(c) => c.kind(),
        }
    }
}

/// Index, port and follower columns, which every frame row group starts with.
pub open spec fn frame_key_columns() -> Seq<FrameColumn> {
    seq![FrameColumn::Index, FrameColumn::Port, FrameColumn::IsFollower]
}

/// Leaf columns of the frame table for replays reaching `v`, in schema order.
pub open spec fn frames_schema_leaves(v: FrameVersions) -> Seq<FrameColumn> {
    frame_key_columns() + pre_schema_leaves(v.pre).map_values(|c: PreColumn| FrameColumn::Pre(c))
        + post_schema_leaves(v.post).map_values(|c: PostColumn| FrameColumn::Post(c))
}

/// Columns of a frame row group for replays reaching `v`, in the order
/// they are written.
pub open spec fn spec_frame_row_group_columns(v: FrameVersions) -> Seq<FrameColumn> {
    frame_key_columns() + spec_write_pre(v.pre).map_values(|c: PreColumn| FrameColumn::Pre(c))
        + post_schema_leaves(v.post).map_values(|c: PostColumn| FrameColumn::Post(c))
}

/// The columns of one frame row group, in the order they are written: frame
/// index, port, follower flag, then the pre-frame columns (`write_pre`) and
/// the post-frame columns (`write_post`).
pub fn frame_row_group_columns(frames: &FrameVersions) -> (columns: Vec<FrameColumn>)
    ensures
        columns@ == spec_frame_row_group_columns(*frames),
{
    let pre = write_pre(&frames.pre);
    let post = write_post(&frames.post);
    let mut columns = vec![FrameColumn::Index, FrameColumn::Port, FrameColumn::IsFollower];
    let ghost head = columns@;
    assert(head =~= frame_key_columns());
    let mut i: usize = 0;
    while i < pre.len()
        invariant
            i <= pre@.len(),
            columns@ == head + pre@.take(i as int).map_values(|c: PreColumn| FrameColumn::Pre(c)),
        decreases pre@.len() - i,
    {
        columns.push(FrameColumn::Pre(pre[i]));
        i = i + 1;
        assert(columns@ =~= head + pre@.take(i as int).map_values(|c: PreColumn| FrameColumn::Pre(c)));
    }
    assert(pre@.take(pre@.len() as int) =~= pre@);
    let ghost mid = columns@;
    let mut j: usize = 0;
    while j < post.len()
        invariant
            j <= post@.len(),
            columns@ == mid + post@.take(j as int).map_values(|c: PostColumn| FrameColumn::Post(c)),
        decreases post@.len() - j,
    {
        columns.push(FrameColumn::Post(post[j]));
        j = j + 1;
        assert(columns@ =~= mid + post@.take(j as int).map_values(|c: PostColumn| FrameColumn::Post(c)));
    }
    assert(post@.take(post@.len() as int) =~= post@);
    columns
}

/// Every column of a frame row group is written with the physical type the
/// frame table's schema declares at its position.
pub proof fn lemma_frame_row_group_kinds_match_schema(v: FrameVersions)
    ensures
        spec_frame_row_group_columns(v).map_values(|c: FrameColumn| c.spec_kind())
            == frames_schema_leaves(v).map_values(|c: FrameColumn| c.spec_kind()),
{
    lemma_write_pre_kinds_match_schema(v.pre);
    let w = spec_frame_row_group_columns(v);
    let s = frames_schema_leaves(v);
    let wp = spec_write_pre(v.pre);
    let sp = pre_schema_leaves(v.pre);
    let pk = |c: PreColumn| c.spec_kind();
    assert(wp.len() == sp.len()) by {
        assert(wp.map_values(pk).len() == sp.map_values(pk).len());
    }
    assert(w.len() == s.len());
    assert forall|i: int| 0 <= i < w.len() implies #[trigger] w[i].spec_kind() == s[i].spec_kind() by {
        if 3 <= i < 3 + wp.len() {
            assert(wp.map_values(pk)[i - 3] == sp.map_values(pk)[i - 3]);
        }
    }
    assert(w.map_values(|c: FrameColumn| c.spec_kind()) =~= s.map_values(|c: FrameColumn| c.spec_kind()));
}

} // verus!
