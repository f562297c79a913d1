//! Parquet message-type text for frame and item tables.
//!
//! Each table's schema is a base block of fields followed by the block of
//! every format version the replay reaches, oldest first.
use vstd::prelude::*;
use vstd::string::*;

use crate::layers::{layered, lemma_layered_prefix, lemma_layered_step, lemma_layered_zero};
use crate::versions::{FrameVersions, ItemVersion, PostVersion, PreVersion};

verus! {

/// Pre-frame fields every replay carries.
pub const SCHEMA_FRAME_PRE: &'static str = "
required group position {
	required float x;
	required float y;
}
required boolean direction;
required group joystick {
	required float x;
	required float y;
}
required group cstick {
	required float x;
	required float y;
}
required group triggers {
	required group physical {
		required float l;
		required float r;
	}
	required float logical;
}
required int32 random_seed (UINT_32);
required group buttons {
	required int32 physical (UINT_16);
	required int32 logical (UINT_32);
}
required int32 state (UINT_16);
";

/// Pre-frame fields added in Slippi 1.2.
pub const SCHEMA_FRAME_PRE_V1_2: &'static str = "
required int32 raw_analog_x (UINT_8);
";

/// Pre-frame fields added in Slippi 1.4.
pub const SCHEMA_FRAME_PRE_V1_4: &'static str = "
required float damage;
";

/// Post-frame fields every replay carries.
pub const SCHEMA_FRAME_POST: &'static str = "
required group position {
	required float x;
	required float y;
}
required boolean direction;
required float damage;
required float shield;
required int32 state (UINT_16);
required int32 character (UINT_8);
required int32 last_attack_landed (UINT_8);
required int32 combo_count (UINT_8);
required int32 last_hit_by (UINT_8);
required int32 stocks (UINT_8);
";

/// Post-frame fields added in Slippi 0.2.
pub const SCHEMA_FRAME_POST_V0_2: &'static str = "
required float state_age;
";

/// Post-frame fields added in Slippi 2.0.
pub const SCHEMA_FRAME_POST_V2_0: &'static str = "
required int64 flags (UINT_64);
required float misc_as;
required boolean airborne;
required int32 ground (UINT_16);
required int32 jumps (UINT_8);
required int32 l_cancel (UINT_8);
";

/// Post-frame fields added in Slippi 2.1.
pub const SCHEMA_FRAME_POST_V2_1: &'static str = "
required int32 hurtbox_state (UINT_8);
";

/// Post-frame fields added in Slippi 3.5.
pub const SCHEMA_FRAME_POST_V3_5: &'static str = "
required group velocities {
	required group autogenous {
		required float x;
		required float y;
	}
	required group knockback {
		required float x;
		required float y;
	}
}
";

/// Post-frame fields added in Slippi 3.8.
pub const SCHEMA_FRAME_POST_V3_8: &'static str = "
required float hitlag;
";

/// Item fields every replay carries.
pub const SCHEMA_ITEM: &'static str = "
required int32 id (UINT_32);
required int32 type (UINT_16);
required int32 state (UINT_8);
required boolean direction;
required group position {
	required float x;
	required float y;
}
required group velocity {
	required float x;
	required float y;
}
required int32 damage (UINT_16);
required float timer;
";

/// Item fields added in Slippi 3.2.
pub const SCHEMA_ITEM_V3_2: &'static str = "
required int32 misc (UINT_32);
";

/// Item fields added in Slippi 3.6.
pub const SCHEMA_ITEM_V3_6: &'static str = "
required int32 owner (UINT_8);
";
/// Opening of the frame table's message type, up to the pre-frame group's fields.
pub const FRAMES_HEAD: &'static str = "
message frame_data {
	required int32 index;
	required int32 port (UINT_8);
	required boolean is_follower;
	required group pre { ";

/// Text between the pre-frame group's fields and the post-frame group's fields.
pub const FRAMES_MIDDLE: &'static str = " }
	required group post { ";

/// Closing of the frame table's message type.
pub const FRAMES_TAIL: &'static str = " }
}";

/// Opening of the item table's message type, up to the item fields.
pub const ITEMS_HEAD: &'static str = "
message item_data {
	required int32 index;
	";

/// Closing of the item table's message type.
pub const ITEMS_TAIL: &'static str = "
}
";

/// Views of a list of text pieces.
pub open spec fn texts(pieces: Seq<&str>) -> Seq<Seq<char>> {
    pieces.map_values(|p: &str| p@)
}

/// Pre-frame blocks past the base, oldest first.
pub open spec fn pre_layers() -> Seq<Seq<char>> {
    seq![SCHEMA_FRAME_PRE_V1_2@, SCHEMA_FRAME_PRE_V1_4@]
}

/// Post-frame blocks past the base, oldest first.
pub open spec fn post_layers() -> Seq<Seq<char>> {
    seq![
        SCHEMA_FRAME_POST_V0_2@,
        SCHEMA_FRAME_POST_V2_0@,
        SCHEMA_FRAME_POST_V2_1@,
        SCHEMA_FRAME_POST_V3_5@,
        SCHEMA_FRAME_POST_V3_8@,
    ]
}

/// Item blocks past the base, oldest first.
pub open spec fn item_layers() -> Seq<Seq<char>> {
    seq![SCHEMA_ITEM_V3_2@, SCHEMA_ITEM_V3_6@]
}

/// Fields of the pre-frame group for replays reaching `v`.
pub open spec fn spec_schema_frame_pre(v: PreVersion) -> Seq<char> {
    layered(SCHEMA_FRAME_PRE@, pre_layers(), v.spec_depth())
}

/// Fields of the post-frame group for replays reaching `v`.
pub open spec fn spec_schema_frame_post(v: PostVersion) -> Seq<char> {
    layered(SCHEMA_FRAME_POST@, post_layers(), v.spec_depth())
}

/// Item fields for replays reaching `v`.
pub open spec fn spec_schema_item(v: ItemVersion) -> Seq<char> {
    layered(SCHEMA_ITEM@, item_layers(), v.spec_depth())
}

/// Message type of the frame table.
pub open spec fn spec_schema_frames(v: FrameVersions) -> Seq<char> {
    FRAMES_HEAD@ + spec_schema_frame_pre(v.pre) + FRAMES_MIDDLE@ + spec_schema_frame_post(v.post)
        + FRAMES_TAIL@
}

/// Message type of the item table.
pub open spec fn spec_schema_items(v: ItemVersion) -> Seq<char> {
    ITEMS_HEAD@ + spec_schema_item(v) + ITEMS_TAIL@
}

/// `base` followed by the first `depth` of `layers`.
fn layered_text(base: &str, layers: &[&str], depth: usize) -> (text: String)
    requires
        depth <= layers@.len(),
    ensures
        text@ == layered(base@, texts(layers@), depth as nat),
{
    let mut text = String::from_str(base);
    proof {
        lemma_layered_zero(base@, texts(layers@));
    }
    let mut i: usize = 0;
    while i < depth
        invariant
            i <= depth <= layers@.len(),
            text@ == layered(base@, texts(layers@), i as nat),
        decreases depth - i,
    {
        proof {
            lemma_layered_step(base@, texts(layers@), i as nat);
        }
        text.append(layers[i]);
        i = i + 1;
    }
    text
}

/// Fields of the pre-frame group: the base block, then the 1.2 block and
/// the 1.4 block where the replay carries them.
pub fn schema_frame_pre(frames: &FrameVersions) -> (schema: String)
    ensures
        schema@ == spec_schema_frame_pre(frames.pre),
        schema@ == match frames.pre {
            PreVersion::Base => SCHEMA_FRAME_PRE@,
            PreVersion::V1_2 => SCHEMA_FRAME_PRE@ + SCHEMA_FRAME_PRE_V1_2@,
            PreVersion::V1_4 => SCHEMA_FRAME_PRE@ + SCHEMA_FRAME_PRE_V1_2@ + SCHEMA_FRAME_PRE_V1_4@,
        },
{
    proof {
        lemma_schema_frame_pre_blocks(*frames);
    }
    let layers = [SCHEMA_FRAME_PRE_V1_2, SCHEMA_FRAME_PRE_V1_4];
    assert(texts(layers@) =~= pre_layers());
    layered_text(SCHEMA_FRAME_PRE, &layers, frames.pre.depth())
}

/// Fields of the post-frame group: the base block, then the blocks of
/// Slippi 0.2, 2.0, 2.1, 3.5 and 3.8, as far as the replay carries them.
pub fn schema_frame_post(frames: &FrameVersions) -> (schema: String)
    ensures
        schema@ == spec_schema_frame_post(frames.post),
        schema@ == match frames.post {
            PostVersion::Base => SCHEMA_FRAME_POST@,
            PostVersion::V0_2 => SCHEMA_FRAME_POST@ + SCHEMA_FRAME_POST_V0_2@,
            PostVersion::V2_0 => SCHEMA_FRAME_POST@ + SCHEMA_FRAME_POST_V0_2@ + SCHEMA_FRAME_POST_V2_0@,
            PostVersion::V2_1 => SCHEMA_FRAME_POST@ + SCHEMA_FRAME_POST_V0_2@ + SCHEMA_FRAME_POST_V2_0@
                + SCHEMA_FRAME_POST_V2_1@,
            PostVersion::V3_5 => SCHEMA_FRAME_POST@ + SCHEMA_FRAME_POST_V0_2@ + SCHEMA_FRAME_POST_V2_0@
                + SCHEMA_FRAME_POST_V2_1@ + SCHEMA_FRAME_POST_V3_5@,
            PostVersion::V3_8 => SCHEMA_FRAME_POST@ + SCHEMA_FRAME_POST_V0_2@ + SCHEMA_FRAME_POST_V2_0@
                + SCHEMA_FRAME_POST_V2_1@ + SCHEMA_FRAME_POST_V3_5@ + SCHEMA_FRAME_POST_V3_8@,
        },
{
    proof {
        lemma_schema_frame_post_blocks(*frames);
    }
    let layers = [
        SCHEMA_FRAME_POST_V0_2,
        SCHEMA_FRAME_POST_V2_0,
        SCHEMA_FRAME_POST_V2_1,
        SCHEMA_FRAME_POST_V3_5,
        SCHEMA_FRAME_POST_V3_8,
    ];
    assert(texts(layers@) =~= post_layers());
    layered_text(SCHEMA_FRAME_POST, &layers, frames.post.depth())
}

/// Message type of the frame table: frame index, port and follower flag,
/// then a `pre` group and a `post` group holding the fields above.
pub fn schema_frames(frames: &FrameVersions) -> (schema: String)
    ensures
        schema@ == spec_schema_frames(*frames),
        schema@ == FRAMES_HEAD@ + spec_schema_frame_pre(frames.pre) + FRAMES_MIDDLE@
            + spec_schema_frame_post(frames.post) + FRAMES_TAIL@,
{
    let pre = schema_frame_pre(frames);
    let post = schema_frame_post(frames);
    let mut schema = String::from_str(FRAMES_HEAD);
    schema.append(pre.as_str());
    schema.append(FRAMES_MIDDLE);
    schema.append(post.as_str());
    schema.append(FRAMES_TAIL);
    schema
}

/// Item fields: the base block, then the 3.2 block and the 3.6 block where
/// the replay carries them.
pub fn schema_item(item: &ItemVersion) -> (schema: String)
    ensures
        schema@ == spec_schema_item(*item),
        schema@ == match *item {
            ItemVersion::Base => SCHEMA_ITEM@,
            ItemVersion::V3_2 => SCHEMA_ITEM@ + SCHEMA_ITEM_V3_2@,
            ItemVersion::V3_6 => SCHEMA_ITEM@ + SCHEMA_ITEM_V3_2@ + SCHEMA_ITEM_V3_6@,
        },
{
    proof {
        lemma_schema_item_blocks(item);
    }
    let layers = [SCHEMA_ITEM_V3_2, SCHEMA_ITEM_V3_6];
    assert(texts(layers@) =~= item_layers());
    layered_text(SCHEMA_ITEM, &layers, item.depth())
}

/// Message type of the item table: the frame index, then the item fields.
pub fn schema_items(item: &ItemVersion) -> (schema: String)
    ensures
        schema@ == spec_schema_items(*item),
        schema@ == ITEMS_HEAD@ + spec_schema_item(*item) + ITEMS_TAIL@,
{
    let fields = schema_item(item);
    let mut schema = String::from_str(ITEMS_HEAD);
    schema.append(fields.as_str());
    schema.append(ITEMS_TAIL);
    schema
}

/// A replay reaching a newer pre-frame version has the older one's
/// pre-frame fields as a prefix of its own.
pub proof fn lemma_schema_frame_pre_grows(a: PreVersion, b: PreVersion)
    requires
        a.spec_depth() <= b.spec_depth(),
    ensures
        spec_schema_frame_pre(a).is_prefix_of(spec_schema_frame_pre(b)),
{
    lemma_layered_prefix(SCHEMA_FRAME_PRE@, pre_layers(), a.spec_depth(), b.spec_depth());
}

/// A replay reaching a newer post-frame version has the older one's
/// post-frame fields as a prefix of its own.
pub proof fn lemma_schema_frame_post_grows(a: PostVersion, b: PostVersion)
    requires
        a.spec_depth() <= b.spec_depth(),
    ensures
        spec_schema_frame_post(a).is_prefix_of(spec_schema_frame_post(b)),
{
    lemma_layered_prefix(SCHEMA_FRAME_POST@, post_layers(), a.spec_depth(), b.spec_depth());
}

/// A replay reaching a newer item version has the older one's item fields
/// as a prefix of its own.
pub proof fn lemma_schema_item_grows(a: ItemVersion, b: ItemVersion)
    requires
        a.spec_depth() <= b.spec_depth(),
    ensures
        spec_schema_item(a).is_prefix_of(spec_schema_item(b)),
{
    lemma_layered_prefix(SCHEMA_ITEM@, item_layers(), a.spec_depth(), b.spec_depth());
}

/// The pre-frame fields of a replay are the base block followed by the
/// block of each version it reaches, 1.2 then 1.4.
pub proof fn lemma_schema_frame_pre_blocks(frames: FrameVersions)
    ensures
        spec_schema_frame_pre(frames.pre) == match frames.pre {
            PreVersion::Base => SCHEMA_FRAME_PRE@,
            PreVersion::V1_2 => SCHEMA_FRAME_PRE@ + SCHEMA_FRAME_PRE_V1_2@,
            PreVersion::V1_4 => SCHEMA_FRAME_PRE@ + SCHEMA_FRAME_PRE_V1_2@ + SCHEMA_FRAME_PRE_V1_4@,
        },
{
    let b = SCHEMA_FRAME_PRE@;
    let l = pre_layers();
    lemma_layered_zero(b, l);
    lemma_layered_step(b, l, 0);
    lemma_layered_step(b, l, 1);
}

/// The post-frame fields of a replay are the base block followed by the
/// block of each version it reaches, 0.2, 2.0, 2.1, 3.5 then 3.8.
pub proof fn lemma_schema_frame_post_blocks(frames: FrameVersions)
    ensures
        spec_schema_frame_post(frames.post) == match frames.post {
            PostVersion::Base => SCHEMA_FRAME_POST@,
            PostVersion::V0_2 => SCHEMA_FRAME_POST@ + SCHEMA_FRAME_POST_V0_2@,
            PostVersion::V2_0 => SCHEMA_FRAME_POST@ + SCHEMA_FRAME_POST_V0_2@ + SCHEMA_FRAME_POST_V2_0@,
            PostVersion::V2_1 => SCHEMA_FRAME_POST@ + SCHEMA_FRAME_POST_V0_2@ + SCHEMA_FRAME_POST_V2_0@
                + SCHEMA_FRAME_POST_V2_1@,
            PostVersion::V3_5 => SCHEMA_FRAME_POST@ + SCHEMA_FRAME_POST_V0_2@ + SCHEMA_FRAME_POST_V2_0@
                + SCHEMA_FRAME_POST_V2_1@ + SCHEMA_FRAME_POST_V3_5@,
            PostVersion::V3_8 => SCHEMA_FRAME_POST@ + SCHEMA_FRAME_POST_V0_2@ + SCHEMA_FRAME_POST_V2_0@
                + SCHEMA_FRAME_POST_V2_1@ + SCHEMA_FRAME_POST_V3_5@ + SCHEMA_FRAME_POST_V3_8@,
        },
{
    let b = SCHEMA_FRAME_POST@;
    let l = post_layers();
    lemma_layered_zero(b, l);
    lemma_layered_step(b, l, 0);
    lemma_layered_step(b, l, 1);
    lemma_layered_step(b, l, 2);
    lemma_layered_step(b, l, 3);
    lemma_layered_step(b, l, 4);
}

/// The item fields of a replay are the base block followed by the block of
/// each version it reaches, 3.2 then 3.6.
pub proof fn lemma_schema_item_blocks(item: &ItemVersion)
    ensures
        spec_schema_item(*item) == match *item {
            ItemVersion::Base => SCHEMA_ITEM@,
            ItemVersion::V3_2 => SCHEMA_ITEM@ + SCHEMA_ITEM_V3_2@,
            ItemVersion::V3_6 => SCHEMA_ITEM@ + SCHEMA_ITEM_V3_2@ + SCHEMA_ITEM_V3_6@,
        },
{
    let b = SCHEMA_ITEM@;
    let l = item_layers();
    lemma_layered_zero(b, l);
    lemma_layered_step(b, l, 0);
    lemma_layered_step(b, l, 1);
}

/// The frame table's schema text is its head, the pre-frame fields, the
/// text between the groups, the post-frame fields and its tail, in that
/// order.
pub proof fn lemma_schema_frames_parts(frames: FrameVersions)
    ensures
        spec_schema_frames(frames) == FRAMES_HEAD@ + spec_schema_frame_pre(frames.pre)
            + FRAMES_MIDDLE@ + spec_schema_frame_post(frames.post) + FRAMES_TAIL@,
{
}

/// The item table's schema text is its head, the item fields and its tail.
pub proof fn lemma_schema_items_parts(item: ItemVersion)
    ensures
        spec_schema_items(item) == ITEMS_HEAD@ + spec_schema_item(item) + ITEMS_TAIL@,
{
}

} // verus!
