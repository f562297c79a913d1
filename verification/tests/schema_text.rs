use slp_parquet::schema::{
    schema_frame_post, schema_frame_pre, schema_frames, schema_item, schema_items,
    SCHEMA_FRAME_POST, SCHEMA_FRAME_POST_V0_2, SCHEMA_FRAME_POST_V2_0, SCHEMA_FRAME_POST_V2_1,
    SCHEMA_FRAME_POST_V3_5, SCHEMA_FRAME_POST_V3_8, SCHEMA_FRAME_PRE, SCHEMA_FRAME_PRE_V1_2,
    SCHEMA_FRAME_PRE_V1_4, SCHEMA_ITEM, SCHEMA_ITEM_V3_2, SCHEMA_ITEM_V3_6,
};
use slp_parquet::versions::{FrameVersions, ItemVersion, PostVersion, PreVersion};

fn versions(pre: PreVersion, post: PostVersion) -> FrameVersions {
    FrameVersions { pre, post }
}

#[test]
fn pre_base_block_is_exact() {
    let expected = "
required group position {
	required float x;
	required float y;
}
required boolean direction;
required group joystick {
	required float x;
	required float y;
}
required group cstick {
	required float x;
	required float y;
}
required group triggers {
	required group physical {
		required float l;
		required float r;
	}
	required float logical;
}
required int32 random_seed (UINT_32);
required group buttons {
	required int32 physical (UINT_16);
	required int32 logical (UINT_32);
}
required int32 state (UINT_16);
";
    let s = schema_frame_pre(&versions(PreVersion::Base, PostVersion::Base));
    assert_eq!(s, expected);
}

#[test]
fn pre_blocks_follow_version() {
    let base = schema_frame_pre(&versions(PreVersion::Base, PostVersion::V3_8));
    let v1_2 = schema_frame_pre(&versions(PreVersion::V1_2, PostVersion::Base));
    let v1_4 = schema_frame_pre(&versions(PreVersion::V1_4, PostVersion::Base));
    assert_eq!(base, SCHEMA_FRAME_PRE);
    assert_eq!(v1_2, format!("{}{}", SCHEMA_FRAME_PRE, SCHEMA_FRAME_PRE_V1_2));
    assert_eq!(
        v1_4,
        format!("{}{}{}", SCHEMA_FRAME_PRE, SCHEMA_FRAME_PRE_V1_2, SCHEMA_FRAME_PRE_V1_4)
    );
    assert!(v1_4.ends_with("\nrequired float damage;\n"));
    assert!(v1_2.ends_with("\nrequired int32 raw_analog_x (UINT_8);\n"));
}

#[test]
fn post_blocks_follow_version() {
    let layers = [
        SCHEMA_FRAME_POST_V0_2,
        SCHEMA_FRAME_POST_V2_0,
        SCHEMA_FRAME_POST_V2_1,
        SCHEMA_FRAME_POST_V3_5,
        SCHEMA_FRAME_POST_V3_8,
    ];
    let all = [
        PostVersion::Base,
        PostVersion::V0_2,
        PostVersion::V2_0,
        PostVersion::V2_1,
        PostVersion::V3_5,
        PostVersion::V3_8,
    ];
    for (depth, v) in all.iter().enumerate() {
        let mut expected = String::from(SCHEMA_FRAME_POST);
        for layer in &layers[..depth] {
            expected += layer;
        }
        assert_eq!(schema_frame_post(&versions(PreVersion::V1_4, *v)), expected);
    }
}

#[test]
fn post_newest_block_is_hitlag() {
    let s = schema_frame_post(&versions(PreVersion::Base, PostVersion::V3_8));
    assert!(s.ends_with("\nrequired float hitlag;\n"));
    assert!(s.starts_with("\nrequired group position {\n\trequired float x;"));
    assert!(s.contains("required int64 flags (UINT_64);"));
}

#[test]
fn frames_message_wraps_groups() {
    let v = versions(PreVersion::V1_2, PostVersion::V2_0);
    let pre = schema_frame_pre(&v);
    let post = schema_frame_post(&v);
    let expected = format!(
        "
message frame_data {{
	required int32 index;
	required int32 port (UINT_8);
	required boolean is_follower;
	required group pre {{ {} }}
	required group post {{ {} }}
}}",
        pre, post
    );
    assert_eq!(schema_frames(&v), expected);
}

#[test]
fn item_blocks_follow_version() {
    assert_eq!(schema_item(&ItemVersion::Base), SCHEMA_ITEM);
    assert_eq!(schema_item(&ItemVersion::V3_2), format!("{}{}", SCHEMA_ITEM, SCHEMA_ITEM_V3_2));
    assert_eq!(
        schema_item(&ItemVersion::V3_6),
        format!("{}{}{}", SCHEMA_ITEM, SCHEMA_ITEM_V3_2, SCHEMA_ITEM_V3_6)
    );
    assert!(schema_item(&ItemVersion::V3_6).ends_with("\nrequired int32 owner (UINT_8);\n"));
}

#[test]
fn items_message_wraps_fields() {
    let fields = schema_item(&ItemVersion::V3_2);
    let expected = format!(
        "
message item_data {{
	required int32 index;
	{}
}}
",
        fields
    );
    assert_eq!(schema_items(&ItemVersion::V3_2), expected);
}

#[test]
fn older_schema_is_prefix_of_newer() {
    let old = schema_frame_post(&versions(PreVersion::Base, PostVersion::V2_1));
    let new = schema_frame_post(&versions(PreVersion::Base, PostVersion::V3_8));
    assert!(new.starts_with(&old));
    assert!(new.len() > old.len());
    let old = schema_item(&ItemVersion::Base);
    let new = schema_item(&ItemVersion::V3_6);
    assert!(new.starts_with(&old));
}
