use std::sync::Arc;

use parquet::basic::Type as PhysicalType;
use parquet::errors::ParquetError;
use parquet::schema::types::SchemaDescriptor;

use slp_parquet::columns::{
    frame_row_group_columns, write_item, write_post, write_pre, ColumnKind, FrameColumn,
    ItemColumn, PostColumn, PreColumn,
};
use slp_parquet::message::{
    frames_message_type, items_message_type, message_type_result, SchemaError,
};
use slp_parquet::versions::{FrameVersions, ItemVersion, PostVersion, PreVersion};

const PRE: [PreVersion; 3] = [PreVersion::Base, PreVersion::V1_2, PreVersion::V1_4];
const POST: [PostVersion; 6] = [
    PostVersion::Base,
    PostVersion::V0_2,
    PostVersion::V2_0,
    PostVersion::V2_1,
    PostVersion::V3_5,
    PostVersion::V3_8,
];
const ITEM: [ItemVersion; 3] = [ItemVersion::Base, ItemVersion::V3_2, ItemVersion::V3_6];

fn kind_of(t: PhysicalType) -> ColumnKind {
    match t {
        PhysicalType::BOOLEAN => ColumnKind::Boolean,
        PhysicalType::INT32 => ColumnKind::Int32,
        PhysicalType::INT64 => ColumnKind::Int64,
        PhysicalType::FLOAT => ColumnKind::Float,
        other => panic!("unexpected physical type {:?}", other),
    }
}

fn pre_path(c: PreColumn) -> &'static str {
    match c {
        PreColumn::PositionX => "position.x",
        PreColumn::PositionY => "position.y",
        PreColumn::Direction => "direction",
        PreColumn::JoystickX => "joystick.x",
        PreColumn::JoystickY => "joystick.y",
        PreColumn::CstickX => "cstick.x",
        PreColumn::CstickY => "cstick.y",
        PreColumn::TriggersPhysicalL => "triggers.physical.l",
        PreColumn::TriggersPhysicalR => "triggers.physical.r",
        PreColumn::TriggersLogical => "triggers.logical",
        PreColumn::RandomSeed => "random_seed",
        PreColumn::ButtonsPhysical => "buttons.physical",
        PreColumn::ButtonsLogical => "buttons.logical",
        PreColumn::State => "state",
        PreColumn::RawAnalogX => "raw_analog_x",
        PreColumn::Damage => "damage",
    }
}

fn post_path(c: PostColumn) -> &'static str {
    match c {
        PostColumn::PositionX => "position.x",
        PostColumn::PositionY => "position.y",
        PostColumn::Direction => "direction",
        PostColumn::Damage => "damage",
        PostColumn::Shield => "shield",
        PostColumn::State => "state",
        PostColumn::Character => "character",
        PostColumn::LastAttackLanded => "last_attack_landed",
        PostColumn::ComboCount => "combo_count",
        PostColumn::LastHitBy => "last_hit_by",
        PostColumn::Stocks => "stocks",
        PostColumn::StateAge => "state_age",
        PostColumn::Flags => "flags",
        PostColumn::MiscAs => "misc_as",
        PostColumn::Airborne => "airborne",
        PostColumn::Ground => "ground",
        PostColumn::Jumps => "jumps",
        PostColumn::LCancel => "l_cancel",
        PostColumn::HurtboxState => "hurtbox_state",
        PostColumn::VelocityAutogenousX => "velocities.autogenous.x",
        PostColumn::VelocityAutogenousY => "velocities.autogenous.y",
        PostColumn::VelocityKnockbackX => "velocities.knockback.x",
        PostColumn::VelocityKnockbackY => "velocities.knockback.y",
        PostColumn::Hitlag => "hitlag",
    }
}

fn frame_path(c: FrameColumn) -> String {
    match c {
        FrameColumn::Index => "index".to_string(),
        FrameColumn::Port => "port".to_string(),
        FrameColumn::IsFollower => "is_follower".to_string(),
        FrameColumn::Pre(p) => format!("pre.{}", pre_path(p)),
        FrameColumn::Post(p) => format!("post.{}", post_path(p)),
    }
}

fn item_path(c: ItemColumn) -> &'static str {
    match c {
        ItemColumn::Index => "index",
        ItemColumn::Id => "id",
        ItemColumn::Type => "type",
        ItemColumn::State => "state",
        ItemColumn::Direction => "direction",
        ItemColumn::PositionX => "position.x",
        ItemColumn::PositionY => "position.y",
        ItemColumn::VelocityX => "velocity.x",
        ItemColumn::VelocityY => "velocity.y",
        ItemColumn::Damage => "damage",
        ItemColumn::Timer => "timer",
        ItemColumn::Misc => "misc",
        ItemColumn::Owner => "owner",
    }
}

fn leaves(descr: &SchemaDescriptor) -> Vec<(String, ColumnKind)> {
    descr
        .columns()
        .iter()
        .map(|c| (c.path().string(), kind_of(c.physical_type())))
        .collect()
}

#[test]
fn every_frame_schema_parses() {
    for pre in PRE {
        for post in POST {
            assert!(frames_message_type(&FrameVersions { pre, post }).is_ok());
        }
    }
}

#[test]
fn every_item_schema_parses() {
    for item in ITEM {
        assert!(items_message_type(&item).is_ok());
    }
}

#[test]
fn frame_columns_follow_parsed_schema() {
    for pre in PRE {
        for post in POST {
            let v = FrameVersions { pre, post };
            let descr = SchemaDescriptor::new(Arc::new(frames_message_type(&v).unwrap()));
            let schema = leaves(&descr);
            let written = frame_row_group_columns(&v);
            assert_eq!(schema.len(), written.len());
            for (i, (c, (path, kind))) in written.iter().zip(schema.iter()).enumerate() {
                assert_eq!(c.kind(), *kind, "column {}", i);
                // The three trigger fields are written in another order than declared.
                if !(10..13).contains(&i) {
                    assert_eq!(&frame_path(*c), path, "column {}", i);
                }
            }
            let triggers: Vec<String> = written[10..13].iter().map(|c| frame_path(*c)).collect();
            assert_eq!(triggers, vec![
                "pre.triggers.logical",
                "pre.triggers.physical.l",
                "pre.triggers.physical.r",
            ]);
            assert_eq!(schema[10].0, "pre.triggers.physical.l");
        }
    }
}

#[test]
fn item_columns_follow_parsed_schema() {
    for item in ITEM {
        let descr = SchemaDescriptor::new(Arc::new(items_message_type(&item).unwrap()));
        let schema = leaves(&descr);
        let written = write_item(&item);
        let paths: Vec<(String, ColumnKind)> =
            written.iter().map(|c| (item_path(*c).to_string(), c.kind())).collect();
        assert_eq!(paths, schema);
    }
}

#[test]
fn pre_column_counts() {
    assert_eq!(write_pre(&PreVersion::Base).len(), 14);
    assert_eq!(write_pre(&PreVersion::V1_2).len(), 15);
    assert_eq!(write_pre(&PreVersion::V1_4).len(), 16);
    assert_eq!(write_pre(&PreVersion::V1_4)[15], PreColumn::Damage);
    assert_eq!(write_pre(&PreVersion::Base)[7], PreColumn::TriggersLogical);
}

#[test]
fn post_column_counts() {
    let counts: Vec<usize> = POST.iter().map(|v| write_post(v).len()).collect();
    assert_eq!(counts, vec![11, 12, 18, 19, 23, 24]);
    assert_eq!(write_post(&PostVersion::V2_0)[12], PostColumn::Flags);
    assert_eq!(write_post(&PostVersion::V2_0)[12].kind(), ColumnKind::Int64);
}

#[test]
fn item_column_counts() {
    assert_eq!(write_item(&ItemVersion::Base).len(), 11);
    assert_eq!(write_item(&ItemVersion::V3_6).len(), 13);
    assert_eq!(write_item(&ItemVersion::Base)[0], ItemColumn::Index);
}

#[test]
fn parser_errors_are_wrapped() {
    let r = message_type_result(Err(ParquetError::General("bad".to_string())));
    match r {
        Err(SchemaError::Parquet(ParquetError::General(m))) => assert_eq!(m, "bad"),
        _ => panic!("expected a wrapped parser error"),
    }
}
