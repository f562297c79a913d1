//! Parsing the schema text into Parquet's message type.
use vstd::prelude::*;

use parquet::errors::ParquetError;
use parquet::schema::types::Type;

use crate::schema::{
    schema_frames, schema_items, spec_schema_frame_post, spec_schema_frame_pre, spec_schema_frames,
    spec_schema_item, spec_schema_items, FRAMES_HEAD, FRAMES_MIDDLE, FRAMES_TAIL, ITEMS_HEAD,
    ITEMS_TAIL,
};
use crate::versions::{FrameVersions, ItemVersion};

verus! {

#[verifier::external_type_specification]
#[verifier::external_body]
pub struct ExParquetType(Type);

#[verifier::external_type_specification]
#[verifier::external_body]
pub struct ExParquetError(ParquetError);

/// What `parquet::schema::parser::parse_message_type` returns for the text.
pub uninterp spec fn parsed_message_type(text: Seq<char>) -> Result<Type, ParquetError>;

/// Whether `parquet::schema::parser::parse_message_type` accepts the text.
pub open spec fn message_type_parses(text: Seq<char>) -> bool {
    parsed_message_type(text) is Ok
}

/// The outcome of parsing `text`, with the parser's error wrapped.
pub open spec fn spec_message_type(text: Seq<char>) -> Result<Type, SchemaError> {
    match parsed_message_type(text) {
        Ok(t) => Ok(t),
        Err(e) => Err(SchemaError::Parquet(e)),
    }
}

/// Calls `parquet::schema::parser::parse_message_type`, which tokenizes the
/// text and builds a message type from it, or returns an error when the text
/// is not a valid message type. Claimed: the outcome is `Ok` exactly when the
/// text is one the parser accepts, and the outcome (the parsed type or the
/// error) depends on the text alone. What the parsed type holds is not
/// stated.
#[verifier::external_body]
fn parse_message_type(text: &str) -> (parsed: Result<Type, ParquetError>)
    ensures
        parsed == parsed_message_type(text@),
        parsed is Ok == message_type_parses(text@),
{
    parquet::schema::parser::parse_message_type(text)
}

/// Why a table's schema could not be built.
#[derive(Debug)]
pub enum SchemaError {
    /// The parser refused the schema text.
    Parquet(ParquetError),
}

/// The outcome of parsing a schema, with the parser's error wrapped.
pub fn message_type_result(parsed: Result<Type, ParquetError>) -> (result: Result<Type, SchemaError>)
    ensures
        parsed matches Ok(t) ==> result == Ok::<Type, SchemaError>(t),
        parsed matches Err(e) ==> result == Err::<Type, SchemaError>(SchemaError::Parquet(e)),
{
    match parsed {
        Ok(t) => Ok(t),
        Err(e) => Err(SchemaError::Parquet(e)),
    }
}

/// The message type of the frame table, parsed from `schema_frames`.
pub fn frames_message_type(frames: &FrameVersions) -> (result: Result<Type, SchemaError>)
    ensures
        result is Ok == message_type_parses(spec_schema_frames(*frames)),
        result == spec_message_type(spec_schema_frames(*frames)),
        result == spec_message_type(
            FRAMES_HEAD@ + spec_schema_frame_pre(frames.pre) + FRAMES_MIDDLE@
                + spec_schema_frame_post(frames.post) + FRAMES_TAIL@,
        ),
{
    let text = schema_frames(frames);
    message_type_result(parse_message_type(text.as_str()))
}

/// The message type of the item table, parsed from `schema_items`.
pub fn items_message_type(item: &ItemVersion) -> (result: Result<Type, SchemaError>)
    ensures
        result is Ok == message_type_parses(spec_schema_items(*item)),
        result == spec_message_type(spec_schema_items(*item)),
        result == spec_message_type(ITEMS_HEAD@ + spec_schema_item(*item) + ITEMS_TAIL@),
{
    let text = schema_items(item);
    message_type_result(parse_message_type(text.as_str()))
}

} // verus!
