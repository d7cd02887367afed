//! Level descriptors: the persisted list of block placements and its
//! validation.
//!
//! A descriptor is a JSON array of records, each carrying a visual kind
//! identifier, a display name, a purpose tag (0 = hazard, 1 = ground,
//! 2 = clipped decoration) and a grid coordinate pair. Parsing leans on
//! `crate::json`, whose wrappers name their results; the spec functions
//! here compose those names into the one answer a given text has, and the
//! executable parser is proved to return exactly it.

use vstd::prelude::*;

use crate::json::{
    json_as_array, json_as_i64, json_as_string, json_as_u64, json_get, json_parse,
    spec_json_as_i64, spec_json_as_str, spec_json_as_u64, spec_json_elems, spec_json_get,
    spec_json_parse,
};

verus! {

/// The closed set of purposes a placed block can serve.
#[derive(Clone, Copy, Debug, PartialEq, Eq, Structural)]
pub enum BlockKind {
    /// Touching it kills the player (a spike).
    Hazard,
    /// The player can land on it.
    Ground,
    /// Decoration without gameplay effect.
    Clipped,
}

/// One record of a level descriptor.
#[derive(Debug, PartialEq, Eq)]
pub struct BlockInfo {
    /// Selects the block's visual asset; one of the three block textures.
    pub id: u8,
    /// Free-text display name.
    pub name: String,
    /// Purpose tag: 0 = hazard, 1 = ground, anything else clipped.
    pub marker_type: u8,
    /// World position the block spawns at, used verbatim (the file is
    /// assumed pre-snapped).
    pub coords: (i64, i64),
}

/// The mathematical model of a record: the same fields with the name as a
/// character sequence.
#[verifier::ext_equal]
pub ghost struct BlockInfoView {
    /// Visual asset selector.
    pub id: u8,
    /// Display name.
    pub name: Seq<char>,
    /// Purpose tag.
    pub marker_type: u8,
    /// World position.
    pub coords: (i64, i64),
}

impl View for BlockInfo {
    type V = BlockInfoView;

    open spec fn view(&self) -> BlockInfoView {
        BlockInfoView {
            id: self.id,
            name: self.name@,
            marker_type: self.marker_type,
            coords: self.coords,
        }
    }
}

/// Why a level descriptor was rejected.
#[derive(Clone, Copy, Debug, PartialEq, Eq, Structural)]
pub enum LevelError {
    /// The text is not well-formed JSON.
    InvalidJson,
    /// The top-level JSON value is not an array.
    NotAnArray,
    /// A record is not an object with the four expected fields, or a field
    /// has the wrong type.
    MalformedRecord,
    /// A record's visual kind identifier names no known block texture.
    BadBlockId,
    /// A record's purpose tag is outside the closed set {0, 1, 2}.
    BadPurposeTag,
}

/// Largest visual kind identifier with a texture behind it.
pub const MAX_BLOCK_ID: u8 = 2;

/// Largest purpose tag in the closed set.
pub const MAX_PURPOSE_TAG: u8 = 2;

/// A record the loader accepts: both small integers within their closed sets.
pub open spec fn block_info_valid(b: BlockInfo) -> bool {
    b.id <= MAX_BLOCK_ID && b.marker_type <= MAX_PURPOSE_TAG
}

/// The purpose a tag selects.
pub open spec fn spec_kind_of_tag(tag: u8) -> BlockKind {
    if tag == 0 {
        BlockKind::Hazard
    } else if tag == 1 {
        BlockKind::Ground
    } else {
        BlockKind::Clipped
    }
}

/// Map a purpose tag to the block kind it selects.
pub fn kind_of_tag(tag: u8) -> (k: BlockKind)
    ensures
        k == spec_kind_of_tag(tag),
{
    if tag == 0 {
        BlockKind::Hazard
    } else if tag == 1 {
        BlockKind::Ground
    } else {
        BlockKind::Clipped
    }
}

/// What building a record from raw fields yields: the record when both
/// small integers lie in their closed sets, an oversized visual id reported
/// before an oversized purpose tag.
pub open spec fn spec_record_from_fields(
    id: u64,
    name: Seq<char>,
    tag: u64,
    x: i64,
    y: i64,
) -> Result<BlockInfoView, LevelError> {
    if id > MAX_BLOCK_ID {
        Err(LevelError::BadBlockId)
    } else if tag > MAX_PURPOSE_TAG {
        Err(LevelError::BadPurposeTag)
    } else {
        Ok(BlockInfoView { id: id as u8, name, marker_type: tag as u8, coords: (x, y) })
    }
}

/// A record result, seen through the record's view.
pub open spec fn spec_record_result_view(r: Result<BlockInfo, LevelError>) -> Result<
    BlockInfoView,
    LevelError,
> {
    match r {
        Ok(b) => Ok(b@),
        Err(e) => Err(e),
    }
}

/// Build one descriptor record from its raw fields, rejecting out-of-range
/// identifiers: a record is accepted exactly when both small integers lie
/// in their closed sets, and an oversized visual id is reported before an
/// oversized purpose tag.
pub fn record_from_fields(id: u64, name: String, tag: u64, x: i64, y: i64) -> (r: Result<
    BlockInfo,
    LevelError,
>)
    ensures
        spec_record_result_view(r) == spec_record_from_fields(id, name@, tag, x, y),
        id <= MAX_BLOCK_ID && tag <= MAX_PURPOSE_TAG ==> (r matches Ok(b) && b.id == id
            && b.name == name && b.marker_type == tag && b.coords.0 == x && b.coords.1 == y),
        r matches Ok(b) ==> block_info_valid(b),
{
    if id > MAX_BLOCK_ID as u64 {
        Err(LevelError::BadBlockId)
    } else if tag > MAX_PURPOSE_TAG as u64 {
        Err(LevelError::BadPurposeTag)
    } else {
        Ok(
            BlockInfo {
                id: id as u8,
                name,
                marker_type: tag as u8,
                coords: (x, y),
            },
        )
    }
}

/// What one JSON record holds, in terms of the named wrapper results: each
/// of the four fields is looked up and read as its expected type, a missing
/// or mistyped field is malformed, and the raw fields then validate as
/// `spec_record_from_fields` says.
pub open spec fn spec_record_of(v: serde_json::Value) -> Result<BlockInfoView, LevelError> {
    match spec_json_get(v, "id"@) {
        None => Err(LevelError::MalformedRecord),
        Some(idf) => match spec_json_as_u64(idf) {
            None => Err(LevelError::MalformedRecord),
            Some(id) => match spec_json_get(v, "name"@) {
                None => Err(LevelError::MalformedRecord),
                Some(namef) => match spec_json_as_str(namef) {
                    None => Err(LevelError::MalformedRecord),
                    Some(name) => match spec_json_get(v, "marker_type"@) {
                        None => Err(LevelError::MalformedRecord),
                        Some(tagf) => match spec_json_as_u64(tagf) {
                            None => Err(LevelError::MalformedRecord),
                            Some(tag) => match spec_json_get(v, "coords"@) {
                                None => Err(LevelError::MalformedRecord),
                                Some(coordsf) => match spec_json_elems(coordsf) {
                                    None => Err(LevelError::MalformedRecord),
                                    Some(elems) => if elems.len() != 2 {
                                        Err(LevelError::MalformedRecord)
                                    } else {
                                        match spec_json_as_i64(elems[0]) {
                                            None => Err(LevelError::MalformedRecord),
                                            Some(x) => match spec_json_as_i64(elems[1]) {
                                                None => Err(LevelError::MalformedRecord),
                                                Some(y) => spec_record_from_fields(
                                                    id,
                                                    name,
                                                    tag,
                                                    x,
                                                    y,
                                                ),
                                            },
                                        }
                                    },
                                },
                            },
                        },
                    },
                },
            },
        },
    }
}

/// Take one JSON record apart and validate it, returning exactly what the
/// record holds: the parsed fields when all four are present, well-typed
/// and in range, and the first applicable error otherwise.
pub fn parse_block_record(v: &serde_json::Value) -> (r: Result<BlockInfo, LevelError>)
    ensures
        spec_record_result_view(r) == spec_record_of(*v),
        r matches Ok(b) ==> block_info_valid(b),
{
    let id: u64 = match json_get(v, "id") {
        Some(f) => match json_as_u64(f) {
            Some(n) => n,
            None => { return Err(LevelError::MalformedRecord) },
        },
        None => { return Err(LevelError::MalformedRecord) },
    };
    let name: String = match json_get(v, "name") {
        Some(f) => match json_as_string(f) {
            Some(s) => s,
            None => { return Err(LevelError::MalformedRecord) },
        },
        None => { return Err(LevelError::MalformedRecord) },
    };
    let tag: u64 = match json_get(v, "marker_type") {
        Some(f) => match json_as_u64(f) {
            Some(n) => n,
            None => { return Err(LevelError::MalformedRecord) },
        },
        None => { return Err(LevelError::MalformedRecord) },
    };
    let coords = match json_get(v, "coords") {
        Some(f) => match json_as_array(f) {
            Some(a) => a,
            None => { return Err(LevelError::MalformedRecord) },
        },
        None => { return Err(LevelError::MalformedRecord) },
    };
    if coords.len() != 2 {
        return Err(LevelError::MalformedRecord);
    }
    let x: i64 = match json_as_i64(&coords[0]) {
        Some(n) => n,
        None => { return Err(LevelError::MalformedRecord) },
    };
    let y: i64 = match json_as_i64(&coords[1]) {
        Some(n) => n,
        None => { return Err(LevelError::MalformedRecord) },
    };
    record_from_fields(id, name, tag, x, y)
}

/// The records' views, in order.
pub open spec fn spec_views(records: Seq<BlockInfo>) -> Seq<BlockInfoView> {
    records.map(|k: int, b: BlockInfo| b@)
}

/// What a run of JSON records holds: every record parsed, in order, or the
/// first offending record's error.
pub open spec fn spec_records_of(elems: Seq<serde_json::Value>) -> Result<
    Seq<BlockInfoView>,
    LevelError,
>
    decreases elems.len(),
{
    if elems.len() == 0 {
        Ok(Seq::empty())
    } else {
        match spec_record_of(elems[0]) {
            Err(e) => Err(e),
            Ok(b) => match spec_records_of(elems.skip(1)) {
                Err(e) => Err(e),
                Ok(rest) => Ok(seq![b] + rest),
            },
        }
    }
}

/// What descriptor text holds, in terms of the named wrapper results: text
/// that is not JSON is invalid, a JSON value that is not an array is
/// rejected, and otherwise the records decide as `spec_records_of` says.
pub open spec fn spec_descriptor_of(text: Seq<char>) -> Result<Seq<BlockInfoView>, LevelError> {
    match spec_json_parse(text) {
        None => Err(LevelError::InvalidJson),
        Some(v) => match spec_json_elems(v) {
            None => Err(LevelError::NotAnArray),
            Some(elems) => spec_records_of(elems),
        },
    }
}

/// A descriptor result, seen through the records' views.
pub open spec fn spec_records_result_view(r: Result<Vec<BlockInfo>, LevelError>) -> Result<
    Seq<BlockInfoView>,
    LevelError,
> {
    match r {
        Ok(v) => Ok(spec_views(v@)),
        Err(e) => Err(e),
    }
}

/// The answer so far and the rest still to parse, glued back together.
spec fn spec_prepend(
    done: Seq<BlockInfo>,
    rest: Result<Seq<BlockInfoView>, LevelError>,
) -> Result<Seq<BlockInfoView>, LevelError> {
    match rest {
        Ok(tail) => Ok(spec_views(done) + tail),
        Err(e) => Err(e),
    }
}

/// Parse a whole level descriptor from JSON text: the result is exactly
/// what the text holds — every record, validated, in file order, or the
/// first offending record's error — and every accepted record is valid.
pub fn parse_level_descriptor(text: &str) -> (r: Result<Vec<BlockInfo>, LevelError>)
    ensures
        spec_records_result_view(r) == spec_descriptor_of(text@),
        r matches Ok(records) ==> forall|i: int|
            0 <= i < records@.len() ==> block_info_valid(#[trigger] records@[i]),
{
    let parsed = match json_parse(text) {
        Some(v) => v,
        None => { return Err(LevelError::InvalidJson) },
    };
    let entries = match json_as_array(&parsed) {
        Some(a) => a,
        None => { return Err(LevelError::NotAnArray) },
    };
    let mut records: Vec<BlockInfo> = Vec::new();
    let mut i: usize = 0;
    proof {
        assert(entries@.skip(0) =~= entries@);
        match spec_records_of(entries@) {
            Ok(all) => {
                assert(spec_views(records@) + all =~= all);
            },
            Err(_) => {},
        }
    }
    while i < entries.len()
        invariant
            0 <= i <= entries@.len(),
            spec_json_parse(text@) == Some(parsed),
            spec_json_elems(parsed) == Some(entries@),
            forall|j: int| 0 <= j < records@.len() ==> block_info_valid(#[trigger] records@[j]),
            spec_records_of(entries@) == spec_prepend(
                records@,
                spec_records_of(entries@.skip(i as int)),
            ),
        decreases entries@.len() - i,
    {
        proof {
            assert(entries@.skip(i as int)[0] == entries@[i as int]);
            assert(entries@.skip(i as int).skip(1) =~= entries@.skip(i as int + 1));
        }
        match parse_block_record(&entries[i]) {
            Ok(b) => {
                proof {
                    let tail = spec_records_of(entries@.skip(i as int + 1));
                    match tail {
                        Ok(rest) => {
                            assert(spec_views(records@.push(b)) =~= spec_views(records@).push(
                                b@,
                            ));
                            assert(spec_views(records@) + (seq![b@] + rest) =~= spec_views(
                                records@,
                            ).push(b@) + rest);
                        },
                        Err(_) => {},
                    }
                }
                records.push(b);
            },
            Err(e) => {
                proof {
                    assert(spec_records_of(entries@.skip(i as int)) == Err::<
                        Seq<BlockInfoView>,
                        LevelError,
                    >(e));
                }
                return Err(e);
            },
        }
        i += 1;
    }
    proof {
        assert(entries@.skip(entries@.len() as int) =~= Seq::<serde_json::Value>::empty());
        assert(spec_views(records@) + Seq::<BlockInfoView>::empty() =~= spec_views(records@));
    }
    Ok(records)
}

} // verus!
