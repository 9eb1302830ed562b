//! The field type mapper: from a schema field's scalar kind to the
//! target-language type token.

use vstd::prelude::*;
use crate::model::{FieldKind, TsType, TsTypeV};

verus! {

/// The kinds that map to the target's `number` type: every integer and
/// floating-point width/encoding variant.
pub open spec fn is_numeric(kind: FieldKind) -> bool {
    match kind {
        FieldKind::Double => true,
        FieldKind::Float => true,
        FieldKind::Int64 => true,
        FieldKind::Uint64 => true,
        FieldKind::Int32 => true,
        FieldKind::Fixed64 => true,
        FieldKind::Fixed32 => true,
        FieldKind::Uint32 => true,
        FieldKind::Sfixed32 => true,
        FieldKind::Sfixed64 => true,
        FieldKind::Sint32 => true,
        FieldKind::Sint64 => true,
        _ => false,
    }
}

/// The kinds that map to the target's `string` type: text and raw bytes.
pub open spec fn is_textual(kind: FieldKind) -> bool {
    kind == FieldKind::Text || kind == FieldKind::Bytes
}

/// The kinds that map to a reference to a named type.
pub open spec fn is_reference(kind: FieldKind) -> bool {
    kind == FieldKind::Enum || kind == FieldKind::Message || kind == FieldKind::Group
}

/// The mapping table: what target type a field of the given kind gets.
/// `ref_name` is the qualified referenced-type name, used only by the
/// reference kinds.
pub open spec fn spec_map_field_type(kind: FieldKind, ref_name: Seq<char>) -> TsTypeV {
    if is_numeric(kind) {
        TsTypeV::Number
    } else if is_textual(kind) {
        TsTypeV::Text
    } else if kind == FieldKind::Bool {
        TsTypeV::Boolean
    } else {
        TsTypeV::Object(ref_name)
    }
}

/// Maps a schema field's scalar kind to the target type token.  Total: every
/// kind has a table entry, so there is no failure path.
pub fn field_type_to_ts_type(kind: FieldKind, ref_name: &String) -> (t: TsType)
    ensures
        t@ == spec_map_field_type(kind, ref_name@),
{
    match kind {
        FieldKind::Double
        | FieldKind::Float
        | FieldKind::Int64
        | FieldKind::Uint64
        | FieldKind::Int32
        | FieldKind::Fixed64
        | FieldKind::Fixed32
        | FieldKind::Uint32
        | FieldKind::Sfixed32
        | FieldKind::Sfixed64
        | FieldKind::Sint32
        | FieldKind::Sint64 => TsType::Number,
        FieldKind::Text | FieldKind::Bytes => TsType::Text,
        FieldKind::Bool => TsType::Boolean,
        FieldKind::Enum | FieldKind::Message | FieldKind::Group => TsType::Object(
            ref_name.clone(),
        ),
    }
}

/// Law: the mapping is total — the four table rows cover every kind, each
/// kind falls under exactly the row the table gives it, and the result is a
/// function of the kind (and, for references, the referenced name) alone.
pub proof fn lemma_map_field_type_total(kind: FieldKind, ref_name: Seq<char>)
    ensures
        is_numeric(kind) || is_textual(kind) || kind == FieldKind::Bool || is_reference(kind),
        is_numeric(kind) ==> spec_map_field_type(kind, ref_name) == TsTypeV::Number,
        is_textual(kind) ==> spec_map_field_type(kind, ref_name) == TsTypeV::Text,
        kind == FieldKind::Bool ==> spec_map_field_type(kind, ref_name) == TsTypeV::Boolean,
        is_reference(kind) ==> spec_map_field_type(kind, ref_name) == TsTypeV::Object(ref_name),
        spec_map_field_type(kind, ref_name) != TsTypeV::Never,
{
}

} // verus!
