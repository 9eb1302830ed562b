//! The data model: schema-side field and message descriptions, and the
//! target-side (TypeScript-like) type shapes derived from them.

use vstd::prelude::*;

verus! {

/// The wire-level scalar kind a schema field declares.  Every kind a field
/// descriptor can carry is listed; the mapper groups them into four target
/// types (number, string, boolean, type reference).
#[derive(Clone, Copy, PartialEq, Eq, Structural, Debug)]
pub enum FieldKind {
    Double,
    Float,
    Int64,
    Uint64,
    Int32,
    Fixed64,
    Fixed32,
    Uint32,
    Sfixed32,
    Sfixed64,
    Sint32,
    Sint64,
    Text,
    Bytes,
    Bool,
    Enum,
    Message,
    Group,
}

/// The wire-level multiplicity label of a schema field.  `Optional` and
/// `Required` both render as a single value; `Repeated` renders as a
/// read-only array.
#[derive(Clone, Copy, PartialEq, Eq, Structural, Debug)]
pub enum Label {
    Optional,
    Required,
    Repeated,
}

/// One schema field of a message.
pub struct FieldSpec {
    /// The JSON-visible name of the field, used verbatim as the member key.
    pub key: String,
    /// The scalar kind of the field.
    pub kind: FieldKind,
    /// The qualified name of the referenced type; meaningful only for the
    /// reference kinds (`Enum`, `Message`, `Group`), carried verbatim.
    pub ref_name: String,
    /// The multiplicity label.
    pub label: Label,
    /// Index into the owning message's mutual-exclusion group list;
    /// `None` means the field is plain (always present).
    pub oneof_index: Option<usize>,
}

/// The mathematical value of a `FieldSpec`.
pub ghost struct FieldSpecV {
    pub key: Seq<char>,
    pub kind: FieldKind,
    pub ref_name: Seq<char>,
    pub label: Label,
    pub oneof_index: Option<int>,
}

impl View for FieldSpec {
    type V = FieldSpecV;

    open spec fn view(&self) -> FieldSpecV {
        FieldSpecV {
            key: self.key@,
            kind: self.kind,
            ref_name: self.ref_name@,
            label: self.label,
            oneof_index: match self.oneof_index {
                Some(g) => Some(g as int),
                None => None,
            },
        }
    }
}

impl DeepView for FieldSpec {
    type V = FieldSpecV;

    open spec fn deep_view(&self) -> FieldSpecV {
        self@
    }
}

impl Clone for FieldSpec {
    fn clone(&self) -> (r: Self)
        ensures
            r@ == self@,
    {
        FieldSpec {
            key: self.key.clone(),
            kind: self.kind,
            ref_name: self.ref_name.clone(),
            label: self.label,
            oneof_index: self.oneof_index,
        }
    }
}

/// One message type of a schema file.
pub struct MessageSpec {
    /// The identifier the generated declaration is named after.
    pub name: String,
    /// The fields, in declaration order.
    pub fields: Vec<FieldSpec>,
    /// How many mutual-exclusion groups the message declares (may be 0).
    pub group_count: usize,
}

/// The mathematical value of a `MessageSpec`.
pub ghost struct MessageSpecV {
    pub name: Seq<char>,
    pub fields: Seq<FieldSpecV>,
    pub group_count: int,
}

impl View for MessageSpec {
    type V = MessageSpecV;

    open spec fn view(&self) -> MessageSpecV {
        MessageSpecV {
            name: self.name@,
            fields: self.fields.deep_view(),
            group_count: self.group_count as int,
        }
    }
}

impl DeepView for MessageSpec {
    type V = MessageSpecV;

    open spec fn deep_view(&self) -> MessageSpecV {
        self@
    }
}

impl MessageSpecV {
    /// Well-formedness: every group index a field carries lies below the
    /// declared group count.
    pub open spec fn wf(self) -> bool {
        forall|i: int|
            0 <= i < self.fields.len() ==> ((#[trigger] self.fields[i]).oneof_index matches Some(g)
                ==> 0 <= g < self.group_count)
    }
}

/// A target-language scalar type token.
pub enum TsType {
    /// `boolean`
    Boolean,
    /// `number`
    Number,
    /// `string`
    Text,
    /// `never`: the unsatisfiable type used to forbid a member.
    Never,
    /// A reference to a named type, emitted verbatim.
    Object(String),
}

/// The mathematical value of a `TsType`.
pub ghost enum TsTypeV {
    Boolean,
    Number,
    Text,
    Never,
    Object(Seq<char>),
}

impl View for TsType {
    type V = TsTypeV;

    open spec fn view(&self) -> TsTypeV {
        match self {
            TsType::Boolean => TsTypeV::Boolean,
            TsType::Number => TsTypeV::Number,
            TsType::Text => TsTypeV::Text,
            TsType::Never => TsTypeV::Never,
            TsType::Object(name) => TsTypeV::Object(name@),
        }
    }
}

impl Clone for TsType {
    fn clone(&self) -> (r: Self)
        ensures
            r@ == self@,
    {
        match self {
            TsType::Boolean => TsType::Boolean,
            TsType::Number => TsType::Number,
            TsType::Text => TsType::Text,
            TsType::Never => TsType::Never,
            TsType::Object(name) => TsType::Object(name.clone()),
        }
    }
}

/// A target-language member type: a scalar, or a read-only array of one.
pub enum TsFieldType {
    Single(TsType),
    Array(TsType),
}

/// The mathematical value of a `TsFieldType`.
pub ghost enum TsFieldTypeV {
    Single(TsTypeV),
    Array(TsTypeV),
}

impl View for TsFieldType {
    type V = TsFieldTypeV;

    open spec fn view(&self) -> TsFieldTypeV {
        match self {
            TsFieldType::Single(t) => TsFieldTypeV::Single(t@),
            TsFieldType::Array(t) => TsFieldTypeV::Array(t@),
        }
    }
}

impl Clone for TsFieldType {
    fn clone(&self) -> (r: Self)
        ensures
            r@ == self@,
    {
        match self {
            TsFieldType::Single(t) => TsFieldType::Single(t.clone()),
            TsFieldType::Array(t) => TsFieldType::Array(t.clone()),
        }
    }
}

/// One member of a rendered object shape.
pub struct TsField {
    /// The member key.
    pub key: String,
    /// The member's type.
    pub ts_type: TsFieldType,
    /// Whether the member is rendered present (`key: T`) or optional
    /// (`key?: T`).
    pub is_required: bool,
}

/// The mathematical value of a `TsField`.
pub ghost struct TsFieldV {
    pub key: Seq<char>,
    pub ts_type: TsFieldTypeV,
    pub is_required: bool,
}

impl View for TsField {
    type V = TsFieldV;

    open spec fn view(&self) -> TsFieldV {
        TsFieldV { key: self.key@, ts_type: self.ts_type@, is_required: self.is_required }
    }
}

impl DeepView for TsField {
    type V = TsFieldV;

    open spec fn deep_view(&self) -> TsFieldV {
        self@
    }
}

impl Clone for TsField {
    fn clone(&self) -> (r: Self)
        ensures
            r@ == self@,
    {
        TsField {
            key: self.key.clone(),
            ts_type: self.ts_type.clone(),
            is_required: self.is_required,
        }
    }
}

/// A classified message, ready to render: the plain members and one member
/// list per mutual-exclusion group.
pub struct TsObjectType {
    /// The name of the generated type alias.
    pub name: String,
    /// The always-present members, in input order.
    pub fields: Vec<TsField>,
    /// One member list per mutual-exclusion group, in group-index order.
    pub oneof_list: Vec<Vec<TsField>>,
}

/// The mathematical value of a `TsObjectType`.
pub ghost struct TsObjectTypeV {
    pub name: Seq<char>,
    pub fields: Seq<TsFieldV>,
    pub oneof_list: Seq<Seq<TsFieldV>>,
}

impl View for TsObjectType {
    type V = TsObjectTypeV;

    open spec fn view(&self) -> TsObjectTypeV {
        TsObjectTypeV {
            name: self.name@,
            fields: self.fields.deep_view(),
            oneof_list: self.oneof_list.deep_view(),
        }
    }
}

} // verus!
