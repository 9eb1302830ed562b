//! The type renderer and union synthesizer: from a classified message to the
//! text of one named type declaration.
//!
//! The target type system has no native tagged-union declaration over object
//! shapes, so mutual exclusion is synthesized structurally: a group of `k`
//! members becomes a union of `k` fully-specified variant shapes, each
//! keeping exactly one member ("live", rendered optional) and forbidding
//! every other member with the unsatisfiable `never` type.  Note the encoding
//! is deliberately weak in one direction: each variant marks even its own
//! live member optional, so a value may omit every member of a group — the
//! union forbids two members at once but does not require one.

use vstd::prelude::*;
use vstd::string::StringExecFns;
use crate::model::{TsField, TsFieldType, TsFieldTypeV, TsFieldV, TsObjectType, TsObjectTypeV,
    TsType, TsTypeV};

verus! {

/// The text of a scalar type token.
pub open spec fn ts_type_text(t: TsTypeV) -> Seq<char> {
    match t {
        TsTypeV::Boolean => "boolean"@,
        TsTypeV::Number => "number"@,
        TsTypeV::Text => "string"@,
        TsTypeV::Never => "never"@,
        TsTypeV::Object(name) => name,
    }
}

/// The text of a member type: the scalar itself, or a read-only array of it.
pub open spec fn ts_field_type_text(t: TsFieldTypeV) -> Seq<char> {
    match t {
        TsFieldTypeV::Single(u) => ts_type_text(u),
        TsFieldTypeV::Array(u) => "ReadonlyArray<"@ + ts_type_text(u) + ">"@,
    }
}

/// The text of one member declaration, with the optional marker when the
/// member is not required.
pub open spec fn ts_field_text(f: TsFieldV) -> Seq<char> {
    if f.is_required {
        f.key + ": "@ + ts_field_type_text(f.ts_type) + "; "@
    } else {
        f.key + "?: "@ + ts_field_type_text(f.ts_type) + "; "@
    }
}

/// The member declarations of a shape, concatenated in order.
pub open spec fn fields_text(fs: Seq<TsFieldV>) -> Seq<char>
    decreases fs.len(),
{
    if fs.len() == 0 {
        Seq::empty()
    } else {
        fields_text(fs.drop_last()) + ts_field_text(fs.last())
    }
}

/// A member as it appears in a variant where some other member is live:
/// same key, but the unsatisfiable type, so it can never be populated.
pub open spec fn forbidden_member(f: TsFieldV) -> TsFieldV {
    TsFieldV {
        key: f.key,
        ts_type: TsFieldTypeV::Single(TsTypeV::Never),
        is_required: f.is_required,
    }
}

/// The `i`-th variant shape of a group: member `i` kept as it is, every
/// other member forbidden.
pub open spec fn variant_shape(members: Seq<TsFieldV>, i: int) -> Seq<TsFieldV> {
    Seq::new(members.len(), |j: int| if j == i {
        members[j]
    } else {
        forbidden_member(members[j])
    })
}

/// The text of the `i`-th variant shape.
pub open spec fn variant_text(members: Seq<TsFieldV>, i: int) -> Seq<char> {
    "{ "@ + fields_text(variant_shape(members, i)) + "}"@
}

/// The first `k` variant texts, joined by the union operator.
pub open spec fn variants_text(members: Seq<TsFieldV>, k: int) -> Seq<char>
    decreases k,
{
    if k <= 0 {
        Seq::empty()
    } else if k == 1 {
        variant_text(members, 0)
    } else {
        variants_text(members, k - 1) + " | "@ + variant_text(members, k - 1)
    }
}

/// The text of one group's union: one variant per member.  A group that no
/// field ever referenced keeps an empty member set rather than being
/// dropped, and so renders a union with no variants.
pub open spec fn group_text(members: Seq<TsFieldV>) -> Seq<char> {
    "Readonly< "@ + variants_text(members, members.len() as int) + " >"@
}

/// The text of the plain-members shape.
pub open spec fn plain_shape_text(fs: Seq<TsFieldV>) -> Seq<char> {
    "Readonly<{ "@ + fields_text(fs) + "}>"@
}

/// The group unions, joined by the intersection operator.
pub open spec fn unions_text(groups: Seq<Seq<TsFieldV>>) -> Seq<char>
    decreases groups.len(),
{
    if groups.len() == 0 {
        Seq::empty()
    } else if groups.len() == 1 {
        group_text(groups[0])
    } else {
        unions_text(groups.drop_last()) + " & "@ + group_text(groups.last())
    }
}

/// The right-hand side of the declaration: the plain shape (if any member is
/// plain) intersected with each group's union.  A message with no fields and
/// no groups has an empty right-hand side.
pub open spec fn decl_body_text(fields: Seq<TsFieldV>, groups: Seq<Seq<TsFieldV>>) -> Seq<char> {
    if fields.len() > 0 && groups.len() > 0 {
        plain_shape_text(fields) + " & "@ + unions_text(groups)
    } else if fields.len() > 0 {
        plain_shape_text(fields)
    } else {
        unions_text(groups)
    }
}

/// The whole named declaration.
pub open spec fn decl_text(o: TsObjectTypeV) -> Seq<char> {
    "type "@ + o.name + " = "@ + decl_body_text(o.fields, o.oneof_list) + ";"@
}

/// A forbidden member: one whose type is the unsatisfiable `never`.
pub open spec fn is_forbidden(f: TsFieldV) -> bool {
    f.ts_type == TsFieldTypeV::Single(TsTypeV::Never)
}

/// How many members of a shape are live (not forbidden).
pub open spec fn live_count(shape: Seq<TsFieldV>) -> nat {
    shape.filter(|f: TsFieldV| !is_forbidden(f)).len()
}

proof fn lemma_live_count_take(members: Seq<TsFieldV>, i: int, n: int)
    requires
        0 <= i < members.len(),
        forall|j: int| 0 <= j < members.len() ==> !is_forbidden(#[trigger] members[j]),
        0 <= n <= members.len(),
    ensures
        live_count(variant_shape(members, i).take(n)) == if i < n {
            1nat
        } else {
            0nat
        },
    decreases n,
{
    broadcast use Seq::lemma_filter_push;

    let s = variant_shape(members, i);
    if n == 0 {
        reveal(Seq::filter);
        assert(s.take(0) =~= Seq::<TsFieldV>::empty());
    } else {
        lemma_live_count_take(members, i, n - 1);
        assert(s.take(n) =~= s.take(n - 1).push(s[n - 1]));
        if n - 1 == i {
            assert(!is_forbidden(s[n - 1]));
        } else {
            assert(is_forbidden(s[n - 1]));
        }
    }
}

/// Mutual exclusion law: for a group of `k` live members, variant `i` is a
/// shape of exactly `k` member declarations of which exactly one — the one at
/// position `i` — is live and kept as it is, while each of the other `k - 1`
/// keeps its key but carries the unsatisfiable `never` type; and the group's
/// union has exactly `k` such variants, one per member.
pub proof fn lemma_variant_mutual_exclusion(members: Seq<TsFieldV>, i: int)
    requires
        0 <= i < members.len(),
        forall|j: int| 0 <= j < members.len() ==> !is_forbidden(#[trigger] members[j]),
    ensures
        variant_shape(members, i).len() == members.len(),
        variant_shape(members, i)[i] == members[i],
        forall|j: int|
            0 <= j < members.len() && j != i ==> #[trigger] variant_shape(members, i)[j]
                == forbidden_member(members[j]),
        live_count(variant_shape(members, i)) == 1,
{
    lemma_live_count_take(members, i, members.len() as int);
    assert(variant_shape(members, i).take(members.len() as int) =~= variant_shape(members, i));
}

/// Renderer idempotence law: rendering is deterministic — any two strings
/// `render` can return for the same classified input are byte-identical.
pub proof fn lemma_render_deterministic(obj: &TsObjectType, s1: String, s2: String)
    requires
        call_ensures(render, (obj,), s1),
        call_ensures(render, (obj,), s2),
    ensures
        s1@ == s2@,
{
}

/// Appends the text of a scalar type token.
fn push_ts_type(out: &mut String, t: &TsType)
    ensures
        final(out)@ == old(out)@ + ts_type_text(t@),
{
    match t {
        TsType::Boolean => out.append("boolean"),
        TsType::Number => out.append("number"),
        TsType::Text => out.append("string"),
        TsType::Never => out.append("never"),
        TsType::Object(name) => out.append(name.as_str()),
    }
}

/// Appends the text of a member type.
fn push_ts_field_type(out: &mut String, t: &TsFieldType)
    ensures
        final(out)@ == old(out)@ + ts_field_type_text(t@),
{
    match t {
        TsFieldType::Single(u) => push_ts_type(out, u),
        TsFieldType::Array(u) => {
            out.append("ReadonlyArray<");
            push_ts_type(out, u);
            out.append(">");
            proof {
                assert(out@ =~= old(out)@ + ts_field_type_text(t@));
            }
        },
    }
}

/// Appends one member declaration.
fn push_ts_field(out: &mut String, f: &TsField)
    ensures
        final(out)@ == old(out)@ + ts_field_text(f@),
{
    out.append(f.key.as_str());
    if f.is_required {
        out.append(": ");
    } else {
        out.append("?: ");
    }
    push_ts_field_type(out, &f.ts_type);
    out.append("; ");
    proof {
        assert(out@ =~= old(out)@ + ts_field_text(f@));
    }
}

/// Appends the member declarations of a shape, in order.
fn push_fields(out: &mut String, fs: &Vec<TsField>)
    ensures
        final(out)@ == old(out)@ + fields_text(fs.deep_view()),
{
    let mut i: usize = 0;
    while i < fs.len()
        invariant
            i <= fs.len(),
            out@ == old(out)@ + fields_text(fs.deep_view().take(i as int)),
        decreases fs.len() - i,
    {
        push_ts_field(out, &fs[i]);
        proof {
            let dv = fs.deep_view();
            assert(dv.take(i + 1).drop_last() =~= dv.take(i as int));
            assert(dv.take(i + 1).last() == fs[i as int]@);
            assert(out@ =~= old(out)@ + fields_text(dv.take(i + 1)));
        }
        i = i + 1;
    }
    proof {
        assert(fs.deep_view().take(fs.len() as int) =~= fs.deep_view());
    }
}

/// The union synthesizer: the explicit construction of a group's variant
/// shapes.  Variant `i` carries every member of the group under its own key,
/// with member `i` kept as it is and every other member forbidden via the
/// `never` type, so no two members can be populated at once.
pub fn synthesize_variants(members: &Vec<TsField>) -> (variants: Vec<Vec<TsField>>)
    ensures
        variants.deep_view().len() == members.deep_view().len(),
        forall|i: int|
            0 <= i < members.deep_view().len() ==> #[trigger] variants.deep_view()[i]
                == variant_shape(members.deep_view(), i),
{
    let mut variants: Vec<Vec<TsField>> = Vec::new();
    let mut i: usize = 0;
    while i < members.len()
        invariant
            i <= members.len(),
            variants.deep_view().len() == i,
            forall|p: int|
                0 <= p < i ==> #[trigger] variants.deep_view()[p]
                    == variant_shape(members.deep_view(), p),
        decreases members.len() - i,
    {
        let mut shape: Vec<TsField> = Vec::new();
        let mut j: usize = 0;
        while j < members.len()
            invariant
                i < members.len(),
                j <= members.len(),
                shape.deep_view().len() == j,
                forall|q: int|
                    0 <= q < j ==> #[trigger] shape.deep_view()[q]
                        == variant_shape(members.deep_view(), i as int)[q],
            decreases members.len() - j,
        {
            let ghost pre = shape.deep_view();
            let m = &members[j];
            if j == i {
                let c = m.clone();
                proof {
                    assert(c@ == variant_shape(members.deep_view(), i as int)[j as int]);
                }
                shape.push(c);
            } else {
                let c = TsField {
                    key: m.key.clone(),
                    ts_type: TsFieldType::Single(TsType::Never),
                    is_required: m.is_required,
                };
                proof {
                    assert(c@ == variant_shape(members.deep_view(), i as int)[j as int]);
                }
                shape.push(c);
            }
            proof {
                assert(shape.deep_view() =~= pre.push(
                    variant_shape(members.deep_view(), i as int)[j as int],
                ));
            }
            j = j + 1;
        }
        proof {
            assert(shape.deep_view() =~= variant_shape(members.deep_view(), i as int));
        }
        let ghost pre_variants = variants.deep_view();
        let ghost shape_view = shape.deep_view();
        variants.push(shape);
        proof {
            assert(variants.deep_view() =~= pre_variants.push(shape_view));
        }
        i = i + 1;
    }
    variants
}

/// Appends one group's union: `Readonly< ... >` around the variant shapes,
/// joined by `|`.
fn push_group(out: &mut String, members: &Vec<TsField>)
    ensures
        final(out)@ == old(out)@ + group_text(members.deep_view()),
{
    out.append("Readonly< ");
    let variants = synthesize_variants(members);
    let mut i: usize = 0;
    while i < variants.len()
        invariant
            variants.deep_view().len() == members.deep_view().len(),
            forall|p: int|
                0 <= p < members.deep_view().len() ==> #[trigger] variants.deep_view()[p]
                    == variant_shape(members.deep_view(), p),
            i <= variants.len(),
            out@ == old(out)@ + "Readonly< "@ + variants_text(members.deep_view(), i as int),
        decreases variants.len() - i,
    {
        if i > 0 {
            out.append(" | ");
        }
        out.append("{ ");
        push_fields(out, &variants[i]);
        out.append("}");
        proof {
            let mv = members.deep_view();
            assert(variants.deep_view()[i as int] == variant_shape(mv, i as int));
            assert(variants[i as int].deep_view() == variants.deep_view()[i as int]);
            assert(out@ =~= old(out)@ + "Readonly< "@ + variants_text(mv, i + 1));
        }
        i = i + 1;
    }
    out.append(" >");
    proof {
        assert(out@ =~= old(out)@ + group_text(members.deep_view()));
    }
}

/// Appends the plain-members shape.
fn push_plain_shape(out: &mut String, fs: &Vec<TsField>)
    ensures
        final(out)@ == old(out)@ + plain_shape_text(fs.deep_view()),
{
    out.append("Readonly<{ ");
    push_fields(out, fs);
    out.append("}>");
    proof {
        assert(out@ =~= old(out)@ + plain_shape_text(fs.deep_view()));
    }
}

/// Renders a classified message as the text of one named type declaration.
/// Pure and deterministic: the text is a function of the input alone, so
/// rendering the same input twice yields byte-identical text.
pub fn render(obj: &TsObjectType) -> (s: String)
    ensures
        s@ == decl_text(obj@),
{
    let mut out = String::from_str("type ");
    out.append(obj.name.as_str());
    out.append(" = ");
    let has_plain = obj.fields.len() > 0;
    if has_plain {
        push_plain_shape(&mut out, &obj.fields);
    }
    let ghost head = "type "@ + obj.name@ + " = "@;
    proof {
        assert(out@ =~= head + decl_body_text(obj@.fields, obj@.oneof_list.take(0)));
    }
    let mut g: usize = 0;
    while g < obj.oneof_list.len()
        invariant
            g <= obj.oneof_list.len(),
            has_plain == (obj.fields.len() > 0),
            head == "type "@ + obj.name@ + " = "@,
            out@ == head + decl_body_text(obj@.fields, obj@.oneof_list.take(g as int)),
        decreases obj.oneof_list.len() - g,
    {
        if has_plain || g > 0 {
            out.append(" & ");
        }
        push_group(&mut out, &obj.oneof_list[g]);
        proof {
            let gv = obj@.oneof_list;
            assert(gv.take(g + 1).drop_last() =~= gv.take(g as int));
            assert(gv.take(g + 1).last() == obj.oneof_list[g as int].deep_view());
            assert(out@ =~= head + decl_body_text(obj@.fields, gv.take(g + 1)));
        }
        g = g + 1;
    }
    out.append(";");
    proof {
        assert(obj@.oneof_list.take(obj.oneof_list.len() as int) =~= obj@.oneof_list);
        assert(out@ =~= decl_text(obj@));
    }
    out
}

} // verus!
