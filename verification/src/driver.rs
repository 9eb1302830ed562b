//! The driver: runs classify and render over every message of every file and
//! packages one named output record per message.

use vstd::prelude::*;
use vstd::string::StringExecFns;
use crate::classify::{classify, group_of, plain_of};
use crate::mapper::{field_type_to_ts_type, spec_map_field_type};
use crate::model::{FieldSpec, FieldSpecV, Label, MessageSpec, MessageSpecV, TsField, TsFieldType,
    TsFieldTypeV, TsFieldV, TsObjectType, TsObjectTypeV};
use crate::render::{decl_text, is_forbidden, lemma_variant_mutual_exclusion, live_count, render,
    variant_shape};

verus! {

/// One schema file: an ordered list of message types.
pub struct FileSpec {
    pub messages: Vec<MessageSpec>,
}

/// The mathematical value of a `FileSpec`.
pub ghost struct FileSpecV {
    pub messages: Seq<MessageSpecV>,
}

impl View for FileSpec {
    type V = FileSpecV;

    open spec fn view(&self) -> FileSpecV {
        FileSpecV { messages: self.messages.deep_view() }
    }
}

impl DeepView for FileSpec {
    type V = FileSpecV;

    open spec fn deep_view(&self) -> FileSpecV {
        self@
    }
}

/// One generated output record: a file name derived from the message name,
/// and the declaration text.
pub struct OutputRecord {
    pub name: String,
    pub content: String,
}

/// The mathematical value of an `OutputRecord`.
pub ghost struct OutputRecordV {
    pub name: Seq<char>,
    pub content: Seq<char>,
}

impl View for OutputRecord {
    type V = OutputRecordV;

    open spec fn view(&self) -> OutputRecordV {
        OutputRecordV { name: self.name@, content: self.content@ }
    }
}

impl DeepView for OutputRecord {
    type V = OutputRecordV;

    open spec fn deep_view(&self) -> OutputRecordV {
        self@
    }
}

/// The one input fault the generator itself detects: a field carries a group
/// index at or above its message's declared group count.  Such an input is a
/// schema bug that must not be clamped or repaired, so the whole request is
/// rejected.
#[derive(Clone, Copy, PartialEq, Eq, Structural, Debug)]
pub enum GenError {
    GroupIndexOutOfRange,
}

/// The target-side member a schema field becomes: the key kept, the mapped
/// type (wrapped in an array for a repeated field), and the given presence.
pub open spec fn ts_field_of(f: FieldSpecV, required: bool) -> TsFieldV {
    TsFieldV {
        key: f.key,
        ts_type: match f.label {
            Label::Repeated => TsFieldTypeV::Array(spec_map_field_type(f.kind, f.ref_name)),
            _ => TsFieldTypeV::Single(spec_map_field_type(f.kind, f.ref_name)),
        },
        is_required: required,
    }
}

/// Member-wise mapping of a whole field list.
pub open spec fn ts_fields_of(fs: Seq<FieldSpecV>, required: bool) -> Seq<TsFieldV> {
    fs.map_values(|f: FieldSpecV| ts_field_of(f, required))
}

/// The classified object a message becomes: plain fields rendered present,
/// group members rendered optional, one member list per declared group.
pub open spec fn message_object(m: MessageSpecV) -> TsObjectTypeV {
    TsObjectTypeV {
        name: m.name,
        fields: ts_fields_of(plain_of(m.fields), true),
        oneof_list: Seq::new(m.group_count as nat, |g: int| ts_fields_of(
            group_of(m.fields, g),
            false,
        )),
    }
}

/// The output record a message yields: the message name plus the fixed
/// declaration-file suffix, and the rendered declaration text.
pub open spec fn record_of(m: MessageSpecV) -> OutputRecordV {
    OutputRecordV { name: m.name + ".d.ts"@, content: decl_text(message_object(m)) }
}

/// The records of a whole message list, in order.
pub open spec fn records_of(msgs: Seq<MessageSpecV>) -> Seq<OutputRecordV> {
    msgs.map_values(|m: MessageSpecV| record_of(m))
}

/// The records of a whole request, file by file, in input order.
pub open spec fn spec_generate(files: Seq<FileSpecV>) -> Seq<OutputRecordV>
    decreases files.len(),
{
    if files.len() == 0 {
        Seq::empty()
    } else {
        spec_generate(files.drop_last()) + records_of(files.last().messages)
    }
}

/// Well-formedness of a whole file: every message is well-formed.
pub open spec fn file_wf(f: FileSpecV) -> bool {
    forall|j: int| 0 <= j < f.messages.len() ==> (#[trigger] f.messages[j]).wf()
}

/// Well-formedness of a whole request: every file is well-formed.
pub open spec fn files_wf(files: Seq<FileSpecV>) -> bool {
    forall|i: int| 0 <= i < files.len() ==> file_wf(#[trigger] files[i])
}

/// Every member the field mapper produces is live: the unsatisfiable `never`
/// type is introduced only by the union synthesizer, never by the mapping.
pub proof fn lemma_mapped_member_is_live(f: FieldSpecV, required: bool)
    ensures
        !is_forbidden(ts_field_of(f, required)),
{
    crate::mapper::lemma_map_field_type_total(f.kind, f.ref_name);
}

/// Mutual exclusion holds of every message as classified here: in each
/// declared group, every synthesized variant of the group's member list has
/// exactly one live member — the group member it stands for.
pub proof fn lemma_message_mutual_exclusion(m: MessageSpecV, g: int, i: int)
    requires
        0 <= g < m.group_count,
        0 <= i < message_object(m).oneof_list[g].len(),
    ensures
        live_count(variant_shape(message_object(m).oneof_list[g], i)) == 1,
        variant_shape(message_object(m).oneof_list[g], i)[i] == message_object(
            m,
        ).oneof_list[g][i],
{
    let members = message_object(m).oneof_list[g];
    assert forall|j: int| 0 <= j < members.len() implies !is_forbidden(
        #[trigger] members[j],
    ) by {
        lemma_mapped_member_is_live(group_of(m.fields, g)[j], false);
    }
    lemma_variant_mutual_exclusion(members, i);
}

/// Maps a classified field list to its target-side members, in order.
fn to_ts_fields(fs: &Vec<FieldSpec>, required: bool) -> (r: Vec<TsField>)
    ensures
        r.deep_view() == ts_fields_of(fs.deep_view(), required),
{
    let mut r: Vec<TsField> = Vec::new();
    let mut i: usize = 0;
    while i < fs.len()
        invariant
            i <= fs.len(),
            r.deep_view().len() == i,
            forall|q: int|
                0 <= q < i ==> #[trigger] r.deep_view()[q] == ts_field_of(
                    fs.deep_view()[q],
                    required,
                ),
        decreases fs.len() - i,
    {
        let f = &fs[i];
        let mapped = field_type_to_ts_type(f.kind, &f.ref_name);
        let ts_type = match f.label {
            Label::Repeated => TsFieldType::Array(mapped),
            Label::Optional | Label::Required => TsFieldType::Single(mapped),
        };
        let member = TsField { key: f.key.clone(), ts_type, is_required: required };
        proof {
            assert(member@ == ts_field_of(fs.deep_view()[i as int], required));
        }
        let ghost pre = r.deep_view();
        r.push(member);
        proof {
            assert(r.deep_view() =~= pre.push(ts_field_of(fs.deep_view()[i as int], required)));
        }
        i = i + 1;
    }
    proof {
        assert(r.deep_view() =~= ts_fields_of(fs.deep_view(), required));
    }
    r
}

/// Decides whether a message is well-formed: every group index a field
/// carries lies below the declared group count.
pub fn check_message_wf(m: &MessageSpec) -> (b: bool)
    ensures
        b == m@.wf(),
{
    let mut i: usize = 0;
    while i < m.fields.len()
        invariant
            i <= m.fields.len(),
            forall|j: int|
                0 <= j < i ==> ((#[trigger] m@.fields[j]).oneof_index matches Some(g) ==> 0 <= g
                    < m@.group_count),
        decreases m.fields.len() - i,
    {
        let f = &m.fields[i];
        match f.oneof_index {
            Some(g) => {
                if g >= m.group_count {
                    proof {
                        assert(m@.fields[i as int].oneof_index matches Some(gg) && gg
                            >= m@.group_count);
                    }
                    return false;
                }
            },
            None => {},
        }
        proof {
            assert((m@.fields[i as int].oneof_index matches Some(g) ==> 0 <= g < m@.group_count));
        }
        i = i + 1;
    }
    true
}

/// Generates the output record of one well-formed message: classify the
/// fields, map each to its target member, render, and package the text under
/// the message's declaration-file name.
pub fn generate_message(m: &MessageSpec) -> (r: OutputRecord)
    requires
        m@.wf(),
    ensures
        r@ == record_of(m@),
{
    let (plain, groups) = classify(m);
    let ts_fields = to_ts_fields(&plain, true);
    let mut oneof_list: Vec<Vec<TsField>> = Vec::new();
    let mut g: usize = 0;
    while g < groups.len()
        invariant
            groups.deep_view().len() == m@.group_count,
            forall|k: int|
                0 <= k < m@.group_count ==> #[trigger] groups.deep_view()[k] == group_of(
                    m@.fields,
                    k,
                ),
            g <= groups.len(),
            oneof_list.deep_view().len() == g,
            forall|k: int|
                0 <= k < g ==> #[trigger] oneof_list.deep_view()[k] == ts_fields_of(
                    group_of(m@.fields, k),
                    false,
                ),
        decreases groups.len() - g,
    {
        let members = to_ts_fields(&groups[g], false);
        let ghost pre = oneof_list.deep_view();
        let ghost members_view = members.deep_view();
        proof {
            assert(groups[g as int].deep_view() == groups.deep_view()[g as int]);
            assert(members_view == ts_fields_of(group_of(m@.fields, g as int), false));
        }
        oneof_list.push(members);
        proof {
            assert(oneof_list.deep_view() =~= pre.push(members_view));
        }
        g = g + 1;
    }
    let obj = TsObjectType { name: m.name.clone(), fields: ts_fields, oneof_list };
    proof {
        assert(obj@.oneof_list =~= message_object(m@).oneof_list);
        assert(obj@ == message_object(m@));
    }
    let content = render(&obj);
    let name = m.name.clone().concat(".d.ts");
    OutputRecord { name, content }
}

/// Generates one output record per message, over every file of the request,
/// in input order.  Succeeds exactly on well-formed input; on a message with
/// an out-of-range group index the whole request is rejected with
/// `GroupIndexOutOfRange` and no output is produced.
pub fn generate(files: &Vec<FileSpec>) -> (r: Result<Vec<OutputRecord>, GenError>)
    ensures
        r is Ok <==> files_wf(files.deep_view()),
        r matches Ok(recs) ==> recs.deep_view() == spec_generate(files.deep_view()),
        r matches Err(e) ==> e == GenError::GroupIndexOutOfRange,
{
    let ghost files_v = files.deep_view();
    let mut recs: Vec<OutputRecord> = Vec::new();
    let mut i: usize = 0;
    while i < files.len()
        invariant
            files_v == files.deep_view(),
            i <= files.len(),
            files_wf(files_v.take(i as int)),
            recs.deep_view() == spec_generate(files_v.take(i as int)),
        decreases files.len() - i,
    {
        let file = &files[i];
        let mut j: usize = 0;
        while j < file.messages.len()
            invariant
                files_v == files.deep_view(),
                i < files.len(),
                file == &files[i as int],
                files_wf(files_v.take(i as int)),
                j <= file.messages.len(),
                forall|k: int| 0 <= k < j ==> (#[trigger] file@.messages[k]).wf(),
                recs.deep_view() == spec_generate(files_v.take(i as int)) + records_of(
                    file@.messages.take(j as int),
                ),
            decreases file.messages.len() - j,
        {
            let m = &file.messages[j];
            if !check_message_wf(m) {
                proof {
                    assert(files_v[i as int].messages[j as int] == m@);
                    assert(!files_v[i as int].messages[j as int].wf());
                    assert(!file_wf(files_v[i as int]));
                    assert(!files_wf(files_v));
                }
                return Err(GenError::GroupIndexOutOfRange);
            }
            let rec = generate_message(m);
            let ghost pre = recs.deep_view();
            let ghost rec_view = rec@;
            recs.push(rec);
            proof {
                assert(recs.deep_view() =~= pre.push(rec_view));
                assert(file@.messages.take(j + 1).drop_last() =~= file@.messages.take(j as int));
                assert(records_of(file@.messages.take(j + 1)) =~= records_of(
                    file@.messages.take(j as int),
                ).push(rec_view));
                assert(recs.deep_view() =~= spec_generate(files_v.take(i as int)) + records_of(
                    file@.messages.take(j + 1),
                ));
            }
            j = j + 1;
        }
        proof {
            assert(file@.messages.take(file.messages.len() as int) =~= file@.messages);
            assert(files_v.take(i + 1).drop_last() =~= files_v.take(i as int));
            assert(files_v.take(i + 1).last() == files_v[i as int]);
            assert(recs.deep_view() =~= spec_generate(files_v.take(i + 1)));
            assert(file_wf(files_v[i as int]));
            assert(files_wf(files_v.take(i + 1)));
        }
        i = i + 1;
    }
    proof {
        assert(files_v.take(files.len() as int) =~= files_v);
    }
    Ok(recs)
}

} // verus!
