//! The message field classifier: partitions a message's field list into the
//! plain fields and one ordered member list per mutual-exclusion group.

use vstd::prelude::*;
use vstd::multiset::Multiset;
use crate::model::{FieldSpec, FieldSpecV, MessageSpec};

verus! {

broadcast use Seq::lemma_filter_push;

/// A plain field: one that belongs to no mutual-exclusion group.
pub open spec fn is_plain(f: FieldSpecV) -> bool {
    f.oneof_index is None
}

/// Membership in group `g`.
pub open spec fn in_group(f: FieldSpecV, g: int) -> bool {
    f.oneof_index == Some(g)
}

/// The plain fields, in input order.
pub open spec fn plain_of(fields: Seq<FieldSpecV>) -> Seq<FieldSpecV> {
    fields.filter(|f: FieldSpecV| is_plain(f))
}

/// The members of group `g`, in input order.
pub open spec fn group_of(fields: Seq<FieldSpecV>, g: int) -> Seq<FieldSpecV> {
    fields.filter(|f: FieldSpecV| in_group(f, g))
}

/// Partitions a message's fields: a field with no group index goes to the
/// plain list, a field with group index `g` goes to group `g`.  Every
/// declared group gets a list, even one that no field referenced; appends are
/// stable, so each output list keeps the input order.  This stage never
/// fails.
pub fn classify(msg: &MessageSpec) -> (r: (Vec<FieldSpec>, Vec<Vec<FieldSpec>>))
    requires
        msg@.wf(),
    ensures
        r.0.deep_view() == plain_of(msg@.fields),
        r.1.deep_view().len() == msg@.group_count,
        forall|g: int|
            0 <= g < msg@.group_count ==> #[trigger] r.1.deep_view()[g] == group_of(msg@.fields, g),
{
    broadcast use Seq::lemma_filter_push;

    let mut plain: Vec<FieldSpec> = Vec::new();
    let mut groups: Vec<Vec<FieldSpec>> = Vec::new();
    let mut g: usize = 0;
    while g < msg.group_count
        invariant
            g <= msg.group_count,
            groups.deep_view().len() == g,
            forall|k: int|
                0 <= k < g ==> #[trigger] groups.deep_view()[k] == Seq::<FieldSpecV>::empty(),
        decreases msg.group_count - g,
    {
        let ghost pre = groups.deep_view();
        let empty_bucket: Vec<FieldSpec> = Vec::new();
        proof {
            assert(empty_bucket.deep_view() =~= Seq::<FieldSpecV>::empty());
        }
        groups.push(empty_bucket);
        proof {
            assert(groups.deep_view() =~= pre.push(Seq::<FieldSpecV>::empty()));
        }
        g = g + 1;
    }
    proof {
        assert(plain.deep_view() =~= Seq::<FieldSpecV>::empty());
        assert(msg@.fields.take(0) =~= Seq::<FieldSpecV>::empty());
        reveal(Seq::filter);
        assert(plain.deep_view() =~= plain_of(msg@.fields.take(0)));
        assert forall|k: int| 0 <= k < msg@.group_count implies #[trigger] groups.deep_view()[k]
            == group_of(msg@.fields.take(0), k) by {
            assert(group_of(msg@.fields.take(0), k) =~= Seq::<FieldSpecV>::empty());
        }
    }
    let mut i: usize = 0;
    while i < msg.fields.len()
        invariant
            msg@.wf(),
            i <= msg.fields.len(),
            groups.deep_view().len() == msg@.group_count,
            plain.deep_view() == plain_of(msg@.fields.take(i as int)),
            forall|k: int|
                0 <= k < msg@.group_count ==> #[trigger] groups.deep_view()[k] == group_of(
                    msg@.fields.take(i as int),
                    k,
                ),
        decreases msg.fields.len() - i,
    {
        let ghost fields = msg@.fields;
        proof {
            assert(fields.take(i + 1).drop_last() =~= fields.take(i as int));
            assert(fields.take(i + 1) =~= fields.take(i as int).push(fields[i as int]));
        }
        let f = &msg.fields[i];
        match f.oneof_index {
            Some(gi) => {
                proof {
                    assert(fields[i as int].oneof_index == Some(gi as int));
                }
                let ghost g0 = groups.deep_view();
                let ghost gvec0 = groups@;
                let mut bucket = groups.remove(gi);
                let ghost pre_bucket = bucket.deep_view();
                bucket.push(f.clone());
                proof {
                    assert(bucket.deep_view() =~= pre_bucket.push(fields[i as int]));
                }
                let ghost bucket_view = bucket.deep_view();
                groups.insert(gi, bucket);
                proof {
                    let f_v = fields[i as int];
                    assert(in_group(f_v, gi as int));
                    assert(groups@ =~= gvec0.update(gi as int, groups@[gi as int]));
                    assert(groups@[gi as int].deep_view() == bucket_view);
                    assert(pre_bucket == g0[gi as int]);
                    assert forall|k: int| 0 <= k < msg@.group_count implies
                        #[trigger] groups.deep_view()[k] == group_of(fields.take(i + 1), k) by {
                        assert(group_of(fields.take(i as int).push(f_v), k) == if in_group(f_v, k) {
                            group_of(fields.take(i as int), k).push(f_v)
                        } else {
                            group_of(fields.take(i as int), k)
                        });
                        if k == gi {
                            assert(groups.deep_view()[k] == bucket_view);
                        } else {
                            assert(groups@[k] == gvec0[k]);
                            assert(groups.deep_view()[k] == g0[k]);
                            assert(!in_group(f_v, k));
                        }
                    }
                    assert(!is_plain(f_v));
                    assert(plain_of(fields.take(i as int).push(f_v)) == plain_of(
                        fields.take(i as int),
                    ));
                    assert(plain.deep_view() =~= plain_of(fields.take(i + 1)));
                }
            },
            None => {
                let ghost pre_plain = plain.deep_view();
                plain.push(f.clone());
                proof {
                    let f_v = fields[i as int];
                    assert(is_plain(f_v));
                    assert(plain.deep_view() =~= pre_plain.push(f_v));
                    assert(plain_of(fields.take(i as int).push(f_v)) == plain_of(
                        fields.take(i as int),
                    ).push(f_v));
                    assert(plain.deep_view() =~= plain_of(fields.take(i + 1)));
                    assert forall|k: int| 0 <= k < msg@.group_count implies
                        #[trigger] groups.deep_view()[k] == group_of(fields.take(i + 1), k) by {
                        assert(!in_group(f_v, k));
                        assert(group_of(fields.take(i as int).push(f_v), k) == group_of(
                            fields.take(i as int),
                            k,
                        ));
                    }
                }
            },
        }
        i = i + 1;
    }
    proof {
        assert(msg@.fields.take(msg.fields.len() as int) =~= msg@.fields);
    }
    (plain, groups)
}

/// The multiset of all group members, over the groups `0 .. n`.
pub open spec fn groups_multiset(fields: Seq<FieldSpecV>, n: int) -> Multiset<FieldSpecV>
    decreases n,
{
    if n <= 0 {
        Multiset::empty()
    } else {
        groups_multiset(fields, n - 1).add(group_of(fields, n - 1).to_multiset())
    }
}

proof fn lemma_groups_multiset_empty(n: int)
    ensures
        groups_multiset(Seq::<FieldSpecV>::empty(), n) == Multiset::<FieldSpecV>::empty(),
    decreases n,
{
    broadcast use vstd::multiset::group_multiset_axioms;

    if n > 0 {
        lemma_groups_multiset_empty(n - 1);
        reveal(Seq::filter);
        assert(group_of(Seq::<FieldSpecV>::empty(), n - 1) =~= Seq::<FieldSpecV>::empty());
        Seq::<FieldSpecV>::to_multiset_ensures(Seq::<FieldSpecV>::empty());
        assert(Seq::<FieldSpecV>::empty().to_multiset() =~= Multiset::<FieldSpecV>::empty());
        assert(groups_multiset(Seq::<FieldSpecV>::empty(), n) =~= Multiset::<
            FieldSpecV,
        >::empty());
    }
}

proof fn lemma_groups_multiset_push(s: Seq<FieldSpecV>, f: FieldSpecV, n: int)
    ensures
        (f.oneof_index matches Some(g) && 0 <= g < n) ==> groups_multiset(s.push(f), n)
            == groups_multiset(s, n).insert(f),
        !(f.oneof_index matches Some(g) && 0 <= g < n) ==> groups_multiset(s.push(f), n)
            == groups_multiset(s, n),
    decreases n,
{
    broadcast use vstd::multiset::group_multiset_axioms;
    broadcast use Seq::lemma_filter_push;

    if n > 0 {
        lemma_groups_multiset_push(s, f, n - 1);
        Seq::<FieldSpecV>::to_multiset_ensures(group_of(s, n - 1));
        if in_group(f, n - 1) {
            assert(group_of(s.push(f), n - 1) == group_of(s, n - 1).push(f));
            assert(groups_multiset(s.push(f), n) =~= groups_multiset(s, n).insert(f));
        } else {
            assert(group_of(s.push(f), n - 1) == group_of(s, n - 1));
            if f.oneof_index matches Some(g) && 0 <= g < n - 1 {
                assert(groups_multiset(s.push(f), n) =~= groups_multiset(s, n).insert(f));
            } else {
                assert(groups_multiset(s.push(f), n) =~= groups_multiset(s, n));
            }
        }
    }
}

/// Classifier partition law: for any field list whose group indices lie below
/// `n`, the multiset union of the plain fields and of all group members
/// equals the multiset of the fields themselves — no field is lost, none is
/// duplicated, and none lands in two buckets.
pub proof fn lemma_classify_partitions(fields: Seq<FieldSpecV>, n: int)
    requires
        forall|i: int|
            0 <= i < fields.len() ==> ((#[trigger] fields[i]).oneof_index matches Some(g) ==> 0
                <= g < n),
    ensures
        fields.to_multiset() == plain_of(fields).to_multiset().add(groups_multiset(fields, n)),
    decreases fields.len(),
{
    broadcast use vstd::multiset::group_multiset_axioms;
    broadcast use Seq::lemma_filter_push;

    Seq::<FieldSpecV>::to_multiset_ensures(fields);
    if fields.len() == 0 {
        assert(fields.to_multiset() =~= Multiset::<FieldSpecV>::empty());
        reveal(Seq::filter);
        assert(plain_of(fields) =~= Seq::<FieldSpecV>::empty());
        assert(fields =~= Seq::<FieldSpecV>::empty());
        lemma_groups_multiset_empty(n);
        assert(fields.to_multiset() =~= plain_of(fields).to_multiset().add(
            groups_multiset(fields, n),
        ));
    } else {
        let s = fields.drop_last();
        let f = fields.last();
        assert(fields =~= s.push(f));
        assert(forall|i: int|
            0 <= i < s.len() ==> ((#[trigger] s[i]).oneof_index matches Some(g) ==> 0 <= g < n))
            by {
            assert(forall|i: int| 0 <= i < s.len() ==> s[i] == fields[i]);
        }
        lemma_classify_partitions(s, n);
        lemma_groups_multiset_push(s, f, n);
        Seq::<FieldSpecV>::to_multiset_ensures(s);
        Seq::<FieldSpecV>::to_multiset_ensures(plain_of(s));
        assert(s.push(f).to_multiset() == s.to_multiset().insert(f));
        if is_plain(f) {
            assert(plain_of(fields) == plain_of(s).push(f));
            assert(plain_of(s).push(f).to_multiset() == plain_of(s).to_multiset().insert(f));
            assert(groups_multiset(fields, n) == groups_multiset(s, n));
            assert(fields.to_multiset() =~= plain_of(fields).to_multiset().add(
                groups_multiset(fields, n),
            ));
        } else {
            assert(f.oneof_index matches Some(g) && 0 <= g < n);
            assert(plain_of(fields) == plain_of(s));
            assert(groups_multiset(fields, n) == groups_multiset(s, n).insert(f));
            assert(fields.to_multiset() =~= plain_of(fields).to_multiset().add(
                groups_multiset(fields, n),
            ));
        }
    }
}

} // verus!
