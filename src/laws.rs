use vstd::prelude::*;
use crate::expand::{
    GeneratedUnit, build_clauses, builder_field_decls, generated_for, init_field_values, setter_defs,
    setter_text, texts,
};
use crate::record::FieldDescription;
use crate::runtime::{all_set, is_first_unset, set_each, unset_slots, values_of};

verus! {

/// The builder generated for a record with `n` fields declares exactly `n`
/// fields, the `i`-th named after the record's `i`-th field and holding an
/// `Option` of its type.
pub proof fn lemma_one_declaration_per_field(
    u: GeneratedUnit,
    name: Seq<char>,
    fields: Seq<FieldDescription>,
)
    requires
        generated_for(u, name, fields),
    ensures
        u.builder_fields@.len() == fields.len(),
        forall|i: int|
            0 <= i < fields.len() ==> #[trigger] u.builder_fields@[i]@ == fields[i].ident@
                + ": Option<"@ + fields[i].ty@ + ">"@,
{
    assert(texts(u.builder_fields@).len() == builder_field_decls(fields).len());
    assert forall|i: int| 0 <= i < fields.len() implies #[trigger] u.builder_fields@[i]@
        == fields[i].ident@ + ": Option<"@ + fields[i].ty@ + ">"@ by {
        assert(texts(u.builder_fields@)[i] == builder_field_decls(fields)[i]);
    }
}

/// The builder generated for a record with `n` fields has exactly `n`
/// setters, the `i`-th named after the `i`-th field, taking a value of its
/// type and returning the builder itself.
pub proof fn lemma_one_setter_per_field(
    u: GeneratedUnit,
    name: Seq<char>,
    fields: Seq<FieldDescription>,
)
    requires
        generated_for(u, name, fields),
    ensures
        u.setters@.len() == fields.len(),
        forall|i: int|
            0 <= i < fields.len() ==> #[trigger] u.setters@[i]@ == "pub fn "@ + fields[i].ident@
                + "(&mut self, "@ + fields[i].ident@ + ": "@ + fields[i].ty@
                + ") -> &mut Self { self."@ + fields[i].ident@ + " = Some("@ + fields[i].ident@
                + "); self }"@,
{
    assert(texts(u.setters@).len() == setter_defs(fields).len());
    assert forall|i: int| 0 <= i < fields.len() implies #[trigger] u.setters@[i]@ == setter_text(
        fields[i],
    ) by {
        assert(texts(u.setters@)[i] == setter_defs(fields)[i]);
    }
}

/// Setting fields in turn puts each value in its slot and leaves the other
/// slots as they were.
proof fn lemma_set_each<V>(slots: Seq<Option<V>>, vals: Seq<V>)
    requires
        vals.len() <= slots.len(),
    ensures
        set_each(slots, vals).len() == slots.len(),
        forall|i: int| 0 <= i < vals.len() ==> #[trigger] set_each(slots, vals)[i] == Some(vals[i]),
        forall|i: int|
            vals.len() <= i < slots.len() ==> #[trigger] set_each(slots, vals)[i] == slots[i],
    decreases vals.len(),
{
    if vals.len() > 0 {
        lemma_set_each(slots, vals.drop_last());
    }
}

/// Setting every field of a fresh builder and then building gives exactly
/// the values that were set, field by field.
pub proof fn lemma_round_trip<V>(vals: Seq<V>)
    ensures
        all_set(set_each(unset_slots::<V>(vals.len()), vals)),
        values_of(set_each(unset_slots::<V>(vals.len()), vals)) == vals,
{
    let slots = set_each(unset_slots::<V>(vals.len()), vals);
    lemma_set_each(unset_slots::<V>(vals.len()), vals);
    assert(values_of(slots) =~= vals);
}

/// Setting a field twice keeps the last value only.
pub proof fn lemma_last_set_wins<V>(slots: Seq<Option<V>>, i: int, first: V, last: V)
    requires
        0 <= i < slots.len(),
    ensures
        slots.update(i, Some(first)).update(i, Some(last)) == slots.update(i, Some(last)),
        all_set(slots.update(i, Some(last))) ==> values_of(
            slots.update(i, Some(first)).update(i, Some(last)),
        )[i] == last,
{
    assert(slots.update(i, Some(first)).update(i, Some(last)) =~= slots.update(i, Some(last)));
}

/// Whenever some field is left unset, exactly one field is the first unset
/// one in declaration order, and it is indeed unset. That is the field whose
/// name the failure of `RecordBuilder::build` carries.
pub proof fn lemma_missing_field_reported<V>(slots: Seq<Option<V>>)
    requires
        !all_set(slots),
    ensures
        exists|k: int| is_first_unset(slots, k),
        forall|k: int| #[trigger] is_first_unset(slots, k) ==> slots[k] is None,
        forall|k1: int, k2: int|
            is_first_unset(slots, k1) && is_first_unset(slots, k2) ==> k1 == k2,
    decreases slots.len(),
{
    let p = slots.drop_last();
    let w = choose|i: int| 0 <= i < slots.len() && !(#[trigger] slots[i] is Some);
    if all_set(p) {
        if w < slots.len() - 1 {
            assert(p[w] is Some);
        }
        assert forall|j: int| 0 <= j < slots.len() - 1 implies #[trigger] slots[j] is Some by {
            assert(p[j] is Some);
        }
        assert(is_first_unset(slots, slots.len() - 1));
    } else {
        lemma_missing_field_reported(p);
        let k = choose|k: int| is_first_unset(p, k);
        assert forall|j: int| 0 <= j < k implies #[trigger] slots[j] is Some by {
            assert(p[j] is Some);
        }
        assert(p[k] is None);
        assert(is_first_unset(slots, k));
    }
    assert forall|k1: int, k2: int|
        is_first_unset(slots, k1) && is_first_unset(slots, k2) implies k1 == k2 by {
        if k1 < k2 {
            assert(slots[k1] is Some);
        } else if k2 < k1 {
            assert(slots[k2] is Some);
        }
    }
}

/// Reordering a record's fields reorders the declarations, starting values,
/// setters and `build` clauses of its builder in the same way.
pub proof fn lemma_order_follows_fields(
    f1: Seq<FieldDescription>,
    f2: Seq<FieldDescription>,
    perm: Seq<int>,
)
    requires
        f2.len() == f1.len(),
        perm.len() == f1.len(),
        forall|i: int| 0 <= i < f2.len() ==> 0 <= #[trigger] perm[i] < f1.len(),
        forall|i: int| 0 <= i < f2.len() ==> #[trigger] f2[i] == f1[perm[i]],
    ensures
        forall|i: int|
            0 <= i < f2.len() ==> #[trigger] builder_field_decls(f2)[i] == builder_field_decls(
                f1,
            )[perm[i]],
        forall|i: int|
            0 <= i < f2.len() ==> #[trigger] init_field_values(f2)[i] == init_field_values(
                f1,
            )[perm[i]],
        forall|i: int|
            0 <= i < f2.len() ==> #[trigger] setter_defs(f2)[i] == setter_defs(f1)[perm[i]],
        forall|i: int|
            0 <= i < f2.len() ==> #[trigger] build_clauses(f2)[i] == build_clauses(f1)[perm[i]],
{
}

} // verus!
