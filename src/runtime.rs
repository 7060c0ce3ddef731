use vstd::prelude::*;
use vstd::string::*;
use crate::expand::missing_message;
use crate::record::FieldDescription;

verus! {

/// What a generated builder does at run time: one optional slot per field
/// of the record, in declaration order, each filled by its setter, and a
/// `build` that fails on the first slot left empty.
pub struct RecordBuilder<V> {
    pub field_names: Vec<String>,
    pub slots: Vec<Option<V>>,
}

/// Every slot holds a value.
pub open spec fn all_set<V>(slots: Seq<Option<V>>) -> bool {
    forall|i: int| 0 <= i < slots.len() ==> #[trigger] slots[i] is Some
}

/// Slot `k` is the first empty one.
pub open spec fn is_first_unset<V>(slots: Seq<Option<V>>, k: int) -> bool {
    &&& 0 <= k < slots.len()
    &&& slots[k] is None
    &&& forall|j: int| 0 <= j < k ==> #[trigger] slots[j] is Some
}

/// `names[k]` is the first occurrence of `name`.
pub open spec fn is_first_named(names: Seq<Seq<char>>, name: Seq<char>, k: int) -> bool {
    &&& 0 <= k < names.len()
    &&& names[k] == name
    &&& forall|j: int| 0 <= j < k ==> #[trigger] names[j] != name
}

/// The values held by the slots, in order.
pub open spec fn values_of<V>(slots: Seq<Option<V>>) -> Seq<V> {
    Seq::new(slots.len(), |i: int| slots[i]->0)
}

/// `n` empty slots: the state of a fresh builder.
pub open spec fn unset_slots<V>(n: nat) -> Seq<Option<V>> {
    Seq::new(n, |i: int| None)
}

/// The slots after each field `i` in turn is set to `vals[i]`.
pub open spec fn set_each<V>(slots: Seq<Option<V>>, vals: Seq<V>) -> Seq<Option<V>>
    decreases vals.len(),
{
    if vals.len() == 0 {
        slots
    } else {
        set_each(slots, vals.drop_last()).update(vals.len() - 1, Some(vals.last()))
    }
}

impl<V> RecordBuilder<V> {
    /// One name for each slot.
    pub open spec fn wf(&self) -> bool {
        self.field_names@.len() == self.slots@.len()
    }

    /// The names of the fields, in order.
    pub open spec fn names(&self) -> Seq<Seq<char>> {
        Seq::new(self.field_names@.len(), |i: int| self.field_names@[i]@)
    }

    /// A builder for a record with the given fields, with every field unset.
    pub fn new(fields: &Vec<FieldDescription>) -> (r: RecordBuilder<V>)
        ensures
            r.wf(),
            r.names() == Seq::new(fields@.len(), |i: int| fields@[i].ident@),
            r.slots@ == unset_slots::<V>(fields@.len()),
    {
        let mut field_names: Vec<String> = Vec::new();
        let mut slots: Vec<Option<V>> = Vec::new();
        let mut i: usize = 0;
        while i < fields.len()
            invariant
                i <= fields@.len(),
                field_names@.len() == i,
                slots@.len() == i,
                forall|j: int| 0 <= j < i ==> #[trigger] field_names@[j]@ == fields@[j].ident@,
                forall|j: int| 0 <= j < i ==> #[trigger] slots@[j] is None,
            decreases fields@.len() - i,
        {
            field_names.push(fields[i].ident.clone());
            slots.push(None);
            i = i + 1;
        }
        let r = RecordBuilder { field_names, slots };
        assert(r.names() =~= Seq::new(fields@.len(), |i: int| fields@[i].ident@));
        assert(r.slots@ =~= unset_slots::<V>(fields@.len()));
        r
    }

    /// Sets field `i` to `value`, replacing any earlier value.
    pub fn set_field(&mut self, i: usize, value: V)
        requires
            i < old(self).slots@.len(),
        ensures
            final(self).field_names == old(self).field_names,
            final(self).slots@ == old(self).slots@.update(i as int, Some(value)),
    {
        self.slots.set(i, Some(value));
    }

    /// Sets the first field named `name` to `value`, as the generated setter
    /// of that field does. Returns whether the record has such a field;
    /// where it has none, nothing changes.
    pub fn set(&mut self, name: &String, value: V) -> (found: bool)
        requires
            old(self).wf(),
        ensures
            final(self).field_names == old(self).field_names,
            found <==> exists|i: int| 0 <= i < old(self).names().len() && old(self).names()[i]
                == name@,
            found ==> exists|k: int|
                is_first_named(old(self).names(), name@, k) && final(self).slots@ == old(
                    self,
                ).slots@.update(k, Some(value)),
            !found ==> final(self).slots@ == old(self).slots@,
    {
        let mut i: usize = 0;
        while i < self.field_names.len()
            invariant
                i <= self.field_names@.len(),
                self.field_names == old(self).field_names,
                self.slots == old(self).slots,
                self.wf(),
                forall|j: int| 0 <= j < i ==> #[trigger] self.names()[j] != name@,
            decreases self.field_names@.len() - i,
        {
            let same = self.field_names[i] == *name;
            assert(self.names()[i as int] == self.field_names@[i as int]@);
            if same {
                assert(is_first_named(self.names(), name@, i as int));
                self.slots.set(i, Some(value));
                return true;
            }
            i = i + 1;
        }
        false
    }

    /// The record's values in field order, or the message naming the first
    /// field, in declaration order, that was never set.
    pub fn build(self) -> (r: Result<Vec<V>, String>)
        requires
            self.wf(),
        ensures
            r is Ok <==> all_set(self.slots@),
            r matches Ok(vals) ==> vals@ == values_of(self.slots@),
            r matches Err(msg) ==> exists|k: int|
                is_first_unset(self.slots@, k) && msg@ == missing_message(self.names()[k]),
    {
        let ghost orig = self.slots@;
        let mut i: usize = 0;
        while i < self.slots.len()
            invariant
                i <= self.slots@.len(),
                self.slots@ == orig,
                self.wf(),
                forall|j: int| 0 <= j < i ==> #[trigger] orig[j] is Some,
            decreases self.slots@.len() - i,
        {
            if self.slots[i].is_none() {
                let mut msg = String::new();
                msg.append("field ");
                msg.append(self.field_names[i].as_str());
                msg.append(" missing!");
                assert(is_first_unset(orig, i as int));
                return Err(msg);
            }
            i = i + 1;
        }
        let mut slots = self.slots;
        let mut vals: Vec<V> = Vec::new();
        let n = slots.len();
        let mut k: usize = 0;
        while k < n
            invariant
                n == orig.len(),
                k <= n,
                slots@ == orig.subrange(k as int, n as int),
                vals@ == values_of(orig.subrange(0, k as int)),
                all_set(orig),
            decreases n - k,
        {
            assert(slots@[0] == orig[k as int]);
            let o = slots.remove(0);
            match o {
                Some(v) => {
                    vals.push(v);
                },
                None => {},
            }
            assert(slots@ =~= orig.subrange(k as int + 1, n as int));
            assert(vals@ =~= values_of(orig.subrange(0, k as int + 1)));
            k = k + 1;
        }
        assert(orig.subrange(0, n as int) =~= orig);
        Ok(vals)
    }
}

} // verus!
