use vstd::prelude::*;

use crate::model::{FieldDescriptor, FieldModel, fields_view, texts_view};

verus! {

/// The fields whose names are not excluded, in their original order.
pub open spec fn kept_fields(fields: Seq<FieldModel>, excluded: Seq<Seq<char>>) -> Seq<FieldModel> {
    fields.filter(|f: FieldModel| !excluded.contains(f.name))
}

/// Whether `name` is one of `names`.
pub fn contains_name(names: &Vec<String>, name: &String) -> (r: bool)
    ensures
        r == texts_view(names@).contains(name@),
{
    let mut i: usize = 0;
    while i < names.len()
        invariant
            i <= names@.len(),
            forall|k: int| 0 <= k < i ==> (#[trigger] names@[k])@ != name@,
        decreases names@.len() - i,
    {
        if names[i] == *name {
            assert(texts_view(names@)[i as int] == name@);
            return true;
        }
        i = i + 1;
    }
    assert(!texts_view(names@).contains(name@)) by {
        if texts_view(names@).contains(name@) {
            let k = choose|k: int| 0 <= k < names@.len() && texts_view(names@)[k] == name@;
            assert(names@[k]@ == name@);
        }
    }
    false
}

/// Keeps the fields whose names are not in `excluded`, in their order.
pub fn filter_fields(fields: &Vec<FieldDescriptor>, excluded: &Vec<String>) -> (r: Vec<FieldDescriptor>)
    ensures
        fields_view(r@) == kept_fields(fields_view(fields@), texts_view(excluded@)),
{
    let ghost pred = |f: FieldModel| !texts_view(excluded@).contains(f.name);
    let mut kept: Vec<FieldDescriptor> = Vec::new();
    let mut i: usize = 0;
    while i < fields.len()
        invariant
            i <= fields@.len(),
            pred == (|f: FieldModel| !texts_view(excluded@).contains(f.name)),
            fields_view(kept@) == fields_view(fields@).take(i as int).filter(pred),
        decreases fields@.len() - i,
    {
        let f = &fields[i];
        proof {
            let all = fields_view(fields@);
            assert(all.take(i + 1) =~= all.take(i as int).push(f@));
            all.take(i as int).lemma_filter_push(f@, pred);
        }
        if !contains_name(excluded, &f.name) {
            kept.push(FieldDescriptor { name: f.name.clone(), ty: f.ty.clone() });
            assert(fields_view(kept@) =~= fields_view(kept@).drop_last().push(f@));
        }
        i = i + 1;
    }
    assert(fields_view(fields@).take(fields@.len() as int) =~= fields_view(fields@));
    kept
}

} // verus!
