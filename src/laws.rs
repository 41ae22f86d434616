use vstd::prelude::*;

use crate::generate::{generated, table_binding_index};
use crate::ident::parses_as_ident;
use crate::metadata::{
    binds_table, default_exclusions, exclusion_list_reason, is_first_where, is_ident_list,
    lemma_first_where_exists, lemma_first_where_none, lemma_first_where_some, listed_idents,
    lists_exclusions,
};
use crate::model::{
    Annotation, AnnotationKind, FieldModel, GenerateErrorModel, MappingModel, ProjectionModel,
    SourceType, Transfer, TypeShape, fields_view,
};

verus! {

/// The names of a sequence of fields, in order.
pub open spec fn field_names(fields: Seq<FieldModel>) -> Seq<Seq<char>> {
    fields.map_values(|f: FieldModel| f.name)
}

/// The projection value that a conversion builds from a source value whose
/// fields hold `value`: each line of the conversion yields its field's value.
pub open spec fn converted<V>(maps: Seq<MappingModel>, value: Map<Seq<char>, V>) -> Seq<(Seq<char>, V)> {
    maps.map_values(|m: MappingModel| (m.field, value[m.field]))
}

/// The fields of a named-field source type.
pub open spec fn source_fields(src: SourceType) -> Seq<FieldModel> {
    match src.shape {
        TypeShape::NamedStruct(fields) => fields_view(fields@),
        _ => Seq::empty(),
    }
}

proof fn lemma_binding_found(src: SourceType)
    requires
        exists|j: int| 0 <= j < src.annotations@.len() && binds_table(#[trigger] src.annotations@[j]),
    ensures
        table_binding_index(src.annotations@) is Some,
{
    let anns = src.annotations@;
    let j = choose|j: int| 0 <= j < anns.len() && binds_table(#[trigger] anns[j]);
    lemma_first_where_exists(anns, j, |a: Annotation| binds_table(a));
}

/// With a table binding and no exclusion list, generation on a named-field
/// type succeeds, and the projection keeps every field but `created_at`,
/// `updated_at` and `id`, in the source order.
pub proof fn law_default_exclusions(src: SourceType)
    requires
        src.shape is NamedStruct,
        exists|j: int| 0 <= j < src.annotations@.len() && binds_table(#[trigger] src.annotations@[j]),
        forall|j: int| 0 <= j < src.annotations@.len() ==> !lists_exclusions(#[trigger] src.annotations@[j]),
    ensures
        generated(src) is Ok,
        generated(src)->Ok_0.fields == source_fields(src).filter(
            |f: FieldModel| f.name != "created_at"@ && f.name != "updated_at"@ && f.name != "id"@,
        ),
{
    lemma_binding_found(src);
    lemma_first_where_none(src.annotations@, |a: Annotation| lists_exclusions(a));
    let d = default_exclusions();
    assert(d[0] == "created_at"@ && d[1] == "updated_at"@ && d[2] == "id"@);
    let named = |f: FieldModel| f.name != "created_at"@ && f.name != "updated_at"@ && f.name != "id"@;
    let kept = |f: FieldModel| !d.contains(f.name);
    assert forall|f: FieldModel| #[trigger] kept(f) == named(f) by {
        if !named(f) {
            if f.name == "created_at"@ {
                assert(d[0] == f.name);
            } else if f.name == "updated_at"@ {
                assert(d[1] == f.name);
            } else {
                assert(d[2] == f.name);
            }
        }
    }
    assert(kept =~= named);
}

/// With a table binding and a well-formed exclusion list `E`, generation on
/// a named-field type succeeds, and a name belongs to a projection field
/// exactly when it belongs to a source field and is not in `E`.
pub proof fn law_explicit_exclusions(src: SourceType, i: int)
    requires
        src.shape is NamedStruct,
        exists|j: int| 0 <= j < src.annotations@.len() && binds_table(#[trigger] src.annotations@[j]),
        is_first_where(src.annotations@, i, |a: Annotation| lists_exclusions(a)),
        is_ident_list(src.annotations@[i].tokens@),
    ensures
        generated(src) is Ok,
        forall|x: Seq<char>|
            #[trigger] field_names(generated(src)->Ok_0.fields).contains(x) <==> (
            field_names(source_fields(src)).contains(x) && !listed_idents(
                src.annotations@[i].tokens@,
            ).contains(x)),
{
    lemma_binding_found(src);
    lemma_first_where_some(src.annotations@, i, |a: Annotation| lists_exclusions(a));
    let e = listed_idents(src.annotations@[i].tokens@);
    let all = source_fields(src);
    let pred = |f: FieldModel| !e.contains(f.name);
    let kept = all.filter(pred);
    assert(generated(src)->Ok_0.fields == kept);
    assert forall|x: Seq<char>|
        #[trigger] field_names(kept).contains(x) <==> (field_names(all).contains(x) && !e.contains(x)) by {
        if field_names(kept).contains(x) {
            let k = choose|k: int| 0 <= k < field_names(kept).len() && field_names(kept)[k] == x;
            all.lemma_filter_pred(pred, k);
            all.lemma_filter_contains_rev(pred, kept[k]);
            let m = choose|m: int| 0 <= m < all.len() && all[m] == kept[k];
            assert(field_names(all)[m] == x);
        }
        if field_names(all).contains(x) && !e.contains(x) {
            let m = choose|m: int| 0 <= m < field_names(all).len() && field_names(all)[m] == x;
            all.lemma_filter_contains(pred, m);
            let k = choose|k: int| 0 <= k < kept.len() && kept[k] == all[m];
            assert(field_names(kept)[k] == x);
        }
    }
}

/// The by-value and the by-reference conversion carry the same fields in the
/// same order, those of the projection; so on any source value they build
/// the same projection value.
pub proof fn law_conversions_agree<V>(src: SourceType, value: Map<Seq<char>, V>)
    requires
        generated(src) is Ok,
    ensures
        ({
            let p = generated(src)->Ok_0;
            &&& p.by_value.map_values(|m: MappingModel| m.field) == field_names(p.fields)
            &&& p.by_reference.map_values(|m: MappingModel| m.field) == field_names(p.fields)
            &&& converted(p.by_value, value) == converted(p.by_reference, value)
        }),
{
    let p = generated(src)->Ok_0;
    assert(p.by_value.map_values(|m: MappingModel| m.field) =~= field_names(p.fields));
    assert(p.by_reference.map_values(|m: MappingModel| m.field) =~= field_names(p.fields));
    assert(converted(p.by_value, value) =~= converted(p.by_reference, value));
}

/// The by-reference conversion only clones fields out of the borrowed source
/// value and moves nothing out of it; the by-value conversion moves each
/// field.
pub proof fn law_by_reference_only_clones(src: SourceType)
    requires
        generated(src) is Ok,
    ensures
        forall|k: int|
            0 <= k < generated(src)->Ok_0.by_reference.len() ==> (#[trigger] generated(
                src,
            )->Ok_0.by_reference[k]).transfer == Transfer::Duplicate,
        forall|k: int|
            0 <= k < generated(src)->Ok_0.by_value.len() ==> (#[trigger] generated(
                src,
            )->Ok_0.by_value[k]).transfer == Transfer::Move,
{
}

/// Without a table binding, generation fails with a missing-annotation error
/// for the table binding.
pub proof fn law_missing_table_binding(src: SourceType)
    requires
        forall|j: int| 0 <= j < src.annotations@.len() ==> !binds_table(#[trigger] src.annotations@[j]),
    ensures
        generated(src) == Err::<ProjectionModel, GenerateErrorModel>(
            GenerateErrorModel::MissingRequiredAnnotation {
                source_type: src.name@,
                kind: AnnotationKind::TableBinding,
            },
        ),
{
    lemma_first_where_none(src.annotations@, |a: Annotation| binds_table(a));
}

/// With a table binding, an exclusion list holding a token that is neither
/// an identifier nor a comma makes generation fail with a malformed-content
/// error for the exclusion list.
pub proof fn law_malformed_exclusion_list(src: SourceType, i: int, k: int)
    requires
        exists|j: int| 0 <= j < src.annotations@.len() && binds_table(#[trigger] src.annotations@[j]),
        is_first_where(src.annotations@, i, |a: Annotation| lists_exclusions(a)),
        0 <= k < src.annotations@[i].tokens@.len(),
        !parses_as_ident(src.annotations@[i].tokens@[k].text@),
        src.annotations@[i].tokens@[k].text@ != ","@,
    ensures
        generated(src) == Err::<ProjectionModel, GenerateErrorModel>(
            GenerateErrorModel::MalformedAnnotationContent {
                source_type: src.name@,
                kind: AnnotationKind::ExclusionList,
                reason: exclusion_list_reason(),
            },
        ),
{
    lemma_binding_found(src);
    lemma_first_where_some(src.annotations@, i, |a: Annotation| lists_exclusions(a));
    assert(!is_ident_list(src.annotations@[i].tokens@));
}

} // verus!
