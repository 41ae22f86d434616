use vstd::prelude::*;

use crate::filter::{filter_fields, kept_fields};
use crate::metadata::{
    binds_table, excluded_names, exclusion_list_reason, find_table_binding, first_where,
    resolve_exclusions,
};
use crate::model::{
    Annotation, AnnotationKind, FieldModel, GenerateError, GenerateErrorModel, Projection,
    ProjectionModel, SourceType, TokenModel, Transfer, TypeShape, fields_view, tokens_view,
};
use crate::synth::{
    changeset_tokens, conversion_mappings, copy_tokens, default_changeset, mappings_of,
    projection_name, projection_name_of,
};

verus! {

/// The position of the annotation that binds the type to a table.
pub open spec fn table_binding_index(anns: Seq<Annotation>) -> Option<int> {
    first_where(anns, |a: Annotation| binds_table(a))
}

pub open spec fn unnamed_fields_reason() -> Seq<char> {
    "only named-field record types are supported"@
}

pub open spec fn not_a_struct_reason() -> Seq<char> {
    "only struct types are supported"@
}

/// The projection of a type named `source` with the given fields, exclusions
/// and table binding.
pub open spec fn projection_of(
    source: Seq<char>,
    fields: Seq<FieldModel>,
    excluded: Seq<Seq<char>>,
    binding: Seq<TokenModel>,
) -> ProjectionModel {
    let kept = kept_fields(fields, excluded);
    ProjectionModel {
        name: projection_name_of(source),
        source_name: source,
        fields: kept,
        table_binding: binding,
        changeset: default_changeset(),
        by_value: mappings_of(kept, Transfer::Move),
        by_reference: mappings_of(kept, Transfer::Duplicate),
    }
}

/// What generation yields for `src`. The table binding is checked first,
/// then the exclusion list, then the shape of the type.
pub open spec fn generated(src: SourceType) -> Result<ProjectionModel, GenerateErrorModel> {
    match table_binding_index(src.annotations@) {
        None => Err(
            GenerateErrorModel::MissingRequiredAnnotation {
                source_type: src.name@,
                kind: AnnotationKind::TableBinding,
            },
        ),
        Some(t) => match excluded_names(src.annotations@) {
            None => Err(
                GenerateErrorModel::MalformedAnnotationContent {
                    source_type: src.name@,
                    kind: AnnotationKind::ExclusionList,
                    reason: exclusion_list_reason(),
                },
            ),
            Some(excluded) => match src.shape {
                TypeShape::NamedStruct(fields) => Ok(
                    projection_of(
                        src.name@,
                        fields_view(fields@),
                        excluded,
                        tokens_view(src.annotations@[t].tokens@),
                    ),
                ),
                TypeShape::TupleStruct | TypeShape::UnitStruct => Err(
                    GenerateErrorModel::UnsupportedTypeShape {
                        source_type: src.name@,
                        reason: unnamed_fields_reason(),
                    },
                ),
                TypeShape::Enum | TypeShape::Union => Err(
                    GenerateErrorModel::UnsupportedTypeShape {
                        source_type: src.name@,
                        reason: not_a_struct_reason(),
                    },
                ),
            },
        },
    }
}

/// Generates the insertable projection of `src`, or says why it cannot.
pub fn create_insertable_struct(src: &SourceType) -> (r: Result<Projection, GenerateError>)
    ensures
        r matches Ok(p) ==> generated(*src) == Ok::<ProjectionModel, GenerateErrorModel>(p@),
        r matches Err(e) ==> generated(*src) == Err::<ProjectionModel, GenerateErrorModel>(e@),
{
    let t = match find_table_binding(&src.annotations) {
        Some(t) => t,
        None => {
            return Err(
                GenerateError::MissingRequiredAnnotation {
                    source_type: src.name.clone(),
                    kind: AnnotationKind::TableBinding,
                },
            );
        },
    };
    let excluded = match resolve_exclusions(&src.name, &src.annotations) {
        Ok(names) => names,
        Err(e) => {
            return Err(e);
        },
    };
    let fields = match &src.shape {
        TypeShape::NamedStruct(fields) => fields,
        TypeShape::TupleStruct | TypeShape::UnitStruct => {
            return Err(
                GenerateError::UnsupportedTypeShape {
                    source_type: src.name.clone(),
                    reason: String::from_str("only named-field record types are supported"),
                },
            );
        },
        TypeShape::Enum | TypeShape::Union => {
            return Err(
                GenerateError::UnsupportedTypeShape {
                    source_type: src.name.clone(),
                    reason: String::from_str("only struct types are supported"),
                },
            );
        },
    };
    let kept = filter_fields(fields, &excluded);
    let by_value = conversion_mappings(&kept, Transfer::Move);
    let by_reference = conversion_mappings(&kept, Transfer::Duplicate);
    let p = Projection {
        name: projection_name(&src.name),
        source_name: src.name.clone(),
        fields: kept,
        table_binding: copy_tokens(&src.annotations[t].tokens),
        changeset: changeset_tokens(),
        by_value,
        by_reference,
    };
    Ok(p)
}

} // verus!
