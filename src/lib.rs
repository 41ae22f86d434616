//! Generates, from an annotated record type, the "insertable" projection of
//! that type: a record that holds only the fields a client may supply on
//! insert, with two conversions from the source record into it.
//!
//! The input is a plain description of the annotated type ([`SourceType`]);
//! the output is a [`Projection`], which [`render_projection`] turns into
//! Rust source text.
//!
//! Supported annotations:
//! - `#[diesel(table_name = ...)]` binds the type to a table. It is required,
//!   and it is copied verbatim onto the projection. Only this nested form is
//!   recognised.
//! - `#[non_new_fields(a, b, ...)]` lists the fields to leave out. Without it
//!   the fields `created_at`, `updated_at` and `id` are left out.
//! - The changeset configuration of the projection is always
//!   `#[diesel(treat_none_as_null = true)]`; the source type's own changeset
//!   annotations are not carried over.
//!
//! Known limitation: two source types with the same name yield projections
//! with the same name; the generator does not detect that collision.

pub mod filter;
pub mod generate;
mod ident;
pub mod laws;
pub mod metadata;
pub mod model;
pub mod render;
pub mod synth;

pub use filter::{contains_name, filter_fields};
pub use generate::create_insertable_struct;
pub use ident::parses_as_ident;
pub use metadata::{
    find_exclusion_list, find_table_binding, is_table_binding, parse_exclusion_list,
    resolve_exclusions,
};
pub use model::{
    Annotation, AnnotationKind, FieldDescriptor, FieldMapping, FieldModel, GenerateError,
    GenerateErrorModel, MappingModel, Projection, ProjectionModel, SourceType, Token, TokenModel,
    Transfer, TypeShape,
};
pub use render::{field_declarations, mapping_initialisers, render_projection, tokens_source};
pub use synth::{changeset_tokens, conversion_mappings, copy_tokens, projection_name};
