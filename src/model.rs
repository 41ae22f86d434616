use vstd::prelude::*;

verus! {

/// One token of an annotation's content: its source text, and whether the
/// next token follows it with no whitespace in between (the first `:` of
/// `::` is joint).
#[derive(Clone, Debug, PartialEq, Eq)]
pub struct Token {
    pub text: String,
    pub joint: bool,
}

pub struct TokenModel {
    pub text: Seq<char>,
    pub joint: bool,
}

impl View for Token {
    type V = TokenModel;

    open spec fn view(&self) -> TokenModel {
        TokenModel { text: self.text@, joint: self.joint }
    }
}

/// An annotation on the source type, `#[name(tokens)]`.
#[derive(Clone, Debug, PartialEq, Eq)]
pub struct Annotation {
    pub name: String,
    pub tokens: Vec<Token>,
}

/// A named field: its name and its type, kept as opaque source text.
#[derive(Clone, Debug, PartialEq, Eq)]
pub struct FieldDescriptor {
    pub name: String,
    pub ty: String,
}

pub struct FieldModel {
    pub name: Seq<char>,
    pub ty: Seq<char>,
}

impl View for FieldDescriptor {
    type V = FieldModel;

    open spec fn view(&self) -> FieldModel {
        FieldModel { name: self.name@, ty: self.ty@ }
    }
}

/// What kind of type definition the source is.
#[derive(Clone, Debug, PartialEq, Eq)]
pub enum TypeShape {
    NamedStruct(Vec<FieldDescriptor>),
    TupleStruct,
    UnitStruct,
    Enum,
    Union,
}

/// The annotated type definition that a projection is generated from.
#[derive(Clone, Debug, PartialEq, Eq)]
pub struct SourceType {
    pub name: String,
    pub annotations: Vec<Annotation>,
    pub shape: TypeShape,
}

#[derive(Clone, Copy, Debug, PartialEq, Eq, Structural)]
pub enum AnnotationKind {
    TableBinding,
    ExclusionList,
}

/// How a conversion carries a field over: by moving it out of an owned
/// source, or by cloning it out of a borrowed one.
#[derive(Clone, Copy, Debug, PartialEq, Eq, Structural)]
pub enum Transfer {
    Move,
    Duplicate,
}

/// One line of a conversion: `field: source.field` or
/// `field: source.field.clone()`.
#[derive(Clone, Debug, PartialEq, Eq)]
pub struct FieldMapping {
    pub field: String,
    pub transfer: Transfer,
}

pub struct MappingModel {
    pub field: Seq<char>,
    pub transfer: Transfer,
}

impl View for FieldMapping {
    type V = MappingModel;

    open spec fn view(&self) -> MappingModel {
        MappingModel { field: self.field@, transfer: self.transfer }
    }
}

/// The generated insertable type, with its two conversions.
#[derive(Clone, Debug, PartialEq, Eq)]
pub struct Projection {
    pub name: String,
    pub source_name: String,
    pub fields: Vec<FieldDescriptor>,
    pub table_binding: Vec<Token>,
    pub changeset: Vec<Token>,
    pub by_value: Vec<FieldMapping>,
    pub by_reference: Vec<FieldMapping>,
}

pub struct ProjectionModel {
    pub name: Seq<char>,
    pub source_name: Seq<char>,
    pub fields: Seq<FieldModel>,
    pub table_binding: Seq<TokenModel>,
    pub changeset: Seq<TokenModel>,
    pub by_value: Seq<MappingModel>,
    pub by_reference: Seq<MappingModel>,
}

pub open spec fn tokens_view(t: Seq<Token>) -> Seq<TokenModel> {
    t.map_values(|x: Token| x@)
}

pub open spec fn fields_view(f: Seq<FieldDescriptor>) -> Seq<FieldModel> {
    f.map_values(|x: FieldDescriptor| x@)
}

pub open spec fn mappings_view(m: Seq<FieldMapping>) -> Seq<MappingModel> {
    m.map_values(|x: FieldMapping| x@)
}

pub open spec fn texts_view(v: Seq<String>) -> Seq<Seq<char>> {
    v.map_values(|s: String| s@)
}

impl View for Projection {
    type V = ProjectionModel;

    open spec fn view(&self) -> ProjectionModel {
        ProjectionModel {
            name: self.name@,
            source_name: self.source_name@,
            fields: fields_view(self.fields@),
            table_binding: tokens_view(self.table_binding@),
            changeset: tokens_view(self.changeset@),
            by_value: mappings_view(self.by_value@),
            by_reference: mappings_view(self.by_reference@),
        }
    }
}

/// Why no projection was generated. Each error names the source type.
#[derive(Clone, Debug, PartialEq, Eq)]
pub enum GenerateError {
    MissingRequiredAnnotation { source_type: String, kind: AnnotationKind },
    MalformedAnnotationContent { source_type: String, kind: AnnotationKind, reason: String },
    UnsupportedTypeShape { source_type: String, reason: String },
}

pub enum GenerateErrorModel {
    MissingRequiredAnnotation { source_type: Seq<char>, kind: AnnotationKind },
    MalformedAnnotationContent { source_type: Seq<char>, kind: AnnotationKind, reason: Seq<char> },
    UnsupportedTypeShape { source_type: Seq<char>, reason: Seq<char> },
}

impl View for GenerateError {
    type V = GenerateErrorModel;

    open spec fn view(&self) -> GenerateErrorModel {
        match self {
            GenerateError::MissingRequiredAnnotation { source_type, kind } =>
                GenerateErrorModel::MissingRequiredAnnotation { source_type: source_type@, kind: *kind },
            GenerateError::MalformedAnnotationContent { source_type, kind, reason } =>
                GenerateErrorModel::MalformedAnnotationContent {
                    source_type: source_type@,
                    kind: *kind,
                    reason: reason@,
                },
            GenerateError::UnsupportedTypeShape { source_type, reason } =>
                GenerateErrorModel::UnsupportedTypeShape { source_type: source_type@, reason: reason@ },
        }
    }
}

pub open spec fn kind_text(kind: AnnotationKind) -> Seq<char> {
    match kind {
        AnnotationKind::TableBinding => "table binding"@,
        AnnotationKind::ExclusionList => "exclusion list"@,
    }
}

/// The message of an error: the type it concerns, then what is wrong.
pub open spec fn error_text(e: GenerateErrorModel) -> Seq<char> {
    match e {
        GenerateErrorModel::MissingRequiredAnnotation { source_type, kind } =>
            source_type + ": missing "@ + kind_text(kind) + " annotation"@,
        GenerateErrorModel::MalformedAnnotationContent { source_type, kind, reason } =>
            source_type + ": malformed "@ + kind_text(kind) + " annotation: "@ + reason,
        GenerateErrorModel::UnsupportedTypeShape { source_type, reason } =>
            source_type + ": unsupported type: "@ + reason,
    }
}

impl AnnotationKind {
    pub fn describe(&self) -> (r: String)
        ensures
            r@ == kind_text(*self),
    {
        match self {
            AnnotationKind::TableBinding => String::from_str("table binding"),
            AnnotationKind::ExclusionList => String::from_str("exclusion list"),
        }
    }
}

impl GenerateError {
    /// A message that names the source type and the requirement it breaks.
    pub fn message(&self) -> (r: String)
        ensures
            r@ == error_text(self@),
    {
        match self {
            GenerateError::MissingRequiredAnnotation { source_type, kind } => {
                let mut m = source_type.clone();
                m.append(": missing ");
                m.append(kind.describe().as_str());
                m.append(" annotation");
                m
            },
            GenerateError::MalformedAnnotationContent { source_type, kind, reason } => {
                let mut m = source_type.clone();
                m.append(": malformed ");
                m.append(kind.describe().as_str());
                m.append(" annotation: ");
                m.append(reason.as_str());
                m
            },
            GenerateError::UnsupportedTypeShape { source_type, reason } => {
                let mut m = source_type.clone();
                m.append(": unsupported type: ");
                m.append(reason.as_str());
                m
            },
        }
    }
}

} // verus!
