use insertable_derive::{
    create_insertable_struct, parse_exclusion_list, render_projection, tokens_source, Annotation,
    AnnotationKind, FieldDescriptor, FieldMapping, GenerateError, Projection, SourceType, Token,
    Transfer, TypeShape,
};

fn tok(text: &str) -> Token {
    Token { text: text.to_string(), joint: false }
}

fn joint(text: &str) -> Token {
    Token { text: text.to_string(), joint: true }
}

fn ann(name: &str, tokens: Vec<Token>) -> Annotation {
    Annotation { name: name.to_string(), tokens }
}

fn table_binding(table: &str) -> Annotation {
    ann("diesel", vec![tok("table_name"), tok("="), tok(table)])
}

fn field(name: &str, ty: &str) -> FieldDescriptor {
    FieldDescriptor { name: name.to_string(), ty: ty.to_string() }
}

fn order_fields() -> Vec<FieldDescriptor> {
    vec![
        field("id", "Int"),
        field("created_at", "Timestamp"),
        field("customer_id", "Int"),
        field("total_cents", "Int"),
    ]
}

fn source(name: &str, annotations: Vec<Annotation>, fields: Vec<FieldDescriptor>) -> SourceType {
    SourceType { name: name.to_string(), annotations, shape: TypeShape::NamedStruct(fields) }
}

fn names(p: &Projection) -> Vec<String> {
    p.fields.iter().map(|f| f.name.clone()).collect()
}

fn mapping(name: &str, transfer: Transfer) -> FieldMapping {
    FieldMapping { field: name.to_string(), transfer }
}

#[test]
fn order_example_with_default_exclusions() {
    let src = source("Order", vec![table_binding("orders")], order_fields());
    let p = create_insertable_struct(&src).unwrap();
    assert_eq!(p.name, "InsertableOrder");
    assert_eq!(p.source_name, "Order");
    assert_eq!(p.fields, vec![field("customer_id", "Int"), field("total_cents", "Int")]);
    assert_eq!(
        p.by_value,
        vec![mapping("customer_id", Transfer::Move), mapping("total_cents", Transfer::Move)]
    );
    assert_eq!(
        p.by_reference,
        vec![
            mapping("customer_id", Transfer::Duplicate),
            mapping("total_cents", Transfer::Duplicate)
        ]
    );
    assert_eq!(p.table_binding, vec![tok("table_name"), tok("="), tok("orders")]);
    assert_eq!(p.changeset, vec![tok("treat_none_as_null"), tok("="), tok("true")]);
}

#[test]
fn default_exclusions_drop_all_three_and_keep_order() {
    let fields = vec![
        field("name", "String"),
        field("updated_at", "Timestamp"),
        field("id", "i64"),
        field("email", "Option<String>"),
        field("created_at", "Timestamp"),
        field("age", "i32"),
    ];
    let src = source("User", vec![table_binding("users")], fields);
    let p = create_insertable_struct(&src).unwrap();
    assert_eq!(names(&p), vec!["name", "email", "age"]);
    assert_eq!(p.fields[1], field("email", "Option<String>"));
}

#[test]
fn default_exclusions_without_excluded_fields_keep_everything() {
    let src = source("Tag", vec![table_binding("tags")], vec![field("label", "String")]);
    let p = create_insertable_struct(&src).unwrap();
    assert_eq!(names(&p), vec!["label"]);
}

#[test]
fn explicit_exclusion_list_replaces_defaults() {
    let list = ann("non_new_fields", vec![tok("id"), tok(","), tok("customer_id")]);
    let src = source("Order", vec![table_binding("orders"), list], order_fields());
    let p = create_insertable_struct(&src).unwrap();
    assert_eq!(names(&p), vec!["created_at", "total_cents"]);
    assert_eq!(p.by_value.len(), 2);
}

#[test]
fn explicit_exclusion_list_with_unknown_names_and_trailing_comma() {
    let list = ann("non_new_fields", vec![tok("missing"), tok(","), tok("total_cents"), tok(",")]);
    let src = source("Order", vec![list, table_binding("orders")], order_fields());
    let p = create_insertable_struct(&src).unwrap();
    assert_eq!(names(&p), vec!["id", "created_at", "customer_id"]);
}

#[test]
fn empty_exclusion_list_keeps_every_field() {
    let list = ann("non_new_fields", vec![]);
    let src = source("Order", vec![table_binding("orders"), list], order_fields());
    let p = create_insertable_struct(&src).unwrap();
    assert_eq!(names(&p), vec!["id", "created_at", "customer_id", "total_cents"]);
}

#[test]
fn only_the_first_exclusion_list_counts() {
    let first = ann("non_new_fields", vec![tok("total_cents")]);
    let second = ann("non_new_fields", vec![tok("1")]);
    let src = source("Order", vec![table_binding("orders"), first, second], order_fields());
    let p = create_insertable_struct(&src).unwrap();
    assert_eq!(names(&p), vec!["id", "created_at", "customer_id"]);
}

#[test]
fn both_conversions_carry_the_same_fields() {
    let src = source("Order", vec![table_binding("orders")], order_fields());
    let p = create_insertable_struct(&src).unwrap();
    let by_value: Vec<&String> = p.by_value.iter().map(|m| &m.field).collect();
    let by_reference: Vec<&String> = p.by_reference.iter().map(|m| &m.field).collect();
    assert_eq!(by_value, by_reference);
    assert_eq!(by_value, p.fields.iter().map(|f| &f.name).collect::<Vec<_>>());
}

#[test]
fn by_reference_conversion_only_clones_and_source_stays_intact() {
    let src = source("Order", vec![table_binding("orders")], order_fields());
    let before = src.clone();
    let p = create_insertable_struct(&src).unwrap();
    assert_eq!(src, before);
    assert!(p.by_reference.iter().all(|m| m.transfer == Transfer::Duplicate));
    assert!(p.by_value.iter().all(|m| m.transfer == Transfer::Move));
    let text = render_projection(&p);
    assert!(text.contains("fn from(source: &Order) -> Self {\n        Self {\n            customer_id: source.customer_id.clone(),\n            total_cents: source.total_cents.clone(),\n"));
}

#[test]
fn missing_table_binding_fails() {
    let src = source("Order", vec![], order_fields());
    let e = create_insertable_struct(&src).unwrap_err();
    assert_eq!(
        e,
        GenerateError::MissingRequiredAnnotation {
            source_type: "Order".to_string(),
            kind: AnnotationKind::TableBinding,
        }
    );
    assert_eq!(e.message(), "Order: missing table binding annotation");
}

#[test]
fn diesel_annotation_without_table_name_is_no_binding() {
    let other = ann("diesel", vec![tok("primary_key"), tok("(id)")]);
    let src = source("Order", vec![other, ann("table_name", vec![tok("orders")])], order_fields());
    let e = create_insertable_struct(&src).unwrap_err();
    assert!(matches!(
        e,
        GenerateError::MissingRequiredAnnotation { kind: AnnotationKind::TableBinding, .. }
    ));
}

#[test]
fn table_binding_is_checked_before_the_exclusion_list() {
    let list = ann("non_new_fields", vec![tok("1")]);
    let src = source("Order", vec![list], order_fields());
    let e = create_insertable_struct(&src).unwrap_err();
    assert!(matches!(e, GenerateError::MissingRequiredAnnotation { .. }));
}

fn malformed(tokens: Vec<Token>) -> GenerateError {
    let list = ann("non_new_fields", tokens);
    let src = source("Order", vec![table_binding("orders"), list], order_fields());
    create_insertable_struct(&src).unwrap_err()
}

#[test]
fn literal_in_exclusion_list_is_malformed() {
    let e = malformed(vec![tok("id"), tok(","), tok("1")]);
    assert_eq!(
        e,
        GenerateError::MalformedAnnotationContent {
            source_type: "Order".to_string(),
            kind: AnnotationKind::ExclusionList,
            reason: "exclusion list must be a list of identifiers".to_string(),
        }
    );
    assert_eq!(
        e.message(),
        "Order: malformed exclusion list annotation: exclusion list must be a list of identifiers"
    );
}

#[test]
fn keyword_and_string_in_exclusion_list_are_malformed() {
    assert!(matches!(malformed(vec![tok("fn")]), GenerateError::MalformedAnnotationContent { .. }));
    assert!(matches!(malformed(vec![tok("\"id\"")]), GenerateError::MalformedAnnotationContent { .. }));
    assert!(matches!(malformed(vec![tok("(id)")]), GenerateError::MalformedAnnotationContent { .. }));
}

#[test]
fn path_and_missing_comma_in_exclusion_list_are_malformed() {
    let path = vec![tok("a"), joint(":"), tok(":"), tok("b")];
    assert!(matches!(malformed(path), GenerateError::MalformedAnnotationContent { .. }));
    assert!(matches!(malformed(vec![tok("a"), tok("b")]), GenerateError::MalformedAnnotationContent { .. }));
    assert!(matches!(malformed(vec![tok(",")]), GenerateError::MalformedAnnotationContent { .. }));
}

#[test]
fn parse_exclusion_list_reads_identifiers() {
    let toks = vec![tok("id"), tok(","), tok("r#type"), tok(","), tok("created_at")];
    assert_eq!(
        parse_exclusion_list(&toks),
        Some(vec!["id".to_string(), "r#type".to_string(), "created_at".to_string()])
    );
    assert_eq!(parse_exclusion_list(&vec![tok("_")]), None);
    assert_eq!(parse_exclusion_list(&vec![tok("12")]), None);
}

#[test]
fn tuple_and_unit_structs_are_unsupported() {
    for shape in [TypeShape::TupleStruct, TypeShape::UnitStruct] {
        let src = SourceType {
            name: "Pair".to_string(),
            annotations: vec![table_binding("pairs")],
            shape,
        };
        assert_eq!(
            create_insertable_struct(&src).unwrap_err(),
            GenerateError::UnsupportedTypeShape {
                source_type: "Pair".to_string(),
                reason: "only named-field record types are supported".to_string(),
            }
        );
    }
}

#[test]
fn enums_and_unions_are_unsupported() {
    for shape in [TypeShape::Enum, TypeShape::Union] {
        let src = SourceType {
            name: "Kind".to_string(),
            annotations: vec![table_binding("kinds")],
            shape,
        };
        let e = create_insertable_struct(&src).unwrap_err();
        assert_eq!(e.message(), "Kind: unsupported type: only struct types are supported");
    }
}

#[test]
fn tokens_source_respects_joint_spacing() {
    let toks = vec![
        tok("table_name"),
        tok("="),
        joint("crate"),
        joint(":"),
        joint(":"),
        joint("schema"),
        joint(":"),
        joint(":"),
        tok("orders"),
    ];
    assert_eq!(tokens_source(&toks), "table_name = crate::schema::orders");
    assert_eq!(tokens_source(&vec![]), "");
}

#[test]
fn rendered_order_projection() {
    let src = source("Order", vec![table_binding("orders")], order_fields());
    let p = create_insertable_struct(&src).unwrap();
    let expected = "#[derive(Clone, Debug, PartialEq, diesel::Insertable, diesel::AsChangeset)]\n\
#[diesel(table_name = orders)]\n\
#[diesel(treat_none_as_null = true)]\n\
pub struct InsertableOrder {\n    pub customer_id: Int,\n    pub total_cents: Int,\n}\n\n\
impl ::core::convert::From<Order> for InsertableOrder {\n    fn from(source: Order) -> Self {\n        Self {\n            customer_id: source.customer_id,\n            total_cents: source.total_cents,\n        }\n    }\n}\n\n\
impl ::core::convert::From<&Order> for InsertableOrder {\n    fn from(source: &Order) -> Self {\n        Self {\n            customer_id: source.customer_id.clone(),\n            total_cents: source.total_cents.clone(),\n        }\n    }\n}\n";
    assert_eq!(render_projection(&p), expected);
}

#[test]
fn rendered_projection_without_fields() {
    let src = source("Audit", vec![table_binding("audits")], vec![field("id", "i64")]);
    let p = create_insertable_struct(&src).unwrap();
    assert!(p.fields.is_empty());
    let text = render_projection(&p);
    assert!(text.contains("pub struct InsertableAudit {\n}\n"));
    assert!(text.contains("fn from(source: Audit) -> Self {\n        Self {\n        }\n"));
}
