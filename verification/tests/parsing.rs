use rust_crud::attributes::{parse_attributes, parse_inner_attributes};
use rust_crud::commons::CrudError;
use rust_crud::lexical::string_literal;
use rust_crud::ident::is_valid_ident_text;
use rust_crud::input::{AttributeModel, DataModel, FieldModel, FieldsModel, LitModel, MetaModel, NestedMetaModel};
use rust_crud::commons::{PathSegmentModel, TypeModel, TypePathModel};
use rust_crud::{buil_data_struct, format_table_name, parse_data};

fn list(name: &str, items: Vec<NestedMetaModel>) -> AttributeModel {
    AttributeModel { name: name.to_string(), meta: MetaModel::List(items) }
}

fn path(p: &str) -> NestedMetaModel {
    NestedMetaModel::Path(p.to_string())
}

fn lit(s: &str) -> NestedMetaModel {
    NestedMetaModel::Str(s.to_string())
}

fn simple_type(name: &str) -> TypeModel {
    TypeModel::Path(TypePathModel {
        qself: None,
        leading_colon: false,
        segments: vec![PathSegmentModel { ident: name.to_string(), args: String::new() }],
    })
}

fn field(name: &str, attrs: &[&str]) -> FieldModel {
    FieldModel {
        ident: name.to_string(),
        ty: simple_type("i32"),
        vis: "pub".to_string(),
        attrs: attrs.iter().map(|a| a.to_string()).collect(),
    }
}

#[test]
fn default_table_name_lowers_every_letter() {
    let cases = [
        ("User", "users"),
        ("TrackItem", "trackitems"),
        ("already_lower", "already_lowers"),
        ("ABC", "abcs"),
        ("Élan", "élans"),
        ("ÜBER", "übers"),
    ];
    for (name, table) in cases {
        assert_eq!(format_table_name(None, name).0, table);
    }
}

#[test]
fn default_table_name_of_lowered_name_is_the_same() {
    let (once, _) = format_table_name(None, "BlogPostComment");
    assert_eq!(once, "blogpostcomments");
    let (twice, _) = format_table_name(None, "blogpostcomment");
    assert_eq!(twice, once);
}

#[test]
fn default_table_name_is_lowercase_plural() {
    let (name, quote) = format_table_name(None, "Track");
    assert_eq!(name, "tracks");
    assert_eq!(quote, "#[table_name = \"tracks\"]");
    let (name, _) = format_table_name(None, "TrackItem");
    assert_eq!(name, "trackitems");
}

#[test]
fn string_literals_match_proc_macro2() {
    for value in ["tracks", "a\"b", "back\\slash", "tab\tnew\nline\r", "it's", "nul\0end", "nul\u{0}7", "é\u{7f}\u{200b}", ""] {
        assert_eq!(string_literal(value), proc_macro2::Literal::string(value).to_string());
    }
    assert_eq!(string_literal("nul\u{0}7"), "\"nul\\x007\"");
    assert_eq!(string_literal("a\"b"), "\"a\\\"b\"");
}

#[test]
fn given_table_name_is_kept_and_escaped_in_the_attribute() {
    let (name, quote) = format_table_name(Some("my\"table".to_string()), "Track");
    assert_eq!(name, "my\"table");
    assert_eq!(quote, "#[table_name = \"my\\\"table\"]");
}

#[test]
fn identifier_validity() {
    assert!(is_valid_ident_text("NewUser"));
    assert!(is_valid_ident_text("_private"));
    assert!(is_valid_ident_text("r#foo_endpoints_config"));
    assert!(is_valid_ident_text("été"));
    assert!(!is_valid_ident_text("my-table_endpoints_config"));
    assert!(!is_valid_ident_text(""));
    assert!(!is_valid_ident_text("123"));
    assert!(!is_valid_ident_text("1abc"));
    assert!(!is_valid_ident_text("Newr#User"));
    assert!(!is_valid_ident_text("r#self"));
    assert!(!is_valid_ident_text(" users_endpoints_config"));
}

#[test]
fn inner_attributes_fold() {
    assert_eq!(parse_inner_attributes((false, false), &"creatable".to_string()), (true, false));
    assert_eq!(parse_inner_attributes((false, false), &"patchable".to_string()), (false, true));
    assert_eq!(parse_inner_attributes((true, false), &"serde".to_string()), (true, false));
    assert_eq!(parse_inner_attributes((true, true), &"creatable".to_string()), (true, true));
}

#[test]
fn attributes_are_read() {
    let attrs = vec![
        AttributeModel { name: "doc".to_string(), meta: MetaModel::NameValue(LitModel::Str("A track".to_string())) },
        list("derive", vec![path("Debug"), path("Dummy")]),
        list("operations", vec![lit("create"), lit("read")]),
        AttributeModel { name: "table_name".to_string(), meta: MetaModel::NameValue(LitModel::Str("songs".to_string())) },
    ];
    let (derived, ops, table) = parse_attributes(&attrs).unwrap();
    assert_eq!(derived, vec!["Debug".to_string(), "Dummy".to_string()]);
    assert_eq!(ops, Some(vec!["create".to_string(), "read".to_string()]));
    assert_eq!(table, Some("songs".to_string()));
}

#[test]
fn later_attributes_replace_earlier_ones() {
    let attrs = vec![
        list("operations", vec![lit("create")]),
        list("operations", vec![lit("delete")]),
        AttributeModel { name: "table_name".to_string(), meta: MetaModel::NameValue(LitModel::Str("a".to_string())) },
        AttributeModel { name: "table_name".to_string(), meta: MetaModel::NameValue(LitModel::Str("b".to_string())) },
    ];
    let (derived, ops, table) = parse_attributes(&attrs).unwrap();
    assert!(derived.is_empty());
    assert_eq!(ops, Some(vec!["delete".to_string()]));
    assert_eq!(table, Some("b".to_string()));
}

#[test]
fn no_attributes() {
    let (derived, ops, table) = parse_attributes(&vec![]).unwrap();
    assert!(derived.is_empty());
    assert_eq!(ops, None);
    assert_eq!(table, None);
}

#[test]
fn malformed_attributes_are_reported() {
    let unparsable = vec![AttributeModel { name: "serde".to_string(), meta: MetaModel::Unparsable }];
    assert_eq!(parse_attributes(&unparsable).err(), Some(CrudError::MalformedAttribute("serde".to_string())));
    let derive_lit = vec![list("derive", vec![lit("Debug")])];
    assert_eq!(parse_attributes(&derive_lit).err(), Some(CrudError::MalformedAttribute("derive".to_string())));
    let ops_path = vec![list("operations", vec![path("create")])];
    assert_eq!(parse_attributes(&ops_path).err(), Some(CrudError::MalformedAttribute("operations".to_string())));
    let ops_other = vec![list("operations", vec![NestedMetaModel::Other])];
    assert_eq!(parse_attributes(&ops_other).err(), Some(CrudError::MalformedAttribute("operations".to_string())));
    let table_path = vec![AttributeModel { name: "table_name".to_string(), meta: MetaModel::Path }];
    assert_eq!(parse_attributes(&table_path).err(), Some(CrudError::MalformedAttribute("table_name".to_string())));
    let table_int = vec![AttributeModel { name: "table_name".to_string(), meta: MetaModel::NameValue(LitModel::Other) }];
    assert_eq!(parse_attributes(&table_int).err(), Some(CrudError::MalformedAttribute("table_name".to_string())));
    let derive_nv = vec![AttributeModel { name: "derive".to_string(), meta: MetaModel::NameValue(LitModel::Other) }];
    assert_eq!(parse_attributes(&derive_nv).err(), Some(CrudError::MalformedAttribute("derive".to_string())));
}

#[test]
fn data_shapes() {
    assert_eq!(parse_data(DataModel::Enum).err(), Some(CrudError::NotAStruct));
    assert_eq!(parse_data(DataModel::Union).err(), Some(CrudError::NotAStruct));
    assert_eq!(parse_data(DataModel::Struct(FieldsModel::Unnamed)).err(), Some(CrudError::NoNamedFields));
    assert_eq!(parse_data(DataModel::Struct(FieldsModel::Unit)).err(), Some(CrudError::NoNamedFields));
    let fields = parse_data(DataModel::Struct(FieldsModel::Named(vec![field("id", &[])]))).ok().unwrap();
    assert_eq!(fields.len(), 1);
    assert_eq!(fields[0].ident, "id");
}

#[test]
fn field_markers_are_read() {
    let parsed = buil_data_struct(vec![
        field("id", &[]),
        field("title", &["creatable", "patchable"]),
        field("artist", &["serde", "creatable"]),
        field("length", &["patchable"]),
    ]);
    let flags: Vec<(String, bool, bool)> = parsed.iter().map(|p| (p.ident.clone(), p.creatable, p.patchable)).collect();
    assert_eq!(
        flags,
        vec![
            ("id".to_string(), false, false),
            ("title".to_string(), true, true),
            ("artist".to_string(), true, false),
            ("length".to_string(), false, true),
        ]
    );
    assert_eq!(parsed[1].vis, "pub");
}
