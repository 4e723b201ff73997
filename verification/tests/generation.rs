use std::str::FromStr;

use proc_macro2::{Delimiter, TokenStream, TokenTree};
use rust_crud::commons::{render_path, CrudError, PathSegmentModel, QSelfModel, TypeModel, TypePathModel};
use rust_crud::input::{AttributeModel, DataModel, DeriveInputModel, FieldModel, FieldsModel, LitModel, MetaModel, NestedMetaModel};
use rust_crud::{generate_crud, generate_crud_for, generate_crud_source};

fn segment(name: &str, args: &str) -> PathSegmentModel {
    PathSegmentModel { ident: name.to_string(), args: args.to_string() }
}

fn path_type(segments: Vec<PathSegmentModel>) -> TypeModel {
    TypeModel::Path(TypePathModel { qself: None, leading_colon: false, segments })
}

fn field(name: &str, ty: TypeModel, attrs: &[&str]) -> FieldModel {
    FieldModel {
        ident: name.to_string(),
        ty,
        vis: "pub".to_string(),
        attrs: attrs.iter().map(|a| a.to_string()).collect(),
    }
}

fn operations(ops: &[&str]) -> AttributeModel {
    AttributeModel {
        name: "operations".to_string(),
        meta: MetaModel::List(ops.iter().map(|o| NestedMetaModel::Str(o.to_string())).collect()),
    }
}

fn derive(traits: &[&str]) -> AttributeModel {
    AttributeModel {
        name: "derive".to_string(),
        meta: MetaModel::List(traits.iter().map(|t| NestedMetaModel::Path(t.to_string())).collect()),
    }
}

fn table_name(name: &str) -> AttributeModel {
    AttributeModel { name: "table_name".to_string(), meta: MetaModel::NameValue(LitModel::Str(name.to_string())) }
}

fn track_fields() -> Vec<FieldModel> {
    vec![
        field("id", path_type(vec![segment("i32", "")]), &[]),
        field("title", path_type(vec![segment("String", "")]), &["creatable", "patchable"]),
        field("artist", path_type(vec![segment("Option", "< String >")]), &["creatable"]),
        field("length", path_type(vec![segment("i32", "")]), &["patchable"]),
    ]
}

fn input(name: &str, attrs: Vec<AttributeModel>, fields: Vec<FieldModel>) -> DeriveInputModel {
    DeriveInputModel {
        ident: name.to_string(),
        attrs,
        data: DataModel::Struct(FieldsModel::Named(fields)),
    }
}

fn flatten(ts: TokenStream, out: &mut Vec<String>) {
    for tt in ts {
        match tt {
            TokenTree::Group(g) => {
                let (open, close) = match g.delimiter() {
                    Delimiter::Parenthesis => ("(", ")"),
                    Delimiter::Brace => ("{", "}"),
                    Delimiter::Bracket => ("[", "]"),
                    Delimiter::None => ("", ""),
                };
                out.push(open.to_string());
                flatten(g.stream(), out);
                out.push(close.to_string());
            }
            TokenTree::Ident(i) => out.push(i.to_string()),
            TokenTree::Punct(p) => out.push(p.as_char().to_string()),
            TokenTree::Literal(l) => out.push(l.to_string()),
        }
    }
}

fn tokens_of(text: &str) -> Vec<String> {
    let mut out = Vec::new();
    flatten(TokenStream::from_str(text).unwrap(), &mut out);
    out
}

const TRACK_EXPANSION: &str = r#"
pub trait Generate {
    fn generate() -> Self;
    fn generate_multiple(amount: u32) -> Vec<Self> where Self: Sized;
}
pub trait FromMultiple<T>: Sized {
    fn from_multiple(_: T) -> Vec<Self>;
}
#[derive(Debug, Insertable, Deserialize)]
#[table_name = "tracks"]
pub struct NewTrack<'a> {
    pub title: &'a str,
    pub artist: &'a Option<String>
}
impl<'a> From<&'a Track> for NewTrack<'a> {
    fn from(x: &'a Track) -> Self {
        Self { title: x.title.as_ref(), artist: x.artist.as_ref() }
    }
}
impl<'a> FromMultiple<&'a Vec<Track>> for NewTrack<'a> {
    fn from_multiple(y: &'a Vec<Track>) -> Vec<Self> {
        let mut r: Vec<Self> = vec![];
        for x in y.iter() {
            let z: Self = Self { title: x.title.as_ref(), artist: x.artist.as_ref() };
            r.push(z)
        }
        r
    }
}
impl Track {
    pub fn create(x: NewTrack, c: &PgConnection) -> Track {
        diesel::insert_into(table).values(&x).get_result(c).expect("Error saving new track")
    }
    pub fn create_multiple(x: Vec<NewTrack>, c: &PgConnection) -> Vec<Track> {
        diesel::insert_into(table).values(&x).get_results(c).expect("Error saving new tracks")
    }
    pub fn create_from(title: &str, artist: &Option<String>, c: &PgConnection) -> Vec<Track> {
        let new_s = NewTrack { title, artist };
        diesel::insert_into(table).values(&new_s).get_results(c).expect("Error saving new tracks")
    }
}
#[post("/tracks")]
async fn create(req_body: String) -> impl Responder {
    let req: NewTrack = serde_json::from_str(req_body.as_str()).unwrap();
    let t = json!(Track::create(req, &establish_connection()));
    HttpResponse::Ok().content_type(ContentType::json()).body(t.to_string())
}
impl Track {
    pub fn read(id: i32, c: &PgConnection) -> Track {
        table.find(id).first(c).expect("Could not find track")
    }
    pub fn get(amount: i64, c: &PgConnection) -> Vec<Track> {
        table.limit(amount).load::<Track>(c).expect("Error loading tracks")
    }
}
#[get("/tracks/{id}")]
async fn read(path: web::Path<i32>) -> impl Responder {
    let id = path.into_inner();
    let r = json!(Track::read(id, &establish_connection()));
    HttpResponse::Ok().content_type(ContentType::json()).body(r.to_string())
}
#[get("/tracks")]
async fn get() -> impl Responder {
    let r = json!(Track::get(50, &establish_connection()));
    HttpResponse::Ok().content_type(ContentType::json()).body(r.to_string())
}
#[derive(Debug, AsChangeset, Deserialize)]
#[table_name = "tracks"]
pub struct PatchTrack<'a> {
    pub title: Option<&'a str>,
    pub length: Option<&'a i32>
}
impl Track {
    pub fn patch(id: i32, data: PatchTrack, c: &PgConnection) -> Track {
        diesel::update(table.filter(s_id.eq(id))).set(data).get_result(c).expect("error patch")
    }
}
#[patch("/tracks/{id}")]
async fn patch(path: web::Path<i32>, req_body: String) -> impl Responder {
    let id = path.into_inner();
    if req_body.is_empty() || req_body.eq("{}") {
        return HttpResponse::BadRequest().body("No data passed");
    }
    let req: PatchTrack = serde_json::from_str(req_body.as_str()).unwrap();
    let t = json!(Track::patch(id, req, &establish_connection()));
    HttpResponse::Ok().content_type(ContentType::json()).body(t.to_string())
}
impl Track {
    pub fn delete(id: i32, c: &PgConnection) {
        diesel::delete(table.filter(s_id.eq(id))).execute(c).expect("Error");
    }
}
#[delete("/tracks/{id}")]
async fn delete(path: web::Path<i32>) -> impl Responder {
    let id = path.into_inner();
    let r = json!(Track::delete(id, &establish_connection()));
    HttpResponse::Ok().content_type(ContentType::json()).body(r.to_string())
}
impl Generate for Track {
    fn generate() -> Track {
        let r: Track = Faker.fake();
        r
    }
    fn generate_multiple(amount: u32) -> Vec<Self> {
        let mut r: Vec<Self> = vec![];
        for _n in 1..amount {
            let g: Self = Self::generate();
            r.push(g)
        }
        r
    }
}
pub fn tracks_endpoints_config(cfg: &mut web::ServiceConfig) {
    cfg.service(create).service(read).service(get).service(patch).service(delete);
}
"#;

#[test]
fn full_expansion_matches_the_templates() {
    let model = input(
        "Track",
        vec![derive(&["Debug", "Dummy"]), operations(&["create", "read", "patch", "delete"])],
        track_fields(),
    );
    let source = generate_crud_source(model).unwrap();
    assert_eq!(tokens_of(&source), tokens_of(TRACK_EXPANSION));
}

#[test]
fn full_expansion_lexes_into_the_same_tokens() {
    let model = input(
        "Track",
        vec![derive(&["Debug", "Dummy"]), operations(&["create", "read", "patch", "delete"])],
        track_fields(),
    );
    let tokens = generate_crud_for(model).ok().unwrap().into_tokens();
    let mut flat = Vec::new();
    flatten(tokens, &mut flat);
    assert_eq!(flat, tokens_of(TRACK_EXPANSION));
}

#[test]
fn no_operations_gives_only_traits_and_config() {
    let source = generate_crud_source(input("Track", vec![], track_fields())).unwrap();
    let expected = r#"
pub trait Generate {
    fn generate() -> Self;
    fn generate_multiple(amount: u32) -> Vec<Self> where Self: Sized;
}
pub trait FromMultiple<T>: Sized {
    fn from_multiple(_: T) -> Vec<Self>;
}
pub fn tracks_endpoints_config(cfg: &mut web::ServiceConfig) {
    cfg;
}
"#;
    assert_eq!(tokens_of(&source), tokens_of(expected));
}

#[test]
fn operation_order_repetition_and_update_do_not_matter() {
    let a = generate_crud_source(input("Track", vec![operations(&["delete", "read"])], track_fields())).unwrap();
    let b = generate_crud_source(input("Track", vec![operations(&["read", "update", "delete", "read"])], track_fields())).unwrap();
    assert_eq!(a, b);
    assert!(a.contains("cfg.service(read).service(get).service(delete)"));
}

#[test]
fn table_name_attribute_sets_routes_and_config_name() {
    let source = generate_crud_source(input(
        "Track",
        vec![table_name("songs"), operations(&["read"])],
        track_fields(),
    ))
    .unwrap();
    assert!(source.contains("#[get(\"/songs/{id}\")]"));
    assert!(source.contains("#[get(\"/songs\")]"));
    assert!(source.contains("pub fn songs_endpoints_config(cfg: &mut web::ServiceConfig)"));
}

#[test]
fn multi_word_struct_gets_lowercase_table() {
    let source = generate_crud_source(input("UserProfile", vec![operations(&["delete"])], track_fields())).unwrap();
    assert!(source.contains("#[delete(\"/userprofiles/{id}\")]"));
    assert!(source.contains("pub fn userprofiles_endpoints_config("));
}

#[test]
fn invalid_config_name_is_refused() {
    let res = generate_crud_source(input("Track", vec![table_name("my-table")], track_fields()));
    assert_eq!(res.err(), Some(CrudError::InvalidIdent("my-table_endpoints_config".to_string())));
}

#[test]
fn raw_struct_name_cannot_be_prefixed() {
    let ok = generate_crud_source(input("r#Track", vec![operations(&["read"])], track_fields()));
    assert!(ok.is_ok());
    let res = generate_crud_source(input("r#Track", vec![operations(&["create"])], track_fields()));
    assert_eq!(res.err(), Some(CrudError::InvalidIdent("Newr#Track".to_string())));
    let res = generate_crud_source(input("r#Track", vec![operations(&["patch"])], track_fields()));
    assert_eq!(res.err(), Some(CrudError::InvalidIdent("Patchr#Track".to_string())));
}

#[test]
fn invalid_struct_name_is_refused() {
    let res = generate_crud_source(input("Not a name", vec![], track_fields()));
    assert_eq!(res.err(), Some(CrudError::InvalidIdent("Not a name".to_string())));
}

#[test]
fn create_without_creatable_field_is_refused() {
    let fields = vec![field("id", path_type(vec![segment("i32", "")]), &["patchable"])];
    let res = generate_crud_source(input("Track", vec![operations(&["create"])], fields));
    assert_eq!(res.err(), Some(CrudError::NoCreatableField));
}

#[test]
fn patch_without_patchable_field_is_refused() {
    let fields = vec![field("id", path_type(vec![segment("i32", "")]), &["creatable"])];
    let res = generate_crud_source(input("Track", vec![operations(&["patch"])], fields));
    assert_eq!(res.err(), Some(CrudError::NoPatchableField));
}

#[test]
fn create_error_comes_before_patch_error() {
    let fields = vec![field("id", path_type(vec![segment("i32", "")]), &[])];
    let res = generate_crud_source(input("Track", vec![operations(&["patch", "create"])], fields));
    assert_eq!(res.err(), Some(CrudError::NoCreatableField));
}

#[test]
fn non_path_type_is_refused_only_when_rendered() {
    let fields = vec![
        field("tuple", TypeModel::Other, &[]),
        field("title", path_type(vec![segment("String", "")]), &["creatable"]),
        field("pair", TypeModel::Other, &["creatable"]),
        field("other", TypeModel::Other, &["creatable"]),
    ];
    let res = generate_crud_source(input("Track", vec![operations(&["create"])], fields));
    assert_eq!(res.err(), Some(CrudError::UnsupportedFieldType("pair".to_string())));
    let fields = vec![
        field("tuple", TypeModel::Other, &[]),
        field("title", path_type(vec![segment("String", "")]), &["creatable"]),
    ];
    assert!(generate_crud_source(input("Track", vec![operations(&["create"])], fields)).is_ok());
}

#[test]
fn not_a_struct_is_refused() {
    let model = DeriveInputModel { ident: "Track".to_string(), attrs: vec![], data: DataModel::Enum };
    assert_eq!(generate_crud_source(model).err(), Some(CrudError::NotAStruct));
    let model = DeriveInputModel {
        ident: "Track".to_string(),
        attrs: vec![],
        data: DataModel::Struct(FieldsModel::Unnamed),
    };
    assert_eq!(generate_crud_source(model).err(), Some(CrudError::NoNamedFields));
}

#[test]
fn malformed_attribute_stops_generation() {
    let attrs = vec![AttributeModel { name: "serde".to_string(), meta: MetaModel::Unparsable }];
    let res = generate_crud_source(input("Track", attrs, track_fields()));
    assert_eq!(res.err(), Some(CrudError::MalformedAttribute("serde".to_string())));
}

#[test]
fn patch_wraps_every_segment_of_a_long_path() {
    let fields = vec![field(
        "name",
        path_type(vec![segment("std", ""), segment("string", ""), segment("String", "")]),
        &["patchable"],
    )];
    let source = generate_crud_source(input("Track", vec![operations(&["patch"])], fields)).unwrap();
    assert!(source.contains("pub name: Option<&'a std >::Option<&'a string >::Option<&'a str >"));
}

#[test]
fn create_renames_string_segments_only() {
    let fields = vec![
        field("a", path_type(vec![segment("std", ""), segment("string", ""), segment("String", "")]), &["creatable"]),
        field("b", path_type(vec![segment("Vec", "< String >")]), &["creatable"]),
    ];
    let source = generate_crud_source(input("Track", vec![operations(&["create"])], fields)).unwrap();
    assert!(source.contains("pub a: &'a std::string::str"));
    assert!(source.contains("pub b: &'a Vec< String >"));
    assert!(source.contains("pub fn create_from(a: &std::string::str, b: &Vec< String >, c: &PgConnection)"));
}

#[test]
fn qualified_self_types_are_kept() {
    let ty = TypeModel::Path(TypePathModel {
        qself: Some(QSelfModel { ty: "T".to_string(), position: 1 }),
        leading_colon: false,
        segments: vec![segment("Trait", ""), segment("Assoc", "")],
    });
    let fields = vec![field("x", ty, &["creatable"])];
    let source = generate_crud_source(input("Track", vec![operations(&["create"])], fields)).unwrap();
    assert!(source.contains("pub x: &'a <T as Trait>::Assoc"));
}

#[test]
fn render_path_forms() {
    let segs = vec!["a".to_string(), "b".to_string(), "c".to_string()];
    assert_eq!(render_path(&None, false, &segs), "a::b::c");
    assert_eq!(render_path(&None, true, &segs), "::a::b::c");
    let q = |position: usize| Some(QSelfModel { ty: "T".to_string(), position });
    assert_eq!(render_path(&q(0), true, &segs), "<T>::a::b::c");
    assert_eq!(render_path(&q(2), false, &segs), "<T as a::b>::c");
    assert_eq!(render_path(&q(7), false, &segs), "<T as a::b::c>");
    assert_eq!(render_path(&q(1), true, &segs), "<T as ::a>::b::c");
}

#[test]
fn source_that_does_not_lex_is_refused() {
    let fields = vec![field("x", path_type(vec![segment("Vec", "<\"unterminated")]), &["creatable"])];
    let res = generate_crud_for(input("Track", vec![operations(&["create"])], fields));
    assert_eq!(res.err(), Some(CrudError::Lex));
}

#[test]
fn endpoints_are_string_literals() {
    let source = generate_crud_source(input("Track", vec![table_name("a\"b"), operations(&["delete"])], track_fields()));
    assert_eq!(source.err(), Some(CrudError::InvalidIdent("a\"b_endpoints_config".to_string())));
    let source = generate_crud_source(input("Track", vec![table_name("tracks"), operations(&["delete"])], track_fields())).unwrap();
    assert!(source.contains("#[delete(\"/tracks/{id}\")]"));
}

const TRACK_ITEM: &str = r#"
#[derive(Debug, Dummy)]
#[operations("create", "read", "patch", "delete")]
pub struct Track {
    pub id: i32,
    #[creatable]
    #[patchable]
    pub title: String,
    #[creatable]
    pub artist: Option<String>,
    #[patchable]
    pub length: i32,
}
"#;

#[test]
fn derive_input_is_parsed_and_expanded() {
    let item = TokenStream::from_str(TRACK_ITEM).unwrap();
    let tokens = generate_crud(item).ok().unwrap().into_tokens();
    let mut flat = Vec::new();
    flatten(tokens, &mut flat);
    assert_eq!(flat, tokens_of(TRACK_EXPANSION));
}

#[test]
fn unparsable_item_is_reported() {
    let item = TokenStream::from_str("fn not_a_struct() {}").unwrap();
    match generate_crud(item) {
        Err(CrudError::Parse(msg)) => assert!(!msg.is_empty()),
        _ => panic!("expected a parse error"),
    }
}

#[test]
fn parsed_item_refusals() {
    let item = TokenStream::from_str("#[operations(create)] struct Track { id: i32 }").unwrap();
    assert_eq!(generate_crud(item).err(), Some(CrudError::MalformedAttribute("operations".to_string())));
    let item = TokenStream::from_str("#[operations(\"create\")] struct Track { title: String }").unwrap();
    assert_eq!(generate_crud(item).err(), Some(CrudError::NoCreatableField));
    let item = TokenStream::from_str("#[operations(\"create\")] struct Track { #[creatable] t: (i32, i32) }").unwrap();
    assert_eq!(generate_crud(item).err(), Some(CrudError::UnsupportedFieldType("t".to_string())));
    let item = TokenStream::from_str("#[table_name = \"my-songs\"] struct Track { id: i32 }").unwrap();
    assert_eq!(generate_crud(item).err(), Some(CrudError::InvalidIdent("my-songs_endpoints_config".to_string())));
    let item = TokenStream::from_str("enum Track { A }").unwrap();
    assert_eq!(generate_crud(item).err(), Some(CrudError::NotAStruct));
    let item = TokenStream::from_str("struct Track(i32);").unwrap();
    assert_eq!(generate_crud(item).err(), Some(CrudError::NoNamedFields));
}

#[test]
fn parsed_field_types_are_read() {
    let item = TokenStream::from_str(
        "#[operations(\"create\", \"patch\")] struct S { #[creatable] #[patchable] pub(crate) a: std::string::String, #[creatable] b: <T as Tr>::Assoc }",
    )
    .unwrap();
    let source = generate_crud_source(rust_crud::syntax::parse_input(item).ok().unwrap()).unwrap();
    assert!(source.contains("pub (crate) a: &'a std::string::str"));
    assert!(source.contains("b: &'a <T as Tr>::Assoc"));
    assert!(source.contains("pub (crate) a: Option<&'a std >::Option<&'a string >::Option<&'a str >"));
}

#[test]
fn parse_input_builds_the_model_of_the_item() {
    let item = TokenStream::from_str(
        "#[crud::operations(\"read\", a::b, 5)] #[table_name = \"songs\"] #[derive(Debug)] pub struct Song { #[x::creatable] pub title: String, n: i32 }",
    )
    .unwrap();
    let m = match rust_crud::syntax::parse_input(item) {
        Ok(m) => m,
        Err(_) => panic!("expected a model"),
    };
    assert_eq!(m.ident, "Song");
    assert_eq!(m.attrs.len(), 3);
    assert_eq!(m.attrs[0].name, "operations");
    match &m.attrs[0].meta {
        MetaModel::List(items) => {
            assert_eq!(items.len(), 3);
            assert!(matches!(&items[0], NestedMetaModel::Str(s) if s == "read"));
            assert!(matches!(&items[1], NestedMetaModel::Path(p) if p == "b"));
            assert!(matches!(&items[2], NestedMetaModel::Other));
        },
        _ => panic!("expected a list"),
    }
    assert_eq!(m.attrs[1].name, "table_name");
    assert!(matches!(&m.attrs[1].meta, MetaModel::NameValue(LitModel::Str(s)) if s == "songs"));
    assert_eq!(m.attrs[2].name, "derive");
    match &m.data {
        DataModel::Struct(FieldsModel::Named(fields)) => {
            assert_eq!(fields.len(), 2);
            assert_eq!(fields[0].ident, "title");
            assert_eq!(fields[0].vis, "pub");
            assert_eq!(fields[0].attrs, vec!["creatable".to_string()]);
            assert!(matches!(&fields[0].ty, TypeModel::Path(p) if p.segments.len() == 1 && p.segments[0].ident == "String"));
            assert_eq!(fields[1].ident, "n");
            assert_eq!(fields[1].vis, "");
            assert!(fields[1].attrs.is_empty());
        },
        _ => panic!("expected named fields"),
    }
}
