//! The model of a struct's fields and types that the generator reads, the
//! errors it reports, and how types are written back as source text.
use vstd::prelude::*;

verus! {

/// One segment of a type path: its identifier and the source text of its
/// generic arguments (empty when there are none), e.g. `Vec` and `<i32>`.
pub struct PathSegmentModel {
    pub ident: String,
    pub args: String,
}

/// The qualified-self part of a path such as `<T as Trait>::Assoc`: the source
/// text of the self type and how many path segments belong to the trait.
pub struct QSelfModel {
    pub ty: String,
    pub position: usize,
}

/// A type written as a path, e.g. `std::string::String` or `Option<i32>`.
pub struct TypePathModel {
    pub qself: Option<QSelfModel>,
    pub leading_colon: bool,
    pub segments: Vec<PathSegmentModel>,
}

/// The type of a field: a path, or any other kind of type (reference, tuple, ...).
pub enum TypeModel {
    Path(TypePathModel),
    Other,
}

/// A named field of the annotated struct, with the two markers read from its attributes.
pub struct ParsedField {
    pub ident: String,
    pub ty: TypeModel,
    pub vis: String,
    pub creatable: bool,
    pub patchable: bool,
}

/// Holds only the identifier of a field, for places where a field is named
/// rather than declared.
pub struct IdentParsedField {
    pub ident: String,
}

/// Why no code could be generated.
#[derive(Debug, PartialEq, Eq)]
pub enum CrudError {
    /// An attribute could not be read the way its name requires (carries the name).
    MalformedAttribute(String),
    /// A generated name is not an identifier (carries the name).
    InvalidIdent(String),
    /// The annotated item is an enum or a union.
    NotAStruct,
    /// The annotated struct has no named fields (tuple or unit struct).
    NoNamedFields,
    /// A field to be rendered has a type that is not a path (carries the field).
    UnsupportedFieldType(String),
    /// `create` was requested but no field is marked `creatable`.
    NoCreatableField,
    /// `patch` was requested but no field is marked `patchable`.
    NoPatchableField,
    /// The generated source could not be lexed into tokens.
    Lex,
    /// The annotated item could not be parsed (carries the parser's message).
    Parse(String),
}

/// `CrudError` with its texts taken as character sequences.
pub enum CrudErrorView {
    MalformedAttribute(Seq<char>),
    InvalidIdent(Seq<char>),
    NotAStruct,
    NoNamedFields,
    UnsupportedFieldType(Seq<char>),
    NoCreatableField,
    NoPatchableField,
    Lex,
    Parse(Seq<char>),
}

impl View for CrudError {
    type V = CrudErrorView;

    open spec fn view(&self) -> CrudErrorView {
        match self {
            CrudError::MalformedAttribute(s) => CrudErrorView::MalformedAttribute(s@),
            CrudError::InvalidIdent(s) => CrudErrorView::InvalidIdent(s@),
            CrudError::NotAStruct => CrudErrorView::NotAStruct,
            CrudError::NoNamedFields => CrudErrorView::NoNamedFields,
            CrudError::UnsupportedFieldType(s) => CrudErrorView::UnsupportedFieldType(s@),
            CrudError::NoCreatableField => CrudErrorView::NoCreatableField,
            CrudError::NoPatchableField => CrudErrorView::NoPatchableField,
            CrudError::Lex => CrudErrorView::Lex,
            CrudError::Parse(s) => CrudErrorView::Parse(s@),
        }
    }
}

/// The result `res` is the error `e`.
pub open spec fn fails_with<T>(res: Result<T, CrudError>, e: CrudErrorView) -> bool {
    res matches Err(x) && x@ == e
}

/// The views of a sequence of strings.
pub open spec fn texts(v: Seq<String>) -> Seq<Seq<char>> {
    v.map_values(|s: String| s@)
}

/// The items separated by `sep`.
pub open spec fn join(items: Seq<Seq<char>>, sep: Seq<char>) -> Seq<char>
    decreases items.len(),
{
    if items.len() == 0 {
        seq![]
    } else if items.len() == 1 {
        items[0]
    } else {
        join(items.drop_last(), sep) + sep + items.last()
    }
}

/// Joins the strings of `items`, from `lo` up to `hi`, with `sep` between them.
pub fn join_range(items: &Vec<String>, lo: usize, hi: usize, sep: &str) -> (res: String)
    requires
        lo <= hi <= items.len(),
    ensures
        res@ == join(texts(items@).subrange(lo as int, hi as int), sep@),
{
    let mut out = String::new();
    let mut i: usize = lo;
    while i < hi
        invariant
            lo <= i <= hi <= items.len(),
            out@ == join(texts(items@).subrange(lo as int, i as int), sep@),
        decreases hi - i,
    {
        let ghost prev = texts(items@).subrange(lo as int, i as int);
        let ghost next = texts(items@).subrange(lo as int, i + 1);
        assert(next.drop_last() =~= prev);
        assert(next.last() == items@[i as int]@);
        if i > lo {
            out.append(sep);
        }
        out.append(items[i].as_str());
        i = i + 1;
    }
    out
}

/// Joins all of `items` with `sep`.
pub fn join_all(items: &Vec<String>, sep: &str) -> (res: String)
    ensures
        res@ == join(texts(items@), sep@),
{
    let res = join_range(items, 0, items.len(), sep);
    assert(texts(items@).subrange(0, items@.len() as int) =~= texts(items@));
    res
}

/// The text of a path with an optional qualified self, written the way `syn`
/// prints a `TypePath` whose segments print as `segs`.
pub open spec fn path_text(qself: Option<QSelfModel>, leading_colon: bool, segs: Seq<Seq<char>>) -> Seq<char> {
    let lead = if leading_colon { "::"@ } else { Seq::<char>::empty() };
    match qself {
        None => lead + join(segs, "::"@),
        Some(q) => {
            let pos: int = if q.position < segs.len() { q.position as int } else { segs.len() as int };
            if pos > 0 {
                let mid = if pos < segs.len() { "::"@ } else { Seq::<char>::empty() };
                "<"@ + q.ty@ + " as "@ + lead + join(segs.take(pos), "::"@) + ">"@ + mid
                    + join(segs.skip(pos), "::"@)
            } else {
                "<"@ + q.ty@ + ">"@ + lead + join(segs, "::"@)
            }
        },
    }
}

/// Writes a path from the texts of its segments, as `path_text` says.
pub fn render_path(qself: &Option<QSelfModel>, leading_colon: bool, segs: &Vec<String>) -> (res: String)
    ensures
        res@ == path_text(*qself, leading_colon, texts(segs@)),
{
    let n: usize = segs.len();
    let ghost t = texts(segs@);
    let mut out = String::new();
    match qself {
        None => {
            if leading_colon {
                out.append("::");
            }
            let body = join_all(segs, "::");
            out.append(body.as_str());
        },
        Some(q) => {
            let pos: usize = if q.position < n { q.position } else { n };
            out.append("<");
            out.append(q.ty.as_str());
            if pos > 0 {
                out.append(" as ");
                if leading_colon {
                    out.append("::");
                }
                let head = join_range(segs, 0, pos, "::");
                assert(t.subrange(0, pos as int) =~= t.take(pos as int));
                out.append(head.as_str());
                out.append(">");
                if pos < n {
                    out.append("::");
                }
                let tail = join_range(segs, pos, n, "::");
                assert(t.subrange(pos as int, n as int) =~= t.skip(pos as int));
                out.append(tail.as_str());
            } else {
                out.append(">");
                if leading_colon {
                    out.append("::");
                }
                let body = join_all(segs, "::");
                out.append(body.as_str());
            }
        },
    }
    out
}

/// `String` is written as `str` wherever it names a path segment.
pub open spec fn renamed_segment_ident(ident: Seq<char>) -> Seq<char> {
    if ident == "String"@ {
        "str"@
    } else {
        ident
    }
}

/// A segment with `String` renamed to `str`, arguments kept.
pub open spec fn renamed_segment_text(seg: PathSegmentModel) -> Seq<char> {
    renamed_segment_ident(seg.ident@) + seg.args@
}

/// Writes a segment with `String` renamed to `str`.
pub fn render_renamed_segment(seg: &PathSegmentModel) -> (res: String)
    ensures
        res@ == renamed_segment_text(*seg),
{
    let string_name = String::from_str("String");
    let mut out = if seg.ident == string_name {
        String::from_str("str")
    } else {
        seg.ident.clone()
    };
    out.append(seg.args.as_str());
    out
}

/// A reference type `&'lt elem` (or `&elem` without a lifetime), as text.
pub open spec fn ref_type_text(lifetime: Option<Seq<char>>, elem: Seq<char>) -> Seq<char> {
    match lifetime {
        Some(lt) => "&"@ + lt + " "@ + elem,
        None => "&"@ + elem,
    }
}

/// The text of a field (or parameter) declaration `vis ident: ty`.
pub open spec fn field_decl_text(vis: Seq<char>, ident: Seq<char>, ty: Seq<char>) -> Seq<char> {
    vis + " "@ + ident + ": "@ + ty
}

impl IdentParsedField {
    /// The field's identifier, as text.
    pub fn to_tokens(&self) -> (res: String)
        ensures
            res@ == self.ident@,
    {
        self.ident.clone()
    }
}


/// Whether a field carries the marker for the operation: `patchable` for a
/// patch struct, `creatable` for an insertable one.
pub open spec fn is_marked(f: ParsedField, for_patch: bool) -> bool {
    if for_patch {
        f.patchable
    } else {
        f.creatable
    }
}

/// The fields that carry the marker, in their order.
pub open spec fn marked_fields(fs: Seq<ParsedField>, for_patch: bool) -> Seq<ParsedField>
    decreases fs.len(),
{
    if fs.len() == 0 {
        seq![]
    } else {
        let r = marked_fields(fs.drop_last(), for_patch);
        if is_marked(fs.last(), for_patch) {
            r.push(fs.last())
        } else {
            r
        }
    }
}

/// The identifier of the first field whose type is not a path, if any.
pub open spec fn first_non_path(fs: Seq<ParsedField>) -> Option<Seq<char>>
    decreases fs.len(),
{
    if fs.len() == 0 {
        None
    } else {
        match first_non_path(fs.drop_last()) {
            Some(id) => Some(id),
            None => match fs.last().ty {
                TypeModel::Path(_) => None,
                TypeModel::Other => Some(fs.last().ident@),
            },
        }
    }
}

/// Selecting marked fields distributes over concatenation.
pub proof fn lemma_marked_fields_append(a: Seq<ParsedField>, b: Seq<ParsedField>, for_patch: bool)
    ensures
        marked_fields(a + b, for_patch) == marked_fields(a, for_patch) + marked_fields(b, for_patch),
    decreases b.len(),
{
    if b.len() == 0 {
        assert(a + b =~= a);
        assert(marked_fields(a, for_patch) + marked_fields(b, for_patch) =~= marked_fields(a, for_patch));
    } else {
        lemma_marked_fields_append(a, b.drop_last(), for_patch);
        assert((a + b).drop_last() =~= a + b.drop_last());
        assert((a + b).last() == b.last());
        let ma = marked_fields(a, for_patch);
        let mb = marked_fields(b.drop_last(), for_patch);
        assert((ma + mb).push(b.last()) =~= ma + mb.push(b.last()));
    }
}

/// Once a non-path field has been met, what follows does not change which one is first.
pub proof fn lemma_first_non_path_prefix(a: Seq<ParsedField>, b: Seq<ParsedField>)
    requires
        first_non_path(a) is Some,
    ensures
        first_non_path(a + b) == first_non_path(a),
    decreases b.len(),
{
    if b.len() == 0 {
        assert(a + b =~= a);
    } else {
        lemma_first_non_path_prefix(a, b.drop_last());
        assert((a + b).drop_last() =~= a + b.drop_last());
    }
}

/// The texts of the segments of a path with `String` renamed to `str`.
pub open spec fn renamed_segment_texts(t: TypePathModel) -> Seq<Seq<char>> {
    t.segments@.map_values(|s: PathSegmentModel| renamed_segment_text(s))
}

/// The referenced type of a create field: the field's path with `String` renamed to `str`.
pub open spec fn create_elem_text(t: TypePathModel) -> Seq<char> {
    path_text(t.qself, t.leading_colon, renamed_segment_texts(t))
}

/// The texts of a path's segments, each renamed and wrapped as `Option<&'lt segment>`.
pub open spec fn patch_segment_texts(t: TypePathModel, lt: Seq<char>) -> Seq<Seq<char>> {
    t.segments@.map_values(
        |s: PathSegmentModel| "Option<"@ + ref_type_text(Some(lt), renamed_segment_text(s)) + " >"@,
    )
}

/// The type of a patch field: every segment of the field's path wrapped in `Option<&'lt ..>`.
pub open spec fn patch_type_text(t: TypePathModel, lt: Seq<char>) -> Seq<char> {
    path_text(t.qself, t.leading_colon, patch_segment_texts(t, lt))
}


/// The texts of a path's segments as written in the field's type.
pub open spec fn segment_texts(t: TypePathModel) -> Seq<Seq<char>> {
    t.segments@.map_values(|s: PathSegmentModel| s.ident@ + s.args@)
}

/// In the insertable struct, a type none of whose segments is `String` is
/// referenced exactly as it was written.
pub proof fn law_create_type_kept_without_string(t: TypePathModel)
    requires
        forall|i: int| 0 <= i < t.segments@.len() ==> (#[trigger] t.segments@[i]).ident@ != "String"@,
    ensures
        create_elem_text(t) == path_text(t.qself, t.leading_colon, segment_texts(t)),
{
    assert(renamed_segment_texts(t) =~= segment_texts(t));
}

/// The changeset type wraps each segment of the path in `Option<&'lt ..>`,
/// so it has exactly as many segments as the field's type.
pub proof fn law_patch_type_wraps_every_segment(t: TypePathModel, lt: Seq<char>)
    ensures
        patch_segment_texts(t, lt).len() == t.segments@.len(),
        forall|i: int|
            0 <= i < t.segments@.len() ==> #[trigger] patch_segment_texts(t, lt)[i] == "Option<"@ + ref_type_text(
                Some(lt),
                renamed_segment_texts(t)[i],
            ) + " >"@,
{
}
} // verus!
