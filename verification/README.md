# rust_crud

A verified generator for basic CRUD code. Given the definition of a struct
(its name, its outer attributes and its named fields), it produces the code
that `#[derive(GenerateCrud)]` expands to:

- the traits `Generate` and `FromMultiple`;
- for `create`: an insertable struct `New<Struct>` holding references to the
  fields marked `#[creatable]` (`String` becomes `str`), conversions into it,
  the Diesel functions `create`, `create_multiple`, `create_from`, and a
  `POST /<table>` endpoint;
- for `read`: `read` and `get`, with `GET /<table>/{id}` and `GET /<table>`;
- for `patch`: a changeset struct `Patch<Struct>` whose fields (those marked
  `#[patchable]`) are all `Option<&'a ..>`, the function `patch`, and a
  `PATCH /<table>/{id}` endpoint;
- for `delete`: `delete` and `DELETE /<table>/{id}`;
- an `impl Generate` when the struct derives `Dummy`;
- `<table>_endpoints_config`, which registers every generated endpoint.

The table is the `#[table_name = ".."]` attribute, or the struct name in
lower case (`str::to_lowercase`) followed by `s` (`TrackItem` gives
`trackitems`, `Élan` gives `élans`).

Layout:

- `src/` is the library, verified with Verus. `generate_crud_source` states
  exactly which source text is produced (or which error is reported) for every
  input; `generate_crud` parses the derive input with `syn` into the
  library's model (`src/input.rs`), generates that text and lexes it into a
  `proc_macro2::TokenStream`. `src/syntax.rs` holds the calls into `syn`,
  `src/lexical.rs` those into `proc-macro2` and `unicode-ident`.
- `app/lib.rs` is the derive entry point: it turns a parse error into
  `compile_error!` and the other errors into panics, as a derive macro
  reports them.
- `tests/` runs the library on concrete structs.
