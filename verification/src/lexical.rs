//! The points where the generator meets `proc-macro2` and `unicode-ident`:
//! the spelling of string literals, the XID character classes that decide
//! what an identifier is, and the lexing of the generated source into tokens.
use vstd::prelude::*;

verus! {

/// `proc_macro2::TokenStream`, carried through opaquely.
#[verifier::external_type_specification]
#[verifier::external_body]
pub struct ExTokenStream(proc_macro2::TokenStream);

/// `proc_macro2::LexError`, carried through opaquely.
#[verifier::external_type_specification]
#[verifier::external_body]
pub struct ExLexError(proc_macro2::LexError);

/// Whether `unicode_ident::is_xid_start` holds of `c`.
pub uninterp spec fn xid_start(c: char) -> bool;

/// Whether `unicode_ident::is_xid_continue` holds of `c`.
pub uninterp spec fn xid_continue(c: char) -> bool;

/// Whether `proc_macro2`'s own lexer accepts `text`. Outside a procedural
/// macro it is the only lexer used; inside one, `proc_macro2` runs it first and
/// refuses the text if it fails, before also asking the compiler.
pub uninterp spec fn lexes(text: Seq<char>) -> bool;

/// The text `char::escape_debug(c)` yields.
pub uninterp spec fn escape_debug_text(c: char) -> Seq<char>;

/// An ASCII letter.
pub open spec fn is_ascii_alpha(c: char) -> bool {
    ('A' <= c && c <= 'Z') || ('a' <= c && c <= 'z')
}

/// Calls `char::escape_debug(c)` and collects the characters it yields. Beyond
/// naming the result, the contract states what the documentation of the std
/// escapes lists: tab, carriage return, line feed, backslash and both quotes get
/// a backslash escape, and any other printable ASCII character stays as it is.
/// What other characters become is left unsaid.
#[verifier::external_body]
pub(crate) fn escape_debug(c: char) -> (res: String)
    ensures
        res@ == escape_debug_text(c),
        c == '\t' ==> res@ == seq!['\\', 't'],
        c == '\r' ==> res@ == seq!['\\', 'r'],
        c == '\n' ==> res@ == seq!['\\', 'n'],
        c == '\\' || c == '"' || c == '\'' ==> res@ == seq!['\\', c],
        ' ' <= c <= '~' && c != '\\' && c != '"' && c != '\'' ==> res@ == seq![c],
{
    c.escape_debug().to_string()
}

/// Calls `unicode_ident::is_xid_start(c)`; the contract names its answer and
/// states what the crate's ASCII table holds: among ASCII characters exactly
/// the letters are XID_Start.
#[verifier::external_body]
pub(crate) fn is_xid_start(c: char) -> (res: bool)
    ensures
        res == xid_start(c),
        (c as u32) < 128 ==> (res <==> is_ascii_alpha(c)),
{
    unicode_ident::is_xid_start(c)
}

/// Calls `unicode_ident::is_xid_continue(c)`; the contract names its answer and
/// states what the crate's ASCII table holds: among ASCII characters exactly
/// the letters, the digits and `_` are XID_Continue.
#[verifier::external_body]
pub(crate) fn is_xid_continue(c: char) -> (res: bool)
    ensures
        res == xid_continue(c),
        (c as u32) < 128 ==> (res <==> is_ascii_alpha(c) || ('0' <= c && c <= '9') || c == '_'),
{
    unicode_ident::is_xid_continue(c)
}

/// Calls `<proc_macro2::TokenStream as FromStr>::from_str(text)`. The contract
/// says only that success needs `proc_macro2`'s own lexer to accept the text
/// (inside a procedural macro the compiler must accept it too, which is left
/// unsaid); the tokens are opaque to Verus.
#[verifier::external_body]
fn lex_source(text: &str) -> (res: Result<proc_macro2::TokenStream, proc_macro2::LexError>)
    ensures
        res is Ok ==> lexes(text@),
{
    text.parse::<proc_macro2::TokenStream>()
}

/// Tokens together with the source text they were lexed from. Only `lex`
/// makes one, from what lexing that text returned; which tokens that is, is
/// not stated (inside a procedural macro the compiler produces them).
pub struct LexedSource {
    tokens: proc_macro2::TokenStream,
    source: Ghost<Seq<char>>,
}

impl LexedSource {
    /// The text the tokens were lexed from.
    pub closed spec fn source(self) -> Seq<char> {
        self.source@
    }

    /// The tokens.
    pub fn into_tokens(self) -> proc_macro2::TokenStream {
        self.tokens
    }
}

/// Lexes `text` into tokens, recording the text they come from.
pub fn lex(text: &str) -> (res: Result<LexedSource, proc_macro2::LexError>)
    ensures
        res matches Ok(x) ==> x.source() == text@ && lexes(text@),
{
    match lex_source(text) {
        Ok(tokens) => Ok(LexedSource { tokens, source: Ghost(text@) }),
        Err(e) => Err(e),
    }
}

/// The piece of the literal for the character at `i`: NUL is `\0`, or `\x00`
/// when an octal digit follows; `'` stays as it is; anything else as
/// `char::escape_debug` writes it.
pub open spec fn escape_piece(s: Seq<char>, i: int) -> Seq<char> {
    let c = s[i];
    if c == '\0' {
        if i + 1 < s.len() && '0' <= s[i + 1] && s[i + 1] <= '7' {
            seq!['\\', 'x', '0', '0']
        } else {
            seq!['\\', '0']
        }
    } else if c == '\'' {
        seq![c]
    } else {
        escape_debug_text(c)
    }
}

/// The escaped text of the first `k` characters of `s`.
pub open spec fn escaped_prefix(s: Seq<char>, k: nat) -> Seq<char>
    decreases k,
{
    if k == 0 {
        seq![]
    } else {
        escaped_prefix(s, (k - 1) as nat) + escape_piece(s, k - 1)
    }
}

/// A string literal with the value `value`, spelled as `proc_macro2` spells
/// `Literal::string(value)` outside a procedural macro: quotes around the
/// escaped characters.
pub open spec fn str_literal_spelling(value: Seq<char>) -> Seq<char> {
    seq!['"'] + escaped_prefix(value, value.len()) + seq!['"']
}

/// Writes `value` as a string literal, as `str_literal_spelling` says.
pub fn string_literal(value: &str) -> (res: String)
    ensures
        res@ == str_literal_spelling(value@),
{
    let n: usize = value.unicode_len();
    let mut out = String::new();
    push_char(&mut out, '"');
    let mut i: usize = 0;
    while i < n
        invariant
            n == value@.len(),
            i <= n,
            out@ == seq!['"'] + escaped_prefix(value@, i as nat),
        decreases n - i,
    {
        let c = value.get_char(i);
        if c == '\0' {
            let octal_next = i + 1 < n && {
                let d = value.get_char(i + 1);
                '0' <= d && d <= '7'
            };
            if octal_next {
                out.append("\\x00");
                proof { reveal_strlit("\\x00"); }
                assert("\\x00"@ =~= seq!['\\', 'x', '0', '0']);
            } else {
                out.append("\\0");
                proof { reveal_strlit("\\0"); }
                assert("\\0"@ =~= seq!['\\', '0']);
            }
        } else if c == '\'' {
            push_char(&mut out, c);
        } else {
            let piece = escape_debug(c);
            out.append(piece.as_str());
        }
        assert(out@ =~= seq!['"'] + escaped_prefix(value@, (i + 1) as nat));
        i = i + 1;
    }
    push_char(&mut out, '"');
    out
}

/// Calls `String::push(s, c)`, which appends one character.
#[verifier::external_body]
pub(crate) fn push_char(s: &mut String, c: char)
    ensures
        final(s)@ == old(s)@.push(c),
{
    s.push(c)
}

} // verus!
