//! A mathematical model of the host's syntax tokens, and the trusted surface
//! over `proc_macro2` through which the diagnostic fragment is assembled.
//!
//! A token stream is modelled as a sequence of [`Tok`] values; the model of a
//! stream or tree built by the functions below is pinned by their contracts,
//! and the canonical text of a token is the spec function [`token_text`],
//! which states the documented rendering of `proc_macro2` exactly.

use vstd::prelude::*;

verus! {

/// The delimiter of a group token.
pub ghost enum Delim {
    Paren,
    Brace,
    Bracket,
    Invisible,
}

/// The mathematical model of one syntax token: a punctuation character with
/// its spacing, an identifier (a raw identifier's text includes its `r#`
/// prefix), a literal given by its source text, or a delimited group of
/// tokens.
#[verifier::ext_equal]
pub ghost enum Tok {
    Punct { ch: char, joint: bool },
    Ident { text: Seq<char> },
    Lit { repr: Seq<char> },
    Group { delim: Delim, inner: Seq<Tok> },
}

/// The tokens a `proc_macro2::TokenStream` holds, in order.
pub uninterp spec fn stream_model(s: proc_macro2::TokenStream) -> Seq<Tok>;

/// The structure of a `proc_macro2::TokenTree`.
pub uninterp spec fn tt_model(t: proc_macro2::TokenTree) -> Tok;

/// The source text of the string literal whose content is `s`: the content
/// between quotes, with the characters that `proc_macro2::Literal::string`
/// escapes rewritten as escape sequences.
pub uninterp spec fn string_repr(s: Seq<char>) -> Seq<char>;

#[verifier::external_type_specification]
#[verifier::external_body]
pub struct ExTokenStream(proc_macro2::TokenStream);

#[verifier::external_type_specification]
#[verifier::external_body]
pub struct ExTokenTree(proc_macro2::TokenTree);

/// The punctuation characters the host language permits in a `Punct` token.
pub open spec fn is_punct_char(c: char) -> bool {
    c == '!' || c == '#' || c == '$' || c == '%' || c == '&' || c == '\'' || c == '*' || c == '+'
        || c == ',' || c == '-' || c == '.' || c == '/' || c == ':' || c == ';' || c == '<' || c
        == '=' || c == '>' || c == '?' || c == '@' || c == '^' || c == '|' || c == '~'
}

pub open spec fn is_ascii_ident_start(c: char) -> bool {
    ('a' <= c && c <= 'z') || ('A' <= c && c <= 'Z') || c == '_'
}

pub open spec fn is_ascii_ident_continue(c: char) -> bool {
    is_ascii_ident_start(c) || ('0' <= c && c <= '9')
}

/// An ASCII identifier: a letter or underscore followed by letters, digits
/// and underscores. Every such string is an identifier the host accepts.
pub open spec fn is_ascii_ident(s: Seq<char>) -> bool {
    &&& s.len() > 0
    &&& is_ascii_ident_start(s[0])
    &&& forall|i: int| 0 < i < s.len() ==> is_ascii_ident_continue(#[trigger] s[i])
}

/// Whether a token is a punctuation token marked as joined to the next token.
pub open spec fn is_joint_punct(t: Tok) -> bool {
    match t {
        Tok::Punct { ch: _, joint } => joint,
        _ => false,
    }
}

/// Whether a token is a literal whose source text begins with a minus sign.
pub open spec fn is_negative_lit(t: Tok) -> bool {
    match t {
        Tok::Lit { repr } => repr.len() > 0 && repr[0] == '-',
        _ => false,
    }
}

/// The canonical text of one token: the character of a punctuation token, the
/// text of an identifier, the source text of a literal, and a group's tokens
/// between its delimiters (a brace group pads its contents with one space on
/// each side; an invisible delimiter prints nothing).
pub open spec fn token_text(t: Tok) -> Seq<char>
    decreases t, 0int,
{
    match t {
        Tok::Punct { ch, joint: _ } => seq![ch],
        Tok::Ident { text } => text,
        Tok::Lit { repr } => repr,
        Tok::Group { delim, inner } => match delim {
            Delim::Paren => seq!['('] + stream_text_from(inner, 0) + seq![')'],
            Delim::Brace => seq!['{', ' '] + stream_text_from(inner, 0) + (if inner.len() > 0 {
                seq![' ', '}']
            } else {
                seq!['}']
            }),
            Delim::Bracket => seq!['['] + stream_text_from(inner, 0) + seq![']'],
            Delim::Invisible => stream_text_from(inner, 0),
        },
    }
}

/// The canonical text of tokens `i..` of a stream: the tokens' texts with one
/// space between neighbours, except that no space follows a punctuation token
/// marked joint.
pub open spec fn stream_text_from(toks: Seq<Tok>, i: int) -> Seq<char>
    decreases toks, toks.len() - i,
{
    if i < 0 || i >= toks.len() {
        Seq::empty()
    } else {
        let sep: Seq<char> = if i + 1 < toks.len() && !is_joint_punct(toks[i]) {
            seq![' ']
        } else {
            Seq::empty()
        };
        token_text(toks[i]) + sep + stream_text_from(toks, i + 1)
    }
}

/// The canonical text of a whole stream.
pub open spec fn stream_text(toks: Seq<Tok>) -> Seq<char> {
    stream_text_from(toks, 0)
}

/// Relies on `proc_macro2::Punct::new`, which panics only on a character
/// outside the permitted punctuation set and otherwise returns a punctuation
/// token of that character and spacing.
#[verifier::external_body]
pub(crate) fn punct(ch: char, joint: bool) -> (r: proc_macro2::TokenTree)
    requires
        is_punct_char(ch),
    ensures
        tt_model(r) == (Tok::Punct { ch, joint }),
{
    let spacing = if joint {
        proc_macro2::Spacing::Joint
    } else {
        proc_macro2::Spacing::Alone
    };
    proc_macro2::TokenTree::Punct(proc_macro2::Punct::new(ch, spacing))
}

/// Relies on `proc_macro2::Ident::new` with `Span::call_site`, which panics
/// only on text that is not an identifier (every nonempty ASCII
/// letter-digit-underscore string starting with a letter or underscore is
/// one) and otherwise returns a non-raw identifier token of that text.
#[verifier::external_body]
pub(crate) fn ident(name: &str) -> (r: proc_macro2::TokenTree)
    requires
        is_ascii_ident(name@),
    ensures
        tt_model(r) == (Tok::Ident { text: name@ }),
{
    proc_macro2::TokenTree::Ident(proc_macro2::Ident::new(name, proc_macro2::Span::call_site()))
}

/// Relies on `proc_macro2::Literal::string`, which never panics and returns a
/// string literal whose source text is the argument's content between double
/// quotes with the characters it escapes rewritten as escape sequences; in
/// particular that source text begins and ends with a double quote.
#[verifier::external_body]
pub(crate) fn string_literal(value: &str) -> (r: proc_macro2::TokenTree)
    ensures
        tt_model(r) == (Tok::Lit { repr: string_repr(value@) }),
        token_text(tt_model(r)).len() >= 2,
        token_text(tt_model(r))[0] == '"',
        token_text(tt_model(r))[token_text(tt_model(r)).len() - 1] == '"',
{
    proc_macro2::TokenTree::Literal(proc_macro2::Literal::string(value))
}

/// Relies on `proc_macro2::Group::new`, which never panics and returns a
/// group token holding the given stream between the given delimiters.
#[verifier::external_body]
pub(crate) fn paren_group(stream: proc_macro2::TokenStream) -> (r: proc_macro2::TokenTree)
    ensures
        tt_model(r) == (Tok::Group { delim: Delim::Paren, inner: stream_model(stream) }),
{
    proc_macro2::TokenTree::Group(
        proc_macro2::Group::new(proc_macro2::Delimiter::Parenthesis, stream),
    )
}

/// Relies on `proc_macro2::TokenStream`'s `FromIterator` over token trees,
/// which appends each tree in order; a literal whose source text begins with
/// a minus sign would instead be split into two tokens, so those are
/// excluded.
#[verifier::external_body]
pub(crate) fn stream_of(tokens: Vec<proc_macro2::TokenTree>) -> (r: proc_macro2::TokenStream)
    requires
        forall|i: int| 0 <= i < tokens@.len() ==> !is_negative_lit(tt_model(#[trigger] tokens@[i])),
    ensures
        stream_model(r) == tokens@.map_values(|t: proc_macro2::TokenTree| tt_model(t)),
{
    tokens.into_iter().collect()
}

/// Relies on the `Display` of `proc_macro2::TokenTree`: the token's canonical
/// text, a function of the token's structure alone.
#[verifier::external_body]
pub(crate) fn tree_to_text(tree: &proc_macro2::TokenTree) -> (r: String)
    ensures
        r@ == token_text(tt_model(*tree)),
{
    tree.to_string()
}

} // verus!
