//! The closed error taxonomy of the macro, its deterministic rendering, and
//! the construction of the `::core::compile_error!` diagnostic fragment.

use vstd::prelude::*;
use vstd::std_specs::convert::FromSpec;
use vstd::string::StringExecFns;

use crate::format_description::IfdModel;
use crate::format_description::InvalidFormatDescription;
use crate::format_description::ifd_text;
use crate::tokens::Delim;
use crate::tokens::Tok;
use crate::tokens::ident;
use crate::tokens::is_ascii_ident;
use crate::tokens::is_negative_lit;
use crate::tokens::paren_group;
use crate::tokens::punct;
use crate::tokens::stream_model;
use crate::tokens::stream_of;
use crate::tokens::string_literal;
use crate::tokens::stream_text;
use crate::tokens::stream_text_from;
use crate::tokens::string_repr;
use crate::tokens::token_text;
use crate::tokens::tree_to_text;
use crate::tokens::tt_model;

verus! {

/// Every way macro-input validation or format-description validation can
/// fail. Exactly one variant is active per value, and each variant owns the
/// data its message needs.
pub enum Error {
    /// A required piece of the format description was absent.
    MissingComponent { name: String },
    /// A piece was present but its value failed validation.
    InvalidComponent { name: String, value: String },
    /// The macro input had to be a single string literal and was not.
    ExpectedString,
    /// The macro input held a token that is not valid at its position; the
    /// token is owned by the error so it can be displayed.
    UnexpectedToken { tree: proc_macro2::TokenTree },
    /// The macro input ended before a required token was found.
    UnexpectedEndOfInput,
    /// The format-description grammar parser failed; wraps its error whole.
    InvalidFormatDescription(InvalidFormatDescription),
    /// An ad-hoc, pre-rendered message.
    Custom(String),
}

/// The mathematical model of an [`Error`] value.
pub ghost enum ErrorModel {
    MissingComponent { name: Seq<char> },
    InvalidComponent { name: Seq<char>, value: Seq<char> },
    ExpectedString,
    UnexpectedToken { tok: Tok },
    UnexpectedEndOfInput,
    InvalidFormatDescription { nested: IfdModel },
    Custom { message: Seq<char> },
}

impl View for Error {
    type V = ErrorModel;

    open spec fn view(&self) -> ErrorModel {
        match self {
            Error::MissingComponent { name } => (ErrorModel::MissingComponent { name: name@ }),
            Error::InvalidComponent { name, value } => (ErrorModel::InvalidComponent {
                name: name@,
                value: value@,
            }),
            Error::ExpectedString => ErrorModel::ExpectedString,
            Error::UnexpectedToken { tree } => (ErrorModel::UnexpectedToken {
                tok: tt_model(*tree),
            }),
            Error::UnexpectedEndOfInput => ErrorModel::UnexpectedEndOfInput,
            Error::InvalidFormatDescription(nested) => (ErrorModel::InvalidFormatDescription {
                nested: nested@,
            }),
            Error::Custom(message) => (ErrorModel::Custom { message: message@ }),
        }
    }
}

/// The rendered message of an error: one fixed template per variant, a
/// function of the variant's fields alone. A wrapped grammar-parser failure
/// renders as exactly the nested domain's own message, with nothing added,
/// and a custom message renders verbatim.
pub open spec fn error_text(e: ErrorModel) -> Seq<char> {
    match e {
        ErrorModel::MissingComponent { name } => "missing component: "@ + name,
        ErrorModel::InvalidComponent { name, value } => "invalid component: "@ + name + " was "@
            + value,
        ErrorModel::ExpectedString => "expected string"@,
        ErrorModel::UnexpectedToken { tok } => "unexpected token: "@ + token_text(tok),
        ErrorModel::UnexpectedEndOfInput => "unexpected end of input"@,
        ErrorModel::InvalidFormatDescription { nested } => ifd_text(nested),
        ErrorModel::Custom { message } => message,
    }
}

/// The diagnostic fragment for a rendered message: the token sequence of
/// `::core::compile_error!("...")`, the path written from the crate root so
/// it resolves whatever is in scope, with the message as the one
/// string-literal argument.
pub open spec fn compile_error_fragment(msg: Seq<char>) -> Seq<Tok> {
    seq![
        Tok::Punct { ch: ':', joint: true },
        Tok::Punct { ch: ':', joint: false },
        Tok::Ident { text: "core"@ },
        Tok::Punct { ch: ':', joint: true },
        Tok::Punct { ch: ':', joint: false },
        Tok::Ident { text: "compile_error"@ },
        Tok::Punct { ch: '!', joint: false },
        Tok::Group { delim: Delim::Paren, inner: seq![Tok::Lit { repr: string_repr(msg) }] },
    ]
}

impl Error {
    /// Renders this error as its message.
    pub fn message(&self) -> (r: String)
        ensures
            r@ == error_text(self@),
    {
        match self {
            Error::MissingComponent { name } => {
                let mut s = "missing component: ".to_owned();
                s.append(name.as_str());
                proof {
                    assert(s@ =~= error_text(self@));
                }
                s
            },
            Error::InvalidComponent { name, value } => {
                let mut s = "invalid component: ".to_owned();
                s.append(name.as_str());
                s.append(" was ");
                s.append(value.as_str());
                proof {
                    assert(s@ =~= error_text(self@));
                }
                s
            },
            Error::ExpectedString => "expected string".to_owned(),
            Error::UnexpectedToken { tree } => {
                let mut s = "unexpected token: ".to_owned();
                let t = tree_to_text(tree);
                s.append(t.as_str());
                proof {
                    assert(s@ =~= error_text(self@));
                }
                s
            },
            Error::UnexpectedEndOfInput => "unexpected end of input".to_owned(),
            Error::InvalidFormatDescription(nested) => nested.message(),
            Error::Custom(message) => message.clone(),
        }
    }

    /// Builds the diagnostic fragment that reports this error: the tokens of
    /// `::core::compile_error!("...")` with this error's rendered message as
    /// the string literal's content.
    pub fn to_compile_error(&self) -> (r: proc_macro2::TokenStream)
        ensures
            stream_model(r) == compile_error_fragment(error_text(self@)),
    {
        proof {
            reveal_strlit("core");
            reveal_strlit("compile_error");
            assert(is_ascii_ident("core"@));
            assert(is_ascii_ident("compile_error"@));
        }
        let msg = self.message();
        let lit = string_literal(msg.as_str());
        proof {
            assert(!is_negative_lit(tt_model(lit)));
        }
        let mut arg: Vec<proc_macro2::TokenTree> = Vec::new();
        arg.push(lit);
        let inner = stream_of(arg);
        let ghost inner_model = stream_model(inner);
        let grp = paren_group(inner);
        let mut toks: Vec<proc_macro2::TokenTree> = Vec::new();
        toks.push(punct(':', true));
        toks.push(punct(':', false));
        toks.push(ident("core"));
        toks.push(punct(':', true));
        toks.push(punct(':', false));
        toks.push(ident("compile_error"));
        toks.push(punct('!', false));
        toks.push(grp);
        let out = stream_of(toks);
        proof {
            let frag = compile_error_fragment(error_text(self@));
            let ms = stream_model(out);
            assert(ms.len() == 8);
            assert(toks@.len() == 8);
            assert(ms[0] == tt_model(toks@[0]) && frag[0] == (Tok::Punct { ch: ':', joint: true }));
            assert(ms[1] == tt_model(toks@[1]));
            assert(ms[2] == tt_model(toks@[2]));
            assert(ms[3] == tt_model(toks@[3]));
            assert(ms[4] == tt_model(toks@[4]));
            assert(ms[5] == tt_model(toks@[5]));
            assert(ms[6] == tt_model(toks@[6]));
            assert(ms[7] == tt_model(toks@[7]));
            assert(inner_model =~= seq![Tok::Lit { repr: string_repr(msg@) }]);
            assert(tt_model(toks@[7]) == (Tok::Group { delim: Delim::Paren, inner: inner_model }));
            assert(ms[7] =~~= frag[7]);
            assert(ms =~~= frag);
        }
        out
    }
}

/// Law: a missing-component error renders as the fixed template
/// `missing component: ` followed by the component's name, for every name.
pub proof fn lemma_missing_component_text(name: Seq<char>)
    ensures
        error_text(ErrorModel::MissingComponent { name }) == "missing component: "@ + name,
{
}

/// Law: an invalid-component error renders as the fixed template
/// `invalid component: {name} was {value}`, for every name and value.
pub proof fn lemma_invalid_component_text(name: Seq<char>, value: Seq<char>)
    ensures
        error_text(ErrorModel::InvalidComponent { name, value }) == "invalid component: "@ + name
            + " was "@ + value,
{
}

/// Law: the variants without fields render as their fixed messages.
pub proof fn lemma_fixed_variant_text()
    ensures
        error_text(ErrorModel::ExpectedString) == "expected string"@,
        error_text(ErrorModel::UnexpectedEndOfInput) == "unexpected end of input"@,
{
}

/// Law: an unexpected-token error embeds the token's own canonical text,
/// verbatim and unmodified, after the fixed prefix.
pub proof fn lemma_unexpected_token_text(tok: Tok)
    ensures
        error_text(ErrorModel::UnexpectedToken { tok }) == "unexpected token: "@ + token_text(tok),
{
}

/// Law: converting a grammar-parser failure into an [`Error`] wraps it whole,
/// and rendering the wrapper yields exactly the nested domain's own message:
/// nothing is added, dropped or summarised.
pub proof fn lemma_conversion_preserves_text(v: InvalidFormatDescription)
    ensures
        Error::from_spec(v) == Error::InvalidFormatDescription(v),
        error_text(Error::from_spec(v)@) == ifd_text(v@),
{
}

/// Law: the fragment constructor is total and never yields an empty or
/// ill-formed sequence: for every message, the fragment is exactly the eight
/// tokens that spell `::core::compile_error!(...)`, the path starting at the
/// crate root.
pub proof fn lemma_fragment_well_formed(msg: Seq<char>)
    ensures
        compile_error_fragment(msg).len() == 8,
        compile_error_fragment(msg)[0] == (Tok::Punct { ch: ':', joint: true }),
        compile_error_fragment(msg)[1] == (Tok::Punct { ch: ':', joint: false }),
        compile_error_fragment(msg)[2] == (Tok::Ident { text: "core"@ }),
        compile_error_fragment(msg)[3] == (Tok::Punct { ch: ':', joint: true }),
        compile_error_fragment(msg)[4] == (Tok::Punct { ch: ':', joint: false }),
        compile_error_fragment(msg)[5] == (Tok::Ident { text: "compile_error"@ }),
        compile_error_fragment(msg)[6] == (Tok::Punct { ch: '!', joint: false }),
        compile_error_fragment(msg)[7] is Group,
{
}

/// Law: the fragment holds exactly one literal token: the string literal
/// whose content is the rendered message, standing alone inside the
/// parenthesised argument group. No other token of the fragment is a literal.
pub proof fn lemma_fragment_single_literal(msg: Seq<char>)
    ensures
        compile_error_fragment(msg)[7] == (Tok::Group {
            delim: Delim::Paren,
            inner: seq![Tok::Lit { repr: string_repr(msg) }],
        }),
        forall|i: int|
            0 <= i < 7 ==> !((#[trigger] compile_error_fragment(msg)[i]) is Lit),
{
    assert forall|i: int| 0 <= i < 7 implies !((#[trigger] compile_error_fragment(msg)[i]) is Lit) by {
        let frag = compile_error_fragment(msg);
        if i == 0 {
            assert(!(frag[0] is Lit));
        } else if i == 1 {
            assert(!(frag[1] is Lit));
        } else if i == 2 {
            assert(!(frag[2] is Lit));
        } else if i == 3 {
            assert(!(frag[3] is Lit));
        } else if i == 4 {
            assert(!(frag[4] is Lit));
        } else if i == 5 {
            assert(!(frag[5] is Lit));
        } else {
            assert(!(frag[6] is Lit));
        }
    }
}

/// Law: rendered as text, the fragment reads as the invocation itself: the
/// fixed prefix `:: core :: compile_error ! (`, then the string literal of
/// the message, then the closing parenthesis.
pub proof fn lemma_fragment_text(msg: Seq<char>)
    ensures
        stream_text(compile_error_fragment(msg)) =~= ":: core :: compile_error ! ("@
            + string_repr(msg) + ")"@,
{
    reveal_strlit(":: core :: compile_error ! (");
    reveal_strlit(")");
    reveal_strlit("core");
    reveal_strlit("compile_error");
    let frag = compile_error_fragment(msg);
    let lit = Tok::Lit { repr: string_repr(msg) };
    assert(stream_text_from(seq![lit], 1) =~= Seq::<char>::empty());
    assert(seq![lit].len() == 1 && seq![lit][0] == lit);
    assert(token_text(lit) == string_repr(msg));
    assert(stream_text_from(seq![lit], 0) =~= string_repr(msg));
    assert(token_text(frag[7]) =~= seq!['('] + string_repr(msg) + seq![')']);
    assert(stream_text_from(frag, 8) =~= Seq::<char>::empty());
    let s7 = stream_text_from(frag, 7);
    assert(s7 =~= token_text(frag[7]));
    let s6 = stream_text_from(frag, 6);
    assert(s6 =~= token_text(frag[6]) + seq![' '] + s7);
    let s5 = stream_text_from(frag, 5);
    assert(s5 =~= token_text(frag[5]) + seq![' '] + s6);
    let s4 = stream_text_from(frag, 4);
    assert(s4 =~= token_text(frag[4]) + seq![' '] + s5);
    let s3 = stream_text_from(frag, 3);
    assert(s3 =~= token_text(frag[3]) + s4);
    let s2 = stream_text_from(frag, 2);
    assert(s2 =~= token_text(frag[2]) + seq![' '] + s3);
    let s1 = stream_text_from(frag, 1);
    assert(s1 =~= token_text(frag[1]) + seq![' '] + s2);
    let s0 = stream_text_from(frag, 0);
    assert(s0 =~= token_text(frag[0]) + s1);
    assert(s0 =~= ":: core :: compile_error ! ("@ + string_repr(msg) + ")"@);
}

impl From<InvalidFormatDescription> for Error {
    /// Wraps a grammar-parser failure whole: total, infallible, and
    /// information-preserving.
    fn from(v: InvalidFormatDescription) -> (r: Self) {
        Error::InvalidFormatDescription(v)
    }
}

impl vstd::std_specs::convert::FromSpecImpl<InvalidFormatDescription> for Error {
    open spec fn obeys_from_spec() -> bool {
        true
    }

    open spec fn from_spec(v: InvalidFormatDescription) -> Error {
        Error::InvalidFormatDescription(v)
    }
}

} // verus!
