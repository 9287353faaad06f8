//! Tokens of the shader language.

use vstd::prelude::*;
use vstd::string::*;
use crate::span::Span;
use crate::text::{chars_eq_str, is_line_text};

verus! {

/// A binary operator, plain or compound with assignment.
#[derive(Clone, Copy, Debug, PartialEq, Eq, Structural)]
pub enum BinOp {
    Add,
    Sub,
    Mul,
    Div,
    Rem,
    And,
    Or,
    BitXor,
    BitAnd,
    BitOr,
    Shl,
    Shr,
    Eq,
    Lt,
    Le,
    Ne,
    Ge,
    Gt,
    AddEq,
    SubEq,
    MulEq,
    DivEq,
    RemEq,
    BitXorEq,
    BitAndEq,
    BitOrEq,
    ShlEq,
    ShrEq,
}

/// A unary operator.
#[derive(Clone, Copy, Debug, PartialEq, Eq, Structural)]
pub enum UnOp {
    Not,
    Neg,
}

/// A word that the grammar sets apart from identifiers.
#[derive(Clone, Copy, Debug, PartialEq, Eq, Structural)]
pub enum Keyword {
    Static,
    Fn,
    Let,
    Return,
    If,
    Else,
    As,
    True,
    False,
    Pub,
    Const,
    Async,
    Unsafe,
    Extern,
    Mut,
    /// A word that the host language reserves and the shader language
    /// does not use.
    Reserved,
}

/// What a token is.
#[derive(Clone, Copy, Debug, PartialEq, Eq, Structural)]
pub enum TokenKind {
    Ident,
    Int,
    Float,
    Keyword(Keyword),
    Op(BinOp),
    Not,
    Assign,
    LParen,
    RParen,
    LBrace,
    RBrace,
    LBracket,
    RBracket,
    Comma,
    Semi,
    Colon,
    PathSep,
    Arrow,
    Dot,
}

/// A token: its kind, its text and its place in the source.
#[derive(Debug)]
pub struct Token {
    pub kind: TokenKind,
    pub text: String,
    pub span: Span,
}

/// A token as the specifications see it.
pub struct TokenV {
    pub kind: TokenKind,
    pub text: Seq<char>,
    pub span: Span,
}

impl TokenV {
    /// The text of the token holds no line feed.
    pub open spec fn wf(self) -> bool {
        is_line_text(self.text)
    }
}

impl Token {
    pub open spec fn view(&self) -> TokenV {
        TokenV { kind: self.kind, text: self.text@, span: self.span }
    }

    /// Whether the text of the token holds no line feed.
    pub fn is_wf(&self) -> (b: bool)
        ensures
            b == self@.wf(),
    {
        let v = crate::text::to_chars(self.text.as_str());
        let mut i: usize = 0;
        while i < v.len()
            invariant
                0 <= i <= v.len(),
                v@ == self.text@,
                forall|j: int| 0 <= j < i ==> v@[j] != '\n',
            decreases v.len() - i,
        {
            if v[i] == '\n' {
                return false;
            }
            i = i + 1;
        }
        true
    }
}

/// The tokens that a vector of `Token` stands for.
pub open spec fn tokens_view(v: Seq<Token>) -> Seq<TokenV> {
    Seq::new(v.len(), |i: int| v[i]@)
}

/// Every token of the sequence is free of line feeds.
pub open spec fn tokens_wf(toks: Seq<TokenV>) -> bool {
    forall|i: int| 0 <= i < toks.len() ==> (#[trigger] toks[i]).wf()
}

/// The place of the first token at or after `from` that holds a line
/// feed, if there is one.
pub open spec fn first_ill_formed(toks: Seq<TokenV>, from: int) -> Option<int>
    decreases toks.len() - from,
{
    if from < 0 || from >= toks.len() {
        None
    } else if !toks[from].wf() {
        Some(from)
    } else {
        first_ill_formed(toks, from + 1)
    }
}

/// The place of the first token that holds a line feed, if there is one.
pub fn find_ill_formed(tokens: &Vec<Token>) -> (r: Option<usize>)
    ensures
        match r {
            Some(i) => first_ill_formed(tokens_view(tokens@), 0) == Some(i as int) && i
                < tokens.len(),
            None => first_ill_formed(tokens_view(tokens@), 0) is None,
        },
        r is None <==> tokens_wf(tokens_view(tokens@)),
{
    let mut i: usize = 0;
    while i < tokens.len()
        invariant
            0 <= i <= tokens.len(),
            forall|j: int| 0 <= j < i ==> (#[trigger] tokens_view(tokens@)[j]).wf(),
            first_ill_formed(tokens_view(tokens@), 0) == first_ill_formed(
                tokens_view(tokens@),
                i as int,
            ),
        decreases tokens.len() - i,
    {
        if !tokens[i].is_wf() {
            assert(!tokens_view(tokens@)[i as int].wf());
            return Some(i);
        }
        i = i + 1;
    }
    None
}

/// Whether every token of `tokens` is free of line feeds.
pub fn check_tokens(tokens: &Vec<Token>) -> (b: bool)
    ensures
        b == tokens_wf(tokens_view(tokens@)),
{
    find_ill_formed(tokens).is_none()
}

impl BinOp {
    /// The operator as it is written, in the shader language and in GLSL.
    pub open spec fn text(self) -> Seq<char> {
        match self {
            BinOp::Add => "+"@,
            BinOp::Sub => "-"@,
            BinOp::Mul => "*"@,
            BinOp::Div => "/"@,
            BinOp::Rem => "%"@,
            BinOp::And => "&&"@,
            BinOp::Or => "||"@,
            BinOp::BitXor => "^"@,
            BinOp::BitAnd => "&"@,
            BinOp::BitOr => "|"@,
            BinOp::Shl => "<<"@,
            BinOp::Shr => ">>"@,
            BinOp::Eq => "=="@,
            BinOp::Lt => "<"@,
            BinOp::Le => "<="@,
            BinOp::Ne => "!="@,
            BinOp::Ge => ">="@,
            BinOp::Gt => ">"@,
            BinOp::AddEq => "+="@,
            BinOp::SubEq => "-="@,
            BinOp::MulEq => "*="@,
            BinOp::DivEq => "/="@,
            BinOp::RemEq => "%="@,
            BinOp::BitXorEq => "^="@,
            BinOp::BitAndEq => "&="@,
            BinOp::BitOrEq => "|="@,
            BinOp::ShlEq => "<<="@,
            BinOp::ShrEq => ">>="@,
        }
    }

    /// The operator assigns to its left operand.
    pub open spec fn is_compound(self) -> bool {
        match self {
            BinOp::AddEq
            | BinOp::SubEq
            | BinOp::MulEq
            | BinOp::DivEq
            | BinOp::RemEq
            | BinOp::BitXorEq
            | BinOp::BitAndEq
            | BinOp::BitOrEq
            | BinOp::ShlEq
            | BinOp::ShrEq => true,
            _ => false,
        }
    }

    /// How tightly the operator binds; 0 for a compound operator.
    pub open spec fn precedence(self) -> nat {
        match self {
            BinOp::Mul | BinOp::Div | BinOp::Rem => 10,
            BinOp::Add | BinOp::Sub => 9,
            BinOp::Shl | BinOp::Shr => 8,
            BinOp::BitAnd => 7,
            BinOp::BitXor => 6,
            BinOp::BitOr => 5,
            BinOp::Eq | BinOp::Lt | BinOp::Le | BinOp::Ne | BinOp::Ge | BinOp::Gt => 4,
            BinOp::And => 3,
            BinOp::Or => 2,
            _ => 0,
        }
    }

    /// The operator as it is written.
    pub fn as_str(&self) -> (s: &'static str)
        ensures
            s@ == self.text(),
    {
        match self {
            BinOp::Add => "+",
            BinOp::Sub => "-",
            BinOp::Mul => "*",
            BinOp::Div => "/",
            BinOp::Rem => "%",
            BinOp::And => "&&",
            BinOp::Or => "||",
            BinOp::BitXor => "^",
            BinOp::BitAnd => "&",
            BinOp::BitOr => "|",
            BinOp::Shl => "<<",
            BinOp::Shr => ">>",
            BinOp::Eq => "==",
            BinOp::Lt => "<",
            BinOp::Le => "<=",
            BinOp::Ne => "!=",
            BinOp::Ge => ">=",
            BinOp::Gt => ">",
            BinOp::AddEq => "+=",
            BinOp::SubEq => "-=",
            BinOp::MulEq => "*=",
            BinOp::DivEq => "/=",
            BinOp::RemEq => "%=",
            BinOp::BitXorEq => "^=",
            BinOp::BitAndEq => "&=",
            BinOp::BitOrEq => "|=",
            BinOp::ShlEq => "<<=",
            BinOp::ShrEq => ">>=",
        }
    }

    /// Whether the operator assigns to its left operand.
    pub fn compound(&self) -> (b: bool)
        ensures
            b == self.is_compound(),
    {
        match self {
            BinOp::AddEq
            | BinOp::SubEq
            | BinOp::MulEq
            | BinOp::DivEq
            | BinOp::RemEq
            | BinOp::BitXorEq
            | BinOp::BitAndEq
            | BinOp::BitOrEq
            | BinOp::ShlEq
            | BinOp::ShrEq => true,
            _ => false,
        }
    }

    /// How tightly the operator binds; 0 for a compound operator.
    pub fn binding(&self) -> (p: u8)
        ensures
            p == self.precedence(),
    {
        match self {
            BinOp::Mul | BinOp::Div | BinOp::Rem => 10,
            BinOp::Add | BinOp::Sub => 9,
            BinOp::Shl | BinOp::Shr => 8,
            BinOp::BitAnd => 7,
            BinOp::BitXor => 6,
            BinOp::BitOr => 5,
            BinOp::Eq | BinOp::Lt | BinOp::Le | BinOp::Ne | BinOp::Ge | BinOp::Gt => 4,
            BinOp::And => 3,
            BinOp::Or => 2,
            _ => 0,
        }
    }
}

impl UnOp {
    /// The operator as it is written.
    pub open spec fn text(self) -> Seq<char> {
        match self {
            UnOp::Not => "!"@,
            UnOp::Neg => "-"@,
        }
    }

    /// The operator as it is written.
    pub fn as_str(&self) -> (s: &'static str)
        ensures
            s@ == self.text(),
    {
        match self {
            UnOp::Not => "!",
            UnOp::Neg => "-",
        }
    }
}

impl Keyword {
    /// The keyword that `text` spells, if it spells one.
    pub open spec fn of_text(text: Seq<char>) -> Option<Keyword> {
        if text == "static"@ {
            Some(Keyword::Static)
        } else if text == "fn"@ {
            Some(Keyword::Fn)
        } else if text == "let"@ {
            Some(Keyword::Let)
        } else if text == "return"@ {
            Some(Keyword::Return)
        } else if text == "if"@ {
            Some(Keyword::If)
        } else if text == "else"@ {
            Some(Keyword::Else)
        } else if text == "as"@ {
            Some(Keyword::As)
        } else if text == "true"@ {
            Some(Keyword::True)
        } else if text == "false"@ {
            Some(Keyword::False)
        } else if text == "pub"@ {
            Some(Keyword::Pub)
        } else if text == "const"@ {
            Some(Keyword::Const)
        } else if text == "async"@ {
            Some(Keyword::Async)
        } else if text == "unsafe"@ {
            Some(Keyword::Unsafe)
        } else if text == "extern"@ {
            Some(Keyword::Extern)
        } else if text == "mut"@ {
            Some(Keyword::Mut)
        } else if Self::is_reserved(text) {
            Some(Keyword::Reserved)
        } else {
            None
        }
    }

    /// `text` is a word that the host language reserves and the shader
    /// language does not use.
    pub open spec fn is_reserved(text: Seq<char>) -> bool {
        text == "break"@
        || text == "continue"@
        || text == "crate"@
        || text == "enum"@
        || text == "for"@
        || text == "impl"@
        || text == "in"@
        || text == "loop"@
        || text == "match"@
        || text == "mod"@
        || text == "move"@
        || text == "ref"@
        || text == "self"@
        || text == "Self"@
        || text == "struct"@
        || text == "super"@
        || text == "trait"@
        || text == "type"@
        || text == "use"@
        || text == "where"@
        || text == "while"@
        || text == "await"@
        || text == "dyn"@
    }

    /// The keyword that the characters of `v` from `lo` up to `hi` spell.
    pub fn of_chars(v: &Vec<char>, lo: usize, hi: usize) -> (r: Option<Keyword>)
        requires
            lo <= hi <= v.len(),
        ensures
            r == Self::of_text(v@.subrange(lo as int, hi as int)),
    {
        if chars_eq_str(v, lo, hi, "static") {
            Some(Keyword::Static)
        } else if chars_eq_str(v, lo, hi, "fn") {
            Some(Keyword::Fn)
        } else if chars_eq_str(v, lo, hi, "let") {
            Some(Keyword::Let)
        } else if chars_eq_str(v, lo, hi, "return") {
            Some(Keyword::Return)
        } else if chars_eq_str(v, lo, hi, "if") {
            Some(Keyword::If)
        } else if chars_eq_str(v, lo, hi, "else") {
            Some(Keyword::Else)
        } else if chars_eq_str(v, lo, hi, "as") {
            Some(Keyword::As)
        } else if chars_eq_str(v, lo, hi, "true") {
            Some(Keyword::True)
        } else if chars_eq_str(v, lo, hi, "false") {
            Some(Keyword::False)
        } else if chars_eq_str(v, lo, hi, "pub") {
            Some(Keyword::Pub)
        } else if chars_eq_str(v, lo, hi, "const") {
            Some(Keyword::Const)
        } else if chars_eq_str(v, lo, hi, "async") {
            Some(Keyword::Async)
        } else if chars_eq_str(v, lo, hi, "unsafe") {
            Some(Keyword::Unsafe)
        } else if chars_eq_str(v, lo, hi, "extern") {
            Some(Keyword::Extern)
        } else if chars_eq_str(v, lo, hi, "mut") {
            Some(Keyword::Mut)
        } else if chars_eq_str(v, lo, hi, "break")
            || chars_eq_str(v, lo, hi, "continue")
            || chars_eq_str(v, lo, hi, "crate")
            || chars_eq_str(v, lo, hi, "enum")
            || chars_eq_str(v, lo, hi, "for")
            || chars_eq_str(v, lo, hi, "impl")
            || chars_eq_str(v, lo, hi, "in")
            || chars_eq_str(v, lo, hi, "loop")
            || chars_eq_str(v, lo, hi, "match")
            || chars_eq_str(v, lo, hi, "mod")
            || chars_eq_str(v, lo, hi, "move")
            || chars_eq_str(v, lo, hi, "ref")
            || chars_eq_str(v, lo, hi, "self")
            || chars_eq_str(v, lo, hi, "Self")
            || chars_eq_str(v, lo, hi, "struct")
            || chars_eq_str(v, lo, hi, "super")
            || chars_eq_str(v, lo, hi, "trait")
            || chars_eq_str(v, lo, hi, "type")
            || chars_eq_str(v, lo, hi, "use")
            || chars_eq_str(v, lo, hi, "where")
            || chars_eq_str(v, lo, hi, "while")
            || chars_eq_str(v, lo, hi, "await")
            || chars_eq_str(v, lo, hi, "dyn") {
            Some(Keyword::Reserved)
        } else {
            None
        }
    }
}

/// The text of an operator holds no line feed.
pub proof fn lemma_op_text_is_line_text(op: BinOp)
    ensures
        is_line_text(op.text()),
{
    reveal_strlit("+");
    reveal_strlit("-");
    reveal_strlit("*");
    reveal_strlit("/");
    reveal_strlit("%");
    reveal_strlit("&&");
    reveal_strlit("||");
    reveal_strlit("^");
    reveal_strlit("&");
    reveal_strlit("|");
    reveal_strlit("<<");
    reveal_strlit(">>");
    reveal_strlit("==");
    reveal_strlit("<");
    reveal_strlit("<=");
    reveal_strlit("!=");
    reveal_strlit(">=");
    reveal_strlit(">");
    reveal_strlit("+=");
    reveal_strlit("-=");
    reveal_strlit("*=");
    reveal_strlit("/=");
    reveal_strlit("%=");
    reveal_strlit("^=");
    reveal_strlit("&=");
    reveal_strlit("|=");
    reveal_strlit("<<=");
    reveal_strlit(">>=");
}

/// The text of a unary operator holds no line feed.
pub proof fn lemma_unop_text_is_line_text(op: UnOp)
    ensures
        is_line_text(op.text()),
{
    reveal_strlit("!");
    reveal_strlit("-");
}

} // verus!
