//! The lexer: from the characters of the source to tokens.
//!
//! White space and comments part tokens and are dropped: line comments,
//! `//` up to the end of the line, and block comments, `/*` up to the
//! `*/` that closes it, which nest. A word is a keyword or an identifier; a numeral
//! is an integer, or a float where a dot and a digit follow its digits,
//! and the other numerals of the host language are refused;
//! operators are read greedily, the longest first. Any other character is
//! refused.

use vstd::prelude::*;
use vstd::string::*;
use crate::error::{ErrorKind, ParseError};
use crate::number::{digit_of, is_digit};
use crate::span::Span;
use crate::text::{find_char, find_in, is_line_text, to_chars};
use crate::token::{BinOp, Keyword, Token, TokenKind, TokenV, tokens_view, tokens_wf};

verus! {

/// `c` is white space.
pub open spec fn is_space(c: char) -> bool {
    c == ' ' || c == '\t' || c == '\n' || c == '\r'
}

/// `c` may start a word.
pub open spec fn is_ident_start(c: char) -> bool {
    ('a' <= c && c <= 'z') || ('A' <= c && c <= 'Z') || c == '_'
}

/// `c` may stand in a word.
pub open spec fn is_ident_continue(c: char) -> bool {
    is_ident_start(c) || is_digit(c)
}

/// The operator of three characters that `c0`, `c1`, `c2` spell.
pub open spec fn punct3(c0: char, c1: char, c2: char) -> Option<TokenKind> {
    if c0 == '<' && c1 == '<' && c2 == '=' {
        Some(TokenKind::Op(BinOp::ShlEq))
    } else if c0 == '>' && c1 == '>' && c2 == '=' {
        Some(TokenKind::Op(BinOp::ShrEq))
    } else {
        None
    }
}

/// The operator of two characters that `c0`, `c1` spell.
pub open spec fn punct2(c0: char, c1: char) -> Option<TokenKind> {
    if c0 == '=' && c1 == '=' {
        Some(TokenKind::Op(BinOp::Eq))
    } else if c0 == '!' && c1 == '=' {
        Some(TokenKind::Op(BinOp::Ne))
    } else if c0 == '<' && c1 == '=' {
        Some(TokenKind::Op(BinOp::Le))
    } else if c0 == '>' && c1 == '=' {
        Some(TokenKind::Op(BinOp::Ge))
    } else if c0 == '&' && c1 == '&' {
        Some(TokenKind::Op(BinOp::And))
    } else if c0 == '|' && c1 == '|' {
        Some(TokenKind::Op(BinOp::Or))
    } else if c0 == '<' && c1 == '<' {
        Some(TokenKind::Op(BinOp::Shl))
    } else if c0 == '>' && c1 == '>' {
        Some(TokenKind::Op(BinOp::Shr))
    } else if c0 == '+' && c1 == '=' {
        Some(TokenKind::Op(BinOp::AddEq))
    } else if c0 == '-' && c1 == '=' {
        Some(TokenKind::Op(BinOp::SubEq))
    } else if c0 == '*' && c1 == '=' {
        Some(TokenKind::Op(BinOp::MulEq))
    } else if c0 == '/' && c1 == '=' {
        Some(TokenKind::Op(BinOp::DivEq))
    } else if c0 == '%' && c1 == '=' {
        Some(TokenKind::Op(BinOp::RemEq))
    } else if c0 == '^' && c1 == '=' {
        Some(TokenKind::Op(BinOp::BitXorEq))
    } else if c0 == '&' && c1 == '=' {
        Some(TokenKind::Op(BinOp::BitAndEq))
    } else if c0 == '|' && c1 == '=' {
        Some(TokenKind::Op(BinOp::BitOrEq))
    } else if c0 == '-' && c1 == '>' {
        Some(TokenKind::Arrow)
    } else if c0 == ':' && c1 == ':' {
        Some(TokenKind::PathSep)
    } else {
        None
    }
}

/// The operator or delimiter that the character `c0` spells.
pub open spec fn punct1(c0: char) -> Option<TokenKind> {
    if c0 == '+' {
        Some(TokenKind::Op(BinOp::Add))
    } else if c0 == '-' {
        Some(TokenKind::Op(BinOp::Sub))
    } else if c0 == '*' {
        Some(TokenKind::Op(BinOp::Mul))
    } else if c0 == '/' {
        Some(TokenKind::Op(BinOp::Div))
    } else if c0 == '%' {
        Some(TokenKind::Op(BinOp::Rem))
    } else if c0 == '^' {
        Some(TokenKind::Op(BinOp::BitXor))
    } else if c0 == '&' {
        Some(TokenKind::Op(BinOp::BitAnd))
    } else if c0 == '|' {
        Some(TokenKind::Op(BinOp::BitOr))
    } else if c0 == '<' {
        Some(TokenKind::Op(BinOp::Lt))
    } else if c0 == '>' {
        Some(TokenKind::Op(BinOp::Gt))
    } else if c0 == '!' {
        Some(TokenKind::Not)
    } else if c0 == '=' {
        Some(TokenKind::Assign)
    } else if c0 == '(' {
        Some(TokenKind::LParen)
    } else if c0 == ')' {
        Some(TokenKind::RParen)
    } else if c0 == '{' {
        Some(TokenKind::LBrace)
    } else if c0 == '}' {
        Some(TokenKind::RBrace)
    } else if c0 == '[' {
        Some(TokenKind::LBracket)
    } else if c0 == ']' {
        Some(TokenKind::RBracket)
    } else if c0 == ',' {
        Some(TokenKind::Comma)
    } else if c0 == ';' {
        Some(TokenKind::Semi)
    } else if c0 == ':' {
        Some(TokenKind::Colon)
    } else if c0 == '.' {
        Some(TokenKind::Dot)
    } else {
        None
    }
}

/// Where the word characters that start at `pos` end.
pub open spec fn ident_end(s: Seq<char>, pos: int) -> int
    decreases s.len() - pos,
{
    if 0 <= pos < s.len() && is_ident_continue(s[pos]) {
        ident_end(s, pos + 1)
    } else {
        pos
    }
}

/// Where the digits that start at `pos` end.
pub open spec fn digits_end(s: Seq<char>, pos: int) -> int
    decreases s.len() - pos,
{
    if 0 <= pos < s.len() && is_digit(s[pos]) {
        digits_end(s, pos + 1)
    } else {
        pos
    }
}

/// A block comment opens at `pos`.
pub open spec fn opens_comment(s: Seq<char>, pos: int) -> bool {
    0 <= pos && pos + 1 < s.len() && s[pos] == '/' && s[pos + 1] == '*'
}

/// Where the block comment ends whose text goes on at `pos`, `depth`
/// comments deep: after the `*/` that closes the outermost of them. Block
/// comments nest. `None` where the source ends before that.
pub open spec fn comment_end(s: Seq<char>, pos: int, depth: nat) -> Option<int>
    decreases s.len() - pos,
{
    if pos < 0 || pos + 1 >= s.len() {
        None
    } else if s[pos] == '*' && s[pos + 1] == '/' {
        if depth <= 1 {
            Some(pos + 2)
        } else {
            comment_end(s, pos + 2, (depth - 1) as nat)
        }
    } else if s[pos] == '/' && s[pos + 1] == '*' {
        comment_end(s, pos + 2, depth + 1)
    } else {
        comment_end(s, pos + 1, depth)
    }
}

/// Where the white space and comments that start at `pos` end. A block
/// comment that the source does not close is no comment: the white space
/// ends before it.
pub open spec fn trivia_end(s: Seq<char>, pos: int) -> int
    decreases s.len() - pos,
{
    if pos < 0 || pos >= s.len() {
        pos
    } else if is_space(s[pos]) {
        trivia_end(s, pos + 1)
    } else if s[pos] == '/' && pos + 1 < s.len() && s[pos + 1] == '/' {
        let end = find_in(s, pos + 2, s.len() as int, '\n');
        if pos < end <= s.len() {
            trivia_end(s, end)
        } else {
            pos
        }
    } else if opens_comment(s, pos) {
        match comment_end(s, pos + 2, 1) {
            Some(end) => if pos < end <= s.len() {
                trivia_end(s, end)
            } else {
                pos
            },
            None => pos,
        }
    } else {
        pos
    }
}

/// The word at `pos`: its kind and its end.
pub open spec fn word_at(s: Seq<char>, pos: int) -> (TokenKind, int) {
    let end = ident_end(s, pos);
    match Keyword::of_text(s.subrange(pos, end)) {
        Some(k) => (TokenKind::Keyword(k), end),
        None => (TokenKind::Ident, end),
    }
}

/// The numeral at `pos`: its kind and its end.
pub open spec fn number_at(s: Seq<char>, pos: int) -> (TokenKind, int) {
    let end = digits_end(s, pos);
    if end + 1 < s.len() && s[end] == '.' && is_digit(s[end + 1]) {
        (TokenKind::Float, digits_end(s, end + 1))
    } else {
        (TokenKind::Int, end)
    }
}

/// The operator or delimiter at `pos`, the longest that fits: its kind and
/// its end.
pub open spec fn punct_at(s: Seq<char>, pos: int) -> Option<(TokenKind, int)> {
    if pos + 2 < s.len() && punct3(s[pos], s[pos + 1], s[pos + 2]) is Some {
        Some((punct3(s[pos], s[pos + 1], s[pos + 2])->0, pos + 3))
    } else if pos + 1 < s.len() && punct2(s[pos], s[pos + 1]) is Some {
        Some((punct2(s[pos], s[pos + 1])->0, pos + 2))
    } else {
        match punct1(s[pos]) {
            Some(k) => Some((k, pos + 1)),
            None => None,
        }
    }
}

/// The token that starts at `pos`, where a character stands that is no
/// white space: its kind and its end. `None` where no token starts with
/// that character.
pub open spec fn token_at(s: Seq<char>, pos: int) -> Option<(TokenKind, int)> {
    if is_ident_start(s[pos]) {
        Some(word_at(s, pos))
    } else if is_digit(s[pos]) {
        Some(number_at(s, pos))
    } else {
        punct_at(s, pos)
    }
}

/// Where the numeral of kind `kind` that ends at `end` goes on as a
/// numeral of the host language, the place where that numeral ends: after
/// the letters, digits and underscores of a suffix, an exponent, a radix
/// prefix or a digit separator, as in `1u32`, `1e5`, `0x1F` and `1_000`;
/// or after the dot of a float without fraction, as in `1.`, which is a
/// dot that neither a name nor another dot follows.
pub open spec fn host_numeral_end(s: Seq<char>, kind: TokenKind, end: int) -> Option<int> {
    if kind != TokenKind::Int && kind != TokenKind::Float {
        None
    } else if 0 <= end < s.len() && is_ident_start(s[end]) {
        Some(ident_end(s, end))
    } else if kind == TokenKind::Int && 0 <= end < s.len() && s[end] == '.' && !(end + 1 < s.len()
        && (is_ident_start(s[end + 1]) || s[end + 1] == '.')) {
        Some(end + 1)
    } else {
        None
    }
}

/// The error for a numeral of the host language from `start` up to `end`.
pub open spec fn unsupported_numeral(start: int, end: int) -> ParseError {
    ParseError {
        kind: ErrorKind::UnsupportedConstructError,
        span: Span { start: start as usize, end: end as usize },
    }
}

/// The syntax error for a block comment that opens at `pos` and is not
/// closed, at its opening.
pub open spec fn unclosed_comment(pos: int) -> ParseError {
    ParseError {
        kind: ErrorKind::SyntaxError,
        span: Span { start: pos as usize, end: (pos + 2) as usize },
    }
}

/// The tokens of `s` from `pos` on, or the error for the first character
/// that starts no token. A block comment that is not closed is a syntax
/// error. A numeral is digits, or digits, a dot and digits; a numeral that
/// goes on as the host language allows is refused as an unsupported
/// construct, at the whole of it.
pub open spec fn tokenize(s: Seq<char>, pos: int) -> Result<Seq<TokenV>, ParseError>
    decreases s.len() - pos,
{
    let start = trivia_end(s, pos);
    if start < pos || start >= s.len() {
        Ok(Seq::empty())
    } else if opens_comment(s, start) {
        Err(unclosed_comment(start))
    } else {
        match token_at(s, start) {
            Some((kind, end)) => if start < end <= s.len() {
                match host_numeral_end(s, kind, end) {
                    Some(stop) => Err(unsupported_numeral(start, stop)),
                    None => match tokenize(s, end) {
                        Ok(rest) => Ok(
                            seq![
                                TokenV {
                                    kind,
                                    text: s.subrange(start, end),
                                    span: Span { start: start as usize, end: end as usize },
                                },
                            ] + rest,
                        ),
                        Err(e) => Err(e),
                    },
                }
            } else {
                Err(unexpected_character(s[start], start))
            },
            None => Err(unexpected_character(s[start], start)),
        }
    }
}

/// `c` starts a token of the host language that the shader language
/// leaves out: a string, a character or a lifetime, an attribute, the
/// operators `?`, `@` and `$`, and a character outside ASCII, which the
/// host language has in names and GLSL has not.
pub open spec fn is_host_character(c: char) -> bool {
    c == '"' || c == '\'' || c == '#' || c == '?' || c == '@' || c == '$' || c > '\u{7f}'
}

/// The error for the character `c` at `pos`, which starts no token: an
/// unsupported construct where it starts a token of the host language,
/// else a syntax error.
pub open spec fn unexpected_character(c: char, pos: int) -> ParseError {
    ParseError {
        kind: if is_host_character(c) {
            ErrorKind::UnsupportedConstructError
        } else {
            ErrorKind::SyntaxError
        },
        span: Span { start: pos as usize, end: (pos + 1) as usize },
    }
}

/// The tokens are cut out of `s`, in order: each has the text of `s`
/// between the bounds of its span, which is not empty, and none starts
/// before the one before it ends.
pub open spec fn cut_from(toks: Seq<TokenV>, s: Seq<char>) -> bool {
    &&& forall|i: int|
        0 <= i < toks.len() ==> {
            let t = #[trigger] toks[i];
            t.span.start < t.span.end <= s.len() && t.text == s.subrange(
                t.span.start as int,
                t.span.end as int,
            )
        }
    &&& forall|i: int, j: int|
        0 <= i < j < toks.len() ==> (#[trigger] toks[i]).span.end <= (#[trigger] toks[j]).span.start
}

/// The tokens `done`, followed by what `rest` holds.
pub open spec fn followed_by(done: Seq<TokenV>, rest: Result<Seq<TokenV>, ParseError>) -> Result<
    Seq<TokenV>,
    ParseError,
> {
    match rest {
        Ok(r) => Ok(done + r),
        Err(e) => Err(e),
    }
}

fn space(c: char) -> (b: bool)
    ensures
        b == is_space(c),
{
    c == ' ' || c == '\t' || c == '\n' || c == '\r'
}

fn ident_start(c: char) -> (b: bool)
    ensures
        b == is_ident_start(c),
{
    ('a' <= c && c <= 'z') || ('A' <= c && c <= 'Z') || c == '_'
}

fn ident_continue(c: char) -> (b: bool)
    ensures
        b == is_ident_continue(c),
{
    ident_start(c) || digit_of(c).is_some()
}

fn punct3_of(c0: char, c1: char, c2: char) -> (r: Option<TokenKind>)
    ensures
        r == punct3(c0, c1, c2),
{
    if c0 == '<' && c1 == '<' && c2 == '=' {
        Some(TokenKind::Op(BinOp::ShlEq))
    } else if c0 == '>' && c1 == '>' && c2 == '=' {
        Some(TokenKind::Op(BinOp::ShrEq))
    } else {
        None
    }
}

fn punct2_of(c0: char, c1: char) -> (r: Option<TokenKind>)
    ensures
        r == punct2(c0, c1),
{
    if c0 == '=' && c1 == '=' {
        Some(TokenKind::Op(BinOp::Eq))
    } else if c0 == '!' && c1 == '=' {
        Some(TokenKind::Op(BinOp::Ne))
    } else if c0 == '<' && c1 == '=' {
        Some(TokenKind::Op(BinOp::Le))
    } else if c0 == '>' && c1 == '=' {
        Some(TokenKind::Op(BinOp::Ge))
    } else if c0 == '&' && c1 == '&' {
        Some(TokenKind::Op(BinOp::And))
    } else if c0 == '|' && c1 == '|' {
        Some(TokenKind::Op(BinOp::Or))
    } else if c0 == '<' && c1 == '<' {
        Some(TokenKind::Op(BinOp::Shl))
    } else if c0 == '>' && c1 == '>' {
        Some(TokenKind::Op(BinOp::Shr))
    } else if c0 == '+' && c1 == '=' {
        Some(TokenKind::Op(BinOp::AddEq))
    } else if c0 == '-' && c1 == '=' {
        Some(TokenKind::Op(BinOp::SubEq))
    } else if c0 == '*' && c1 == '=' {
        Some(TokenKind::Op(BinOp::MulEq))
    } else if c0 == '/' && c1 == '=' {
        Some(TokenKind::Op(BinOp::DivEq))
    } else if c0 == '%' && c1 == '=' {
        Some(TokenKind::Op(BinOp::RemEq))
    } else if c0 == '^' && c1 == '=' {
        Some(TokenKind::Op(BinOp::BitXorEq))
    } else if c0 == '&' && c1 == '=' {
        Some(TokenKind::Op(BinOp::BitAndEq))
    } else if c0 == '|' && c1 == '=' {
        Some(TokenKind::Op(BinOp::BitOrEq))
    } else if c0 == '-' && c1 == '>' {
        Some(TokenKind::Arrow)
    } else if c0 == ':' && c1 == ':' {
        Some(TokenKind::PathSep)
    } else {
        None
    }
}

fn punct1_of(c0: char) -> (r: Option<TokenKind>)
    ensures
        r == punct1(c0),
{
    if c0 == '+' {
        Some(TokenKind::Op(BinOp::Add))
    } else if c0 == '-' {
        Some(TokenKind::Op(BinOp::Sub))
    } else if c0 == '*' {
        Some(TokenKind::Op(BinOp::Mul))
    } else if c0 == '/' {
        Some(TokenKind::Op(BinOp::Div))
    } else if c0 == '%' {
        Some(TokenKind::Op(BinOp::Rem))
    } else if c0 == '^' {
        Some(TokenKind::Op(BinOp::BitXor))
    } else if c0 == '&' {
        Some(TokenKind::Op(BinOp::BitAnd))
    } else if c0 == '|' {
        Some(TokenKind::Op(BinOp::BitOr))
    } else if c0 == '<' {
        Some(TokenKind::Op(BinOp::Lt))
    } else if c0 == '>' {
        Some(TokenKind::Op(BinOp::Gt))
    } else if c0 == '!' {
        Some(TokenKind::Not)
    } else if c0 == '=' {
        Some(TokenKind::Assign)
    } else if c0 == '(' {
        Some(TokenKind::LParen)
    } else if c0 == ')' {
        Some(TokenKind::RParen)
    } else if c0 == '{' {
        Some(TokenKind::LBrace)
    } else if c0 == '}' {
        Some(TokenKind::RBrace)
    } else if c0 == '[' {
        Some(TokenKind::LBracket)
    } else if c0 == ']' {
        Some(TokenKind::RBracket)
    } else if c0 == ',' {
        Some(TokenKind::Comma)
    } else if c0 == ';' {
        Some(TokenKind::Semi)
    } else if c0 == ':' {
        Some(TokenKind::Colon)
    } else if c0 == '.' {
        Some(TokenKind::Dot)
    } else {
        None
    }
}

fn scan_ident(v: &Vec<char>, pos: usize) -> (r: usize)
    requires
        pos <= v.len(),
    ensures
        r == ident_end(v@, pos as int),
        pos <= r <= v.len(),
        pos < v.len() && is_ident_continue(v@[pos as int]) ==> pos < r,
        forall|j: int| pos <= j < r ==> is_ident_continue(v@[j]),
{
    let mut i: usize = pos;
    while i < v.len() && ident_continue(v[i])
        invariant
            pos <= i <= v.len(),
            ident_end(v@, pos as int) == ident_end(v@, i as int),
            forall|j: int| pos <= j < i ==> is_ident_continue(v@[j]),
        decreases v.len() - i,
    {
        i = i + 1;
    }
    i
}

fn scan_digits(v: &Vec<char>, pos: usize) -> (r: usize)
    requires
        pos <= v.len(),
    ensures
        r == digits_end(v@, pos as int),
        pos <= r <= v.len(),
        pos < v.len() && is_digit(v@[pos as int]) ==> pos < r,
        forall|j: int| pos <= j < r ==> is_digit(v@[j]),
{
    let mut i: usize = pos;
    while i < v.len() && digit_of(v[i]).is_some()
        invariant
            pos <= i <= v.len(),
            digits_end(v@, pos as int) == digits_end(v@, i as int),
            forall|j: int| pos <= j < i ==> is_digit(v@[j]),
        decreases v.len() - i,
    {
        i = i + 1;
    }
    i
}

/// Where the block comment ends that opened before `pos`.
fn skip_comment(v: &Vec<char>, pos: usize) -> (r: Option<usize>)
    requires
        2 <= pos <= v.len(),
    ensures
        match r {
            Some(end) => comment_end(v@, pos as int, 1) == Some(end as int) && pos < end
                <= v.len(),
            None => comment_end(v@, pos as int, 1) is None,
        },
{
    let mut i: usize = pos;
    let mut depth: usize = 1;
    loop
        invariant
            pos <= i <= v.len(),
            1 <= depth <= i,
            comment_end(v@, pos as int, 1) == comment_end(v@, i as int, depth as nat),
        decreases v.len() - i,
    {
        if i >= v.len() || i + 1 >= v.len() {
            return None;
        }
        if v[i] == '*' && v[i + 1] == '/' {
            if depth <= 1 {
                return Some(i + 2);
            }
            depth = depth - 1;
            i = i + 2;
        } else if v[i] == '/' && v[i + 1] == '*' {
            depth = depth + 1;
            i = i + 2;
        } else {
            i = i + 1;
        }
    }
}

fn skip_trivia(v: &Vec<char>, pos: usize) -> (r: usize)
    requires
        pos <= v.len(),
    ensures
        r == trivia_end(v@, pos as int),
        pos <= r <= v.len(),
{
    let mut i: usize = pos;
    loop
        invariant
            pos <= i <= v.len(),
            trivia_end(v@, pos as int) == trivia_end(v@, i as int),
        decreases v.len() - i,
    {
        if i >= v.len() {
            return i;
        }
        if space(v[i]) {
            i = i + 1;
        } else if v[i] == '/' && i + 1 < v.len() && v[i + 1] == '/' {
            i = find_char(v, i + 2, v.len(), '\n');
        } else if v[i] == '/' && i + 1 < v.len() && v[i + 1] == '*' {
            match skip_comment(v, i + 2) {
                Some(end) => {
                    i = end;
                },
                None => {
                    return i;
                },
            }
        } else {
            return i;
        }
    }
}

/// The token that starts at `pos`: its kind and its end.
fn scan_token(v: &Vec<char>, pos: usize) -> (r: Option<(TokenKind, usize)>)
    requires
        pos < v.len(),
    ensures
        match r {
            Some((kind, end)) => token_at(v@, pos as int) == Some((kind, end as int)) && pos < end
                <= v.len() && is_line_text(v@.subrange(pos as int, end as int)),
            None => token_at(v@, pos as int) is None,
        },
{
    let c0 = v[pos];
    if ident_start(c0) {
        let end = scan_ident(v, pos);
        let kind = match Keyword::of_chars(v, pos, end) {
            Some(k) => TokenKind::Keyword(k),
            None => TokenKind::Ident,
        };
        assert forall|j: int| 0 <= j < end - pos implies v@.subrange(pos as int, end as int)[j]
            != '\n' by {
            assert(is_ident_continue(v@[pos + j]));
        }
        Some((kind, end))
    } else if digit_of(c0).is_some() {
        let d = scan_digits(v, pos);
        if d < v.len() && d + 1 < v.len() && v[d] == '.' && digit_of(v[d + 1]).is_some() {
            let end = scan_digits(v, d + 1);
            assert forall|j: int| 0 <= j < end - pos implies v@.subrange(pos as int, end as int)[j]
                != '\n' by {
                assert(j != d - pos ==> is_digit(v@[pos + j]));
            }
            Some((TokenKind::Float, end))
        } else {
            assert forall|j: int| 0 <= j < d - pos implies v@.subrange(pos as int, d as int)[j]
                != '\n' by {
                assert(is_digit(v@[pos + j]));
            }
            Some((TokenKind::Int, d))
        }
    } else {
        if pos + 1 < v.len() {
            if pos + 2 < v.len() {
                if let Some(k) = punct3_of(c0, v[pos + 1], v[pos + 2]) {
                    return Some((k, pos + 3));
                }
            }
            if let Some(k) = punct2_of(c0, v[pos + 1]) {
                return Some((k, pos + 2));
            }
        }
        match punct1_of(c0) {
            Some(k) => Some((k, pos + 1)),
            None => None,
        }
    }
}

/// Cuts the source into tokens.
///
/// Fails at the first character that starts no token: with an unsupported
/// construct where it starts a token of the host language, else with a
/// syntax error. Fails with a syntax error at a block comment that is not
/// closed. Fails with an unsupported construct at a numeral with a
/// suffix, an exponent, a radix prefix or a digit separator, and at a
/// float without fraction.
/// The text of each token is the source between the bounds of its span,
/// and holds no line feed; the tokens stand in the order of the source.
pub fn lex(src: &str) -> (r: Result<Vec<Token>, ParseError>)
    ensures
        match tokenize(src@, 0) {
            Ok(toks) => r matches Ok(v) && tokens_view(v@) == toks,
            Err(e) => r == Err::<Vec<Token>, ParseError>(e),
        },
        r matches Ok(v) ==> tokens_wf(tokens_view(v@)) && cut_from(tokens_view(v@), src@),
{
    let v = to_chars(src);
    let ascii = src.is_ascii();
    let mut toks: Vec<Token> = Vec::new();
    let mut pos: usize = 0;
    assert(tokens_view(toks@) + Seq::<TokenV>::empty() =~= tokens_view(toks@));
    assert(tokens_view(toks@) =~= Seq::<TokenV>::empty());
    loop
        invariant
            0 <= pos <= v.len(),
            v@ == src@,
            ascii == src.is_ascii(),
            tokenize(v@, 0) == followed_by(tokens_view(toks@), tokenize(v@, pos as int)),
            tokens_wf(tokens_view(toks@)),
            cut_from(tokens_view(toks@), v@),
            forall|i: int|
                0 <= i < toks@.len() ==> (#[trigger] tokens_view(toks@)[i]).span.end <= pos,
        decreases v.len() - pos,
    {
        let start = skip_trivia(&v, pos);
        if start >= v.len() {
            assert(tokens_view(toks@) + Seq::<TokenV>::empty() =~= tokens_view(toks@));
            return Ok(toks);
        }
        if v[start] == '/' && start + 1 < v.len() && v[start + 1] == '*' {
            return Err(
                ParseError { kind: ErrorKind::SyntaxError, span: Span { start, end: start + 2 } },
            );
        }
        match scan_token(&v, start) {
            None => {
                let c = v[start];
                let kind = if c == '"' || c == '\'' || c == '#' || c == '?' || c == '@' || c == '$'
                    || c > '\u{7f}' {
                    ErrorKind::UnsupportedConstructError
                } else {
                    ErrorKind::SyntaxError
                };
                return Err(ParseError { kind, span: Span { start, end: start + 1 } });
            },
            Some((kind, end)) => {
                if kind == TokenKind::Int || kind == TokenKind::Float {
                    if end < v.len() && ident_start(v[end]) {
                        let stop = scan_ident(&v, end);
                        return Err(
                            ParseError {
                                kind: ErrorKind::UnsupportedConstructError,
                                span: Span { start, end: stop },
                            },
                        );
                    }
                    if kind == TokenKind::Int && end < v.len() && v[end] == '.' {
                        let goes_on = end + 1 < v.len() && (ident_start(v[end + 1]) || v[end + 1]
                            == '.');
                        if !goes_on {
                            return Err(
                                ParseError {
                                    kind: ErrorKind::UnsupportedConstructError,
                                    span: Span { start, end: end + 1 },
                                },
                            );
                        }
                    }
                }
                let piece = if ascii {
                    src.substring_ascii(start, end)
                } else {
                    src.substring_char(start, end)
                };
                let token = Token {
                    kind,
                    text: String::from_str(piece),
                    span: Span { start, end },
                };
                let ghost before = tokens_view(toks@);
                let ghost tv = token@;
                toks.push(token);
                proof {
                    assert(tokens_view(toks@) =~= before + seq![tv]);
                    match tokenize(v@, end as int) {
                        Ok(rest) => {
                            assert((before + seq![tv]) + rest =~= before + (seq![tv] + rest));
                        },
                        Err(_) => {},
                    }
                }
                pos = end;
            },
        }
    }
}

/// The digits that start at `pos` end at or after `pos` and within `s`.
pub proof fn lemma_digits_end_bounds(s: Seq<char>, pos: int)
    requires
        0 <= pos <= s.len(),
    ensures
        pos <= digits_end(s, pos) <= s.len(),
        pos < s.len() && is_digit(s[pos]) ==> pos < digits_end(s, pos),
    decreases s.len() - pos,
{
    if pos < s.len() && is_digit(s[pos]) {
        lemma_digits_end_bounds(s, pos + 1);
    }
}

/// A numeral of the host language that the shader language leaves out,
/// one with a suffix, an exponent, a radix prefix or a digit separator, or
/// a float without fraction, is refused as an unsupported construct, from
/// its first digit to its end.
pub proof fn lemma_host_numeral_is_unsupported(s: Seq<char>, pos: int, stop: int)
    requires
        0 <= pos < s.len(),
        is_digit(s[pos]),
        host_numeral_end(s, number_at(s, pos).0, number_at(s, pos).1) == Some(stop),
    ensures
        tokenize(s, pos) == Err::<Seq<TokenV>, ParseError>(unsupported_numeral(pos, stop)),
{
    lemma_digits_end_bounds(s, pos);
    let end = digits_end(s, pos);
    if end + 1 < s.len() {
        lemma_digits_end_bounds(s, end + 1);
    }
    assert(!is_space(s[pos]));
    assert(trivia_end(s, pos) == pos);
    assert(!is_ident_start(s[pos]));
}

} // verus!
