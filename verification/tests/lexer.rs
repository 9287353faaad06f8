use yasl_core::error::ErrorKind;
use yasl_core::lexer::lex;
use yasl_core::span::Span;
use yasl_core::token::{check_tokens, BinOp, Keyword, Token, TokenKind};

fn kinds(src: &str) -> Vec<TokenKind> {
    lex(src).unwrap().iter().map(|t| t.kind).collect()
}

fn texts(src: &str) -> Vec<String> {
    lex(src).unwrap().iter().map(|t| t.text.clone()).collect()
}

#[test]
fn lexes_words_numbers_and_operators() {
    assert_eq!(
        kinds("let a1 = 10 + 2.5;"),
        vec![
            TokenKind::Keyword(Keyword::Let),
            TokenKind::Ident,
            TokenKind::Assign,
            TokenKind::Int,
            TokenKind::Op(BinOp::Add),
            TokenKind::Float,
            TokenKind::Semi,
        ]
    );
    assert_eq!(texts("let a1 = 10 + 2.5;"), vec!["let", "a1", "=", "10", "+", "2.5", ";"]);
}

#[test]
fn token_text_is_the_source_at_its_span() {
    let src = "fn  main ( ) -> vec3<f32> { x <<= 1; }";
    for t in lex(src).unwrap() {
        assert_eq!(&src[t.span.start..t.span.end], t.text);
    }
}

#[test]
fn operators_are_read_greedily() {
    assert_eq!(
        kinds("<<= << <= < >>= >> >= > == = != ! && & || | -> - :: :"),
        vec![
            TokenKind::Op(BinOp::ShlEq),
            TokenKind::Op(BinOp::Shl),
            TokenKind::Op(BinOp::Le),
            TokenKind::Op(BinOp::Lt),
            TokenKind::Op(BinOp::ShrEq),
            TokenKind::Op(BinOp::Shr),
            TokenKind::Op(BinOp::Ge),
            TokenKind::Op(BinOp::Gt),
            TokenKind::Op(BinOp::Eq),
            TokenKind::Assign,
            TokenKind::Op(BinOp::Ne),
            TokenKind::Not,
            TokenKind::Op(BinOp::And),
            TokenKind::Op(BinOp::BitAnd),
            TokenKind::Op(BinOp::Or),
            TokenKind::Op(BinOp::BitOr),
            TokenKind::Arrow,
            TokenKind::Op(BinOp::Sub),
            TokenKind::PathSep,
            TokenKind::Colon,
        ]
    );
    assert_eq!(
        kinds("a+=b"),
        vec![TokenKind::Ident, TokenKind::Op(BinOp::AddEq), TokenKind::Ident]
    );
}

#[test]
fn compound_operators() {
    assert_eq!(
        kinds("+= -= *= /= %= ^= &= |="),
        vec![
            TokenKind::Op(BinOp::AddEq),
            TokenKind::Op(BinOp::SubEq),
            TokenKind::Op(BinOp::MulEq),
            TokenKind::Op(BinOp::DivEq),
            TokenKind::Op(BinOp::RemEq),
            TokenKind::Op(BinOp::BitXorEq),
            TokenKind::Op(BinOp::BitAndEq),
            TokenKind::Op(BinOp::BitOrEq),
        ]
    );
}

#[test]
fn delimiters() {
    assert_eq!(
        kinds("( ) { } [ ] , ; ."),
        vec![
            TokenKind::LParen,
            TokenKind::RParen,
            TokenKind::LBrace,
            TokenKind::RBrace,
            TokenKind::LBracket,
            TokenKind::RBracket,
            TokenKind::Comma,
            TokenKind::Semi,
            TokenKind::Dot,
        ]
    );
}

#[test]
fn keywords_and_reserved_words() {
    assert_eq!(
        kinds("static fn let return if else as true false pub const async unsafe extern mut"),
        vec![
            TokenKind::Keyword(Keyword::Static),
            TokenKind::Keyword(Keyword::Fn),
            TokenKind::Keyword(Keyword::Let),
            TokenKind::Keyword(Keyword::Return),
            TokenKind::Keyword(Keyword::If),
            TokenKind::Keyword(Keyword::Else),
            TokenKind::Keyword(Keyword::As),
            TokenKind::Keyword(Keyword::True),
            TokenKind::Keyword(Keyword::False),
            TokenKind::Keyword(Keyword::Pub),
            TokenKind::Keyword(Keyword::Const),
            TokenKind::Keyword(Keyword::Async),
            TokenKind::Keyword(Keyword::Unsafe),
            TokenKind::Keyword(Keyword::Extern),
            TokenKind::Keyword(Keyword::Mut),
        ]
    );
    for word in "break continue crate enum for impl in loop match mod move ref self Self struct super trait type use where while await dyn".split(' ') {
        assert_eq!(kinds(word), vec![TokenKind::Keyword(Keyword::Reserved)], "{}", word);
    }
    assert_eq!(
        kinds("layout input output glsl f32 lets _x"),
        vec![TokenKind::Ident; 7]
    );
}

#[test]
fn numerals() {
    assert_eq!(kinds("0 12 1.0 3.25"), vec![
        TokenKind::Int,
        TokenKind::Int,
        TokenKind::Float,
        TokenKind::Float
    ]);
    assert_eq!(
        kinds("1.x"),
        vec![TokenKind::Int, TokenKind::Dot, TokenKind::Ident]
    );
    assert_eq!(texts("7.5.2"), vec!["7.5", ".", "2"]);
}

#[test]
fn comment_runs_to_the_end_of_the_line() {
    assert_eq!(texts("a // b c\nd//e"), vec!["a", "d"]);
    assert_eq!(texts("a / b"), vec!["a", "/", "b"]);
    assert!(lex("// only a comment").unwrap().is_empty());
    assert!(lex(" \t\r\n").unwrap().is_empty());
}

#[test]
fn unknown_character_is_a_syntax_error() {
    let e = lex("a = ~b").unwrap_err();
    assert_eq!(e.kind, ErrorKind::SyntaxError);
    assert_eq!(e.span, Span { start: 4, end: 5 });
    for src in ["`", "\\", "\u{0}", "\u{7f}", "~"] {
        assert_eq!(lex(src).unwrap_err().kind, ErrorKind::SyntaxError, "{:?}", src);
    }
}

#[test]
fn host_character_is_an_unsupported_construct() {
    let e = lex("a = #b").unwrap_err();
    assert_eq!(e.kind, ErrorKind::UnsupportedConstructError);
    assert_eq!(e.span, Span { start: 4, end: 5 });
    assert_eq!(lex("\"text\"").unwrap_err().span, Span { start: 0, end: 1 });
    for src in ["\"", "'", "#", "?", "@", "$", "\u{e9}", "\u{80}", "\u{10ffff}"] {
        assert_eq!(lex(src).unwrap_err().kind, ErrorKind::UnsupportedConstructError, "{}", src);
    }
}

#[test]
fn spans_count_characters() {
    let src = "// h\u{e9}\u{e9}\nab";
    let toks = lex(src).unwrap();
    assert_eq!(toks.len(), 1);
    assert_eq!(toks[0].text, "ab");
    assert_eq!(toks[0].span, Span { start: 7, end: 9 });
    let e = lex("a \u{e9}").unwrap_err();
    assert_eq!(e.span, Span { start: 2, end: 3 });
}

#[test]
fn lexed_tokens_are_well_formed() {
    let toks = lex("fn main() { return 1; }").unwrap();
    assert!(check_tokens(&toks));
    let bad = vec![Token {
        kind: TokenKind::Ident,
        text: "a\nb".to_string(),
        span: Span { start: 0, end: 3 },
    }];
    assert!(!check_tokens(&bad));
    assert!(!bad[0].is_wf());
    assert!(toks[0].is_wf());
}

#[test]
fn operator_spelling_and_precedence() {
    assert_eq!(BinOp::Shl.as_str(), "<<");
    assert_eq!(BinOp::BitXorEq.as_str(), "^=");
    assert!(BinOp::ShrEq.compound());
    assert!(!BinOp::Eq.compound());
    assert_eq!(BinOp::Mul.binding(), 10);
    assert_eq!(BinOp::Add.binding(), 9);
    assert_eq!(BinOp::Or.binding(), 2);
    assert_eq!(BinOp::AddEq.binding(), 0);
}

#[test]
fn host_numerals_are_unsupported() {
    let cases = [
        ("1u32", 0, 4),
        ("1e5", 0, 3),
        ("1_000", 0, 5),
        ("0x1F", 0, 4),
        ("0b101", 0, 5),
        ("0o17", 0, 4),
        ("1.5f32", 0, 6),
        ("2.5e3", 0, 5),
        ("1.0_f64", 0, 7),
        ("a = 12usize;", 4, 11),
        ("1e-5", 0, 2),
        ("1.", 0, 2),
        ("f(1.)", 2, 4),
        ("1. + 2", 0, 2),
    ];
    for (src, start, end) in cases {
        let e = lex(src).unwrap_err();
        assert_eq!(e.kind, ErrorKind::UnsupportedConstructError, "{}", src);
        assert_eq!(e.span, Span { start, end }, "{}", src);
    }
}

#[test]
fn plain_numerals_are_read() {
    assert_eq!(texts("0 007 1.0 10.25;"), vec!["0", "007", "1.0", "10.25", ";"]);
    assert_eq!(texts("1+2"), vec!["1", "+", "2"]);
    assert_eq!(texts("1.x"), vec!["1", ".", "x"]);
    assert_eq!(texts("1..2"), vec!["1", ".", ".", "2"]);
    assert_eq!(texts("1 u32"), vec!["1", "u32"]);
}

#[test]
fn block_comments_nest() {
    assert_eq!(texts("a /* b */ c"), vec!["a", "c"]);
    assert_eq!(texts("a /* b /* c */ d */ e"), vec!["a", "e"]);
    assert_eq!(texts("a/**/b"), vec!["a", "b"]);
    assert_eq!(texts("a /* // */ b"), vec!["a", "b"]);
    assert_eq!(texts("a // /* \n b"), vec!["a", "b"]);
    assert_eq!(texts("a /* \n */ b"), vec!["a", "b"]);
    assert_eq!(texts("a /*/ */ b"), vec!["a", "b"]);
    assert_eq!(texts("a * / b"), vec!["a", "*", "/", "b"]);
    assert!(lex("/* */").unwrap().is_empty());
    for (src, start) in [("/*", 0), ("a /* b", 2), ("/* /* */", 0), ("/*/", 0), ("x /* a */ /* b", 10)] {
        let e = lex(src).unwrap_err();
        assert_eq!(e.kind, ErrorKind::SyntaxError, "{}", src);
        assert_eq!(e.span, Span { start, end: start + 2 }, "{}", src);
    }
    let toks = lex("/* c */ab").unwrap();
    assert_eq!(toks[0].span, Span { start: 7, end: 9 });
}
