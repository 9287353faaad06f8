use yasl_core::diagnostics::{anchor_of, translate_backend_error, BackendCompileError};
use yasl_core::glsl::{Glsl, GlslFragment, GlslLine};
use yasl_core::number::{digit_of, read_number, to_decimal};
use yasl_core::span::Span;
use yasl_core::text::{chars_eq_str, find_char, str_eq, to_chars};
use yasl_core::token::Keyword;

fn line(text: &str, semi: bool, at: Option<usize>) -> GlslLine {
    GlslLine {
        span: at.map(|a| Span::new(a, a + 1)),
        ends_with_semi: semi,
        glsl_string: text.to_string(),
    }
}

fn number(text: &str) -> Option<usize> {
    let v: Vec<char> = text.chars().collect();
    read_number(&v, 0, v.len())
}

#[test]
fn line_rendering() {
    assert_eq!(line("a = 1", true, None).to_string(), "a = 1;\n");
    assert_eq!(line("{", false, None).to_string(), "{\n");
    assert_eq!(line("", true, None).to_string(), ";\n");
}

#[test]
fn fragment_text_is_the_text_of_its_pieces() {
    let mut inner = GlslFragment::new();
    inner.push(Glsl::Line(line("b", true, Some(1))));
    let mut frag = GlslFragment::new();
    assert_eq!(frag.to_string(), "");
    frag.push(Glsl::Line(line("a", false, Some(0))));
    frag.push(Glsl::Fragment(inner));
    frag.push(Glsl::Expr("x".to_string()));
    assert_eq!(frag.to_string(), "a\nb;\nx");
    assert_eq!(Glsl::Fragment(frag).to_string(), "a\nb;\nx");
    assert_eq!(Glsl::Expr("e".to_string()).to_string(), "e");
    assert_eq!(Glsl::Line(line("l", true, None)).to_string(), "l;\n");
}

#[test]
fn squash_flattens_in_emission_order() {
    let mut deep = GlslFragment::new();
    deep.push(Glsl::Line(line("c", true, Some(2))));
    deep.push(Glsl::Fragment(GlslFragment::new()));
    let mut mid = GlslFragment::new();
    mid.push(Glsl::Line(line("b", false, Some(1))));
    mid.push(Glsl::Fragment(deep));
    mid.push(Glsl::Line(line("d", true, None)));
    let mut top = GlslFragment::new();
    top.push(Glsl::Line(line("a", true, Some(0))));
    top.push(Glsl::Fragment(mid));
    top.push(Glsl::Line(line("e", false, Some(4))));
    let text = top.to_string();
    let lines = top.squash();
    let names: Vec<&str> = lines.iter().map(|l| l.glsl_string.as_str()).collect();
    assert_eq!(names, vec!["a", "b", "c", "d", "e"]);
    assert_eq!(lines[2].span, Some(Span { start: 2, end: 3 }));
    assert_eq!(lines[3].span, None);
    let joined: String = lines.iter().map(|l| l.to_string()).collect();
    assert_eq!(joined, text);
    assert!(GlslFragment::new().squash().is_empty());
}

#[test]
fn decimal_numerals() {
    assert_eq!(to_decimal(0), "0");
    assert_eq!(to_decimal(7), "7");
    assert_eq!(to_decimal(10), "10");
    assert_eq!(to_decimal(1234567890), "1234567890");
    assert_eq!(to_decimal(usize::MAX), usize::MAX.to_string());
    assert_eq!(number("0"), Some(0));
    assert_eq!(number("007"), Some(7));
    assert_eq!(number("1234567890"), Some(1234567890));
    assert_eq!(number(&usize::MAX.to_string()), Some(usize::MAX));
    assert_eq!(number(&format!("{}0", usize::MAX)), None);
    assert_eq!(number("18446744073709551616"), None);
    assert_eq!(number(""), None);
    assert_eq!(number("+5"), None);
    assert_eq!(number("-5"), None);
    assert_eq!(number(" 5"), None);
    assert_eq!(number("5a"), None);
    let v: Vec<char> = "ab12cd".chars().collect();
    assert_eq!(read_number(&v, 2, 4), Some(12));
    assert_eq!(read_number(&v, 2, 5), None);
    assert_eq!(read_number(&v, 3, 3), None);
    for n in [0usize, 9, 10, 99, 100, 4096, 65535] {
        assert_eq!(number(&to_decimal(n)), Some(n));
    }
}

#[test]
fn digits() {
    assert_eq!(digit_of('0'), Some(0));
    assert_eq!(digit_of('9'), Some(9));
    assert_eq!(digit_of('a'), None);
    assert_eq!(digit_of('\u{661}'), None);
}

#[test]
fn character_helpers() {
    assert_eq!(to_chars("a\u{e9}b"), vec!['a', '\u{e9}', 'b']);
    assert!(to_chars("").is_empty());
    let v = to_chars("static fn");
    assert!(chars_eq_str(&v, 0, 6, "static"));
    assert!(!chars_eq_str(&v, 0, 5, "static"));
    assert!(!chars_eq_str(&v, 0, 6, "statik"));
    assert!(chars_eq_str(&v, 7, 9, "fn"));
    assert!(chars_eq_str(&v, 3, 3, ""));
    assert!(str_eq("abc", "abc"));
    assert!(!str_eq("abc", "abd"));
    assert!(!str_eq("abc", "ab"));
    assert!(str_eq("", ""));
    assert_eq!(find_char(&v, 0, v.len(), 't'), 1);
    assert_eq!(find_char(&v, 2, v.len(), 't'), 3);
    assert_eq!(find_char(&v, 4, v.len(), 't'), v.len());
    assert_eq!(find_char(&v, 0, 1, 't'), 1);
    assert_eq!(find_char(&v, 5, 5, 'c'), 5);
    assert_eq!(Keyword::of_chars(&v, 0, 6), Some(Keyword::Static));
    assert_eq!(Keyword::of_chars(&v, 0, 5), None);
    assert_eq!(Keyword::of_chars(&v, 7, 9), Some(Keyword::Fn));
}

#[test]
fn anchor_reads_the_second_field() {
    let map = vec![line("a", true, Some(10)), line("b", true, None), line("c", true, Some(30))];
    let at = |text: &str| {
        let v: Vec<char> = text.chars().collect();
        anchor_of(&v, 0, v.len(), &map)
    };
    assert_eq!(at("f:2: m"), Some(Span { start: 10, end: 11 }));
    assert_eq!(at("f:4: m"), Some(Span { start: 30, end: 31 }));
    assert_eq!(at("f:3: m"), None);
    assert_eq!(at("f:5: m"), None);
    assert_eq!(at("f:1: m"), None);
    assert_eq!(at("f:0: m"), None);
    assert_eq!(at(":2"), Some(Span { start: 10, end: 11 }));
    assert_eq!(at("f:2"), Some(Span { start: 10, end: 11 }));
    assert_eq!(at("2: m"), None);
    assert_eq!(at("f: 2: m"), None);
    assert_eq!(at("f::2: m"), None);
    assert_eq!(at("f:x:2: m"), None);
    assert_eq!(at(""), None);
    let v: Vec<char> = "zz\nf:2:m\nzz".chars().collect();
    assert_eq!(anchor_of(&v, 3, 8, &map), Some(Span { start: 10, end: 11 }));
    assert_eq!(anchor_of(&v, 0, 2, &map), None);
}

#[test]
fn translation_keeps_the_anchored_line() {
    let map = vec![line("a", true, Some(10)), line("b", true, None)];
    match translate_backend_error("x\nshader.glsl:3: unanchored\nshader.glsl:2: 'a' : undeclared\nshader.glsl:2: again", &map) {
        BackendCompileError::Located { span, message } => {
            assert_eq!(span, Span { start: 10, end: 11 });
            assert_eq!(message, "shader.glsl:2: 'a' : undeclared");
        }
        other => panic!("{:?}", other),
    }
    match translate_backend_error("shader.glsl:3: only a line without region", &map) {
        BackendCompileError::Raw { message } => {
            assert_eq!(message, "shader.glsl:3: only a line without region")
        }
        other => panic!("{:?}", other),
    }
    match translate_backend_error("\u{2018}q\u{2019}:2: quoted", &map) {
        BackendCompileError::Located { message, .. } => {
            assert_eq!(message, "\u{2018}q\u{2019}:2: quoted")
        }
        other => panic!("{:?}", other),
    }
    match translate_backend_error("", &Vec::new()) {
        BackendCompileError::Raw { message } => assert_eq!(message, ""),
        other => panic!("{:?}", other),
    }
}

#[test]
fn span_constructors() {
    assert_eq!(Span::new(1, 4), Span { start: 1, end: 4 });
    assert_eq!(Span::point(3), Span { start: 3, end: 3 });
}
