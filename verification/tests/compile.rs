use yasl_core::diagnostics::{translate_backend_error, BackendCompileError, PREAMBLE_LINE_COUNT};
use yasl_core::error::{ErrorKind, ParseError};
use yasl_core::lexer::lex;
use yasl_core::shader::Shader;
use yasl_core::span::Span;
use yasl_core::token::{find_ill_formed, BinOp, Token, TokenKind};

fn compile(src: &str) -> Shader {
    match Shader::parse(src) {
        Ok(s) => s,
        Err(e) => panic!("{:?}", e),
    }
}

fn body_lines(shader: &Shader) -> Vec<String> {
    shader
        .sourcemap
        .iter()
        .map(|l| {
            if l.ends_with_semi {
                format!("{};", l.glsl_string)
            } else {
                l.glsl_string.clone()
            }
        })
        .collect()
}

fn refusal(src: &str) -> ParseError {
    match Shader::parse(src) {
        Ok(s) => panic!("{:?}", s),
        Err(e) => e,
    }
}

#[test]
fn static_const_round_trip() {
    let shader = compile("static X: f32 = 1.0;");
    assert_eq!(body_lines(&shader), vec!["float yasl_X = 1.0;".to_string()]);
    assert_eq!(
        shader.glsl,
        "#version 450\nfloat yasl_X = 1.0;\n\nvoid main(){ yasl_main(); }"
    );
}

#[test]
fn interface_slot_round_trip() {
    let shader = compile("layout<input,0> p: vec3<f32>;");
    assert_eq!(
        body_lines(&shader),
        vec!["layout(location=0) in vec3 yasl_p;".to_string()]
    );
}

#[test]
fn output_slot_with_large_index() {
    let shader = compile("layout<output, 12> color: vec4<f64>;");
    assert_eq!(
        body_lines(&shader),
        vec!["layout(location=12) out dvec4 yasl_color;".to_string()]
    );
}

#[test]
fn integer_literal_inference() {
    let shader = compile("fn yasl_main(){ let a = 1 + 2; return; }");
    assert_eq!(
        body_lines(&shader),
        vec![
            "void yasl_yasl_main()".to_string(),
            "{".to_string(),
            "int yasl_a = 1 + 2;".to_string(),
            "return ;".to_string(),
            "}".to_string(),
        ]
    );
}

#[test]
fn builtin_call_is_unprefixed() {
    let shader = compile("fn f(x: f32) { glsl::sin(x); user_fn(x); }");
    let lines = body_lines(&shader);
    assert_eq!(lines[2], "sin(yasl_x);");
    assert_eq!(lines[3], "yasl_user_fn(yasl_x);");
}

#[test]
fn cast_namespaces_select_their_prefix() {
    let shader = compile(
        "fn f() { f32::vec2(a); f64::vec2(a); bool::vec2(a); i32::vec2(a); u32::vec2(a); }",
    );
    let lines = body_lines(&shader);
    assert_eq!(
        &lines[2..7],
        &[
            "vec2(yasl_a);".to_string(),
            "dvec2(yasl_a);".to_string(),
            "bvec2(yasl_a);".to_string(),
            "ivec2(yasl_a);".to_string(),
            "uvec2(yasl_a);".to_string(),
        ]
    );
}

#[test]
fn backend_error_is_anchored() {
    let src = "static A: i32 = 1;\nstatic B: i32 = 2;\nstatic C: i32 = 3;\nstatic D: i32 = 4;\n";
    let shader = compile(src);
    let message = "shader.glsl:5: '...' : syntax error";
    match shader.translate(message) {
        BackendCompileError::Located { span, message: m } => {
            assert_eq!(m, message);
            assert_eq!(Some(span), shader.sourcemap[5 - PREAMBLE_LINE_COUNT - 1].span);
            assert_eq!(&src[span.start..span.end], "D");
        }
        other => panic!("{:?}", other),
    }
}

#[test]
fn full_example_output() {
    let src = "layout<input,0> pos: vec3<f32>;\nstatic GAMMA: f32 = 2.2;\nfn main() {\n    let c: vec3<f32> = pos;\n    return;\n}\n";
    let shader = compile(src);
    assert_eq!(
        shader.glsl,
        "#version 450\n\
         layout(location=0) in vec3 yasl_pos;\n\
         float yasl_GAMMA = 2.2;\n\
         void yasl_main()\n\
         {\n\
         vec3 yasl_c = yasl_pos;\n\
         return ;\n\
         }\n\
         \n\
         void main(){ yasl_main(); }"
    );
    assert_eq!(shader.sourcemap.len(), 7);
}

#[test]
fn compilation_is_deterministic() {
    let src = "static G: f32 = 2.2;\nfn main() { let a = G; if a < 1.0 { a = 1.0; } else { a = 0.0; } }";
    let one = compile(src);
    let two = compile(src);
    assert_eq!(one.glsl, two.glsl);
    assert_eq!(one.sourcemap.len(), two.sourcemap.len());
    for (a, b) in one.sourcemap.iter().zip(two.sourcemap.iter()) {
        assert_eq!(a.glsl_string, b.glsl_string);
        assert_eq!(a.span, b.span);
        assert_eq!(a.ends_with_semi, b.ends_with_semi);
    }
}

#[test]
fn source_map_matches_output_lines() {
    let src = "layout<output,1> o: vec4<f32>;\nfn helper(a: f32, b: i32) -> f32 { return a * 2.0; }\nfn main() {\n let x = helper(1.0, 2);\n if x > 0.5 { o = glsl::vec4(x, x, x, 1.0); } else if x < 0.1 { return; } else { { x += 1.0; } }\n}";
    let shader = compile(src);
    let lines: Vec<&str> = shader.glsl.split('\n').collect();
    assert_eq!(lines[0], "#version 450");
    assert_eq!(lines.len(), shader.sourcemap.len() + 3);
    for (i, line) in body_lines(&shader).iter().enumerate() {
        assert_eq!(lines[PREAMBLE_LINE_COUNT + i], line);
    }
    assert_eq!(lines[lines.len() - 2], "");
    assert_eq!(lines[lines.len() - 1], "void main(){ yasl_main(); }");
}

#[test]
fn every_generated_line_has_a_span() {
    let shader = compile("fn main() { let a = 1; { a = 2; } if a == 2 { return; } else { a -= 1; } }");
    for l in shader.sourcemap.iter() {
        assert!(l.span.is_some());
    }
}

#[test]
fn conditional_layout() {
    let shader = compile("fn main() { if a { b = 1; } else { b = 2; } }");
    assert_eq!(
        body_lines(&shader),
        vec![
            "void yasl_main()",
            "{",
            "if(yasl_a)",
            "{",
            "yasl_b = 1;",
            "}",
            "else",
            "{",
            "yasl_b = 2;",
            "}",
            "}",
        ]
    );
}

#[test]
fn conditional_spans_name_if_and_else() {
    let src = "fn main() { if a { } else { } }";
    let shader = compile(src);
    let if_span = shader.sourcemap[2].span.unwrap();
    assert_eq!(&src[if_span.start..if_span.end], "if");
    let else_span = shader.sourcemap[5].span.unwrap();
    assert_eq!(&src[else_span.start..else_span.end], "else");
    let brace = shader.sourcemap[1].span.unwrap();
    assert_eq!(&src[brace.start..brace.end], "{");
    assert_eq!(shader.sourcemap[8].span, Some(brace));
}

#[test]
fn expression_forms() {
    let shader = compile(
        "fn main() { a = -b; a = !c; a = b as f32; a = v.x; a = f(); a = g(1, 2.5, true); a *= b + c * d; }",
    );
    let lines = body_lines(&shader);
    assert_eq!(
        &lines[2..9],
        &[
            "yasl_a = -yasl_b;",
            "yasl_a = !yasl_c;",
            "yasl_a = float(yasl_b);",
            "yasl_a = yasl_v.x;",
            "yasl_a = yasl_f();",
            "yasl_a = yasl_g(1,2.5,true);",
            "yasl_a *= yasl_b + yasl_c * yasl_d;",
        ]
    );
}

#[test]
fn function_signature_line() {
    let shader = compile("fn mix(a: vec2<i32>, b: u32, c: bool) -> vec3<u32> { }");
    assert_eq!(
        body_lines(&shader),
        vec!["uvec3 yasl_mix(ivec2 yasl_a,uint yasl_b,bool yasl_c)", "{", "}"]
    );
}

#[test]
fn binding_without_initializer() {
    let shader = compile("fn main() { let a: f64; let b; }");
    let lines = body_lines(&shader);
    assert_eq!(lines[2], "double yasl_a ;");
    assert_eq!(lines[3], "void yasl_b ;");
}

#[test]
fn return_with_value() {
    let shader = compile("fn one() -> i32 { return 1; }");
    assert_eq!(body_lines(&shader)[2], "return 1;");
}

#[test]
fn comments_and_white_space_are_dropped() {
    let shader = compile("// a constant\nstatic   X : f32\t=  1.0 ; // trailing\n");
    assert_eq!(body_lines(&shader), vec!["float yasl_X = 1.0;"]);
}

#[test]
fn empty_source_compiles_to_the_frame() {
    let shader = compile("");
    assert_eq!(shader.glsl, "#version 450\n\nvoid main(){ yasl_main(); }");
    assert!(shader.sourcemap.is_empty());
}

#[test]
fn const_fn_is_unsupported() {
    let e = refusal("const fn f() { }");
    assert_eq!(e.kind, ErrorKind::UnsupportedConstructError);
    assert_eq!(e.span, Span { start: 0, end: 5 });
}

#[test]
fn visibility_is_unsupported() {
    assert_eq!(refusal("pub fn f() { }").kind, ErrorKind::UnsupportedConstructError);
    assert_eq!(refusal("pub static A: i32 = 1;").kind, ErrorKind::UnsupportedConstructError);
}

#[test]
fn qualifiers_are_unsupported() {
    for src in ["async fn f() { }", "unsafe fn f() { }", "extern fn f() { }", "static mut A: i32 = 1;"] {
        assert_eq!(refusal(src).kind, ErrorKind::UnsupportedConstructError, "{}", src);
    }
}

#[test]
fn tuple_pattern_is_unsupported() {
    let e = refusal("fn f() { let (a, b) = c; }");
    assert_eq!(e.kind, ErrorKind::UnsupportedConstructError);
    assert_eq!(e.span, Span { start: 13, end: 14 });
    assert_eq!(refusal("fn f() { let _ = c; }").kind, ErrorKind::UnsupportedConstructError);
    assert_eq!(refusal("fn f((a, b): i32) { }").kind, ErrorKind::UnsupportedConstructError);
}

#[test]
fn tuple_type_is_unsupported() {
    assert_eq!(
        refusal("static A: (f32, f32) = 1;").kind,
        ErrorKind::UnsupportedConstructError
    );
    assert_eq!(refusal("fn f() -> () { }").kind, ErrorKind::UnsupportedConstructError);
    assert_eq!(refusal("fn f(a: &f32) { }").kind, ErrorKind::UnsupportedConstructError);
}

#[test]
fn generics_are_unsupported() {
    let e = refusal("fn f<T>() { }");
    assert_eq!(e.kind, ErrorKind::UnsupportedConstructError);
    assert_eq!(e.span, Span { start: 4, end: 5 });
}

#[test]
fn unknown_namespace_is_refused() {
    let e = refusal("fn f() { std::sin(x); }");
    assert_eq!(e.kind, ErrorKind::UnknownIdentifierNamespaceError);
    assert_eq!(e.span, Span { start: 9, end: 12 });
}

#[test]
fn long_path_is_unsupported() {
    assert_eq!(
        refusal("fn f() { glsl::a::b(x); }").kind,
        ErrorKind::UnsupportedConstructError
    );
}

#[test]
fn unknown_type_is_refused() {
    let e = refusal("static A: float = 1;");
    assert_eq!(e.kind, ErrorKind::UnknownTypeError);
    assert_eq!(e.span, Span { start: 10, end: 15 });
    assert_eq!(refusal("static A: vec5<f32> = 1;").kind, ErrorKind::UnknownTypeError);
    assert_eq!(refusal("static A: vec3<vec2> = 1;").kind, ErrorKind::UnknownTypeError);
    assert_eq!(refusal("static A: vec3 = 1;").kind, ErrorKind::UnknownTypeError);
}

#[test]
fn syntax_errors() {
    for src in [
        "static A i32 = 1;",
        "fn f() { a = ; }",
        "fn f() { a = 1 b; }",
        "fn f() {",
        "layout<sideways,0> p: f32;",
        "static A: f32 = 1.0; %",
        "42",
        "fn f() { a b; }",
        "fn f() { let a: ; }",
        "fn f() { ; }",
        "fn f(a: f32 b: f32) { }",
        "fn f() -> { }",
        "static A: vec3<f32 = 1;",
        "fn f() { g(a b); }",
        "fn f() { a.; }",
        "static A: f32 = 1.0 ~",
        "static A: f32 = 1.0; /* open",
    ] {
        assert_eq!(refusal(src).kind, ErrorKind::SyntaxError, "{}", src);
    }
}

#[test]
fn error_at_end_of_input_points_past_the_last_token() {
    let e = refusal("fn f() {");
    assert_eq!(e.span, Span { start: 8, end: 8 });
}

#[test]
fn host_expressions_are_unsupported() {
    for src in [
        "fn f() { a = (b); }",
        "fn f() { a = [1, 2]; }",
        "fn f() { a = b[0]; }",
        "fn f() { a = b.c(); }",
        "fn f() { a = b.0; }",
        "fn f() { a = &b; }",
        "fn f() { a = *b; }",
        "fn f() { while a { } }",
        "fn f() { for a in b { } }",
        "fn f() { loop { } }",
        "fn f() { match a { } }",
        "fn f() { a.x = 1; }",
        "struct S { }",
        "use a::b;",
    ] {
        assert_eq!(refusal(src).kind, ErrorKind::UnsupportedConstructError, "{}", src);
    }
}

#[test]
fn assignment_is_no_value() {
    let e = refusal("fn f() { a = b = c; }");
    assert_eq!(e.kind, ErrorKind::UnsupportedConstructError);
    assert_eq!(e.span, Span { start: 15, end: 16 });
    for src in [
        "fn f() { g(a = b); }",
        "fn f() { g(a += b); }",
        "fn f() { let a = b = c; }",
        "fn f() { if a = b { } }",
        "fn f() { return a = b; }",
        "fn f() { a + b = c; }",
        "static A: i32 = b = c;",
        "fn f() { g(if a { } ); }",
        "fn f() { a = if b { c } else { d }; }",
    ] {
        assert_eq!(refusal(src).kind, ErrorKind::UnsupportedConstructError, "{}", src);
    }
}

#[test]
fn block_value_is_unsupported() {
    let e = refusal("fn f() -> i32 { 1 }");
    assert_eq!(e.kind, ErrorKind::UnsupportedConstructError);
    assert_eq!(e.span, Span { start: 18, end: 19 });
    for src in [
        "fn f() { a = 1 }",
        "fn f() { g() }",
        "fn f() { return }",
        "fn f() { let a = { 1 }; }",
        "fn f() { let a = S { x: 1 }; }",
    ] {
        assert_eq!(refusal(src).kind, ErrorKind::UnsupportedConstructError, "{}", src);
    }
}

#[test]
fn host_tokens_are_unsupported() {
    let e = refusal("fn f() { a = \"text\"; }");
    assert_eq!(e.kind, ErrorKind::UnsupportedConstructError);
    assert_eq!(e.span, Span { start: 13, end: 14 });
    for src in [
        "fn f() { a = 'c'; }",
        "#[inline] fn f() { }",
        "fn f() { a = g()?; }",
        "fn f<'a>() { }",
        "fn f() { let a @ b = c; }",
        "fn f() { $x; }",
    ] {
        assert_eq!(refusal(src).kind, ErrorKind::UnsupportedConstructError, "{}", src);
    }
}

#[test]
fn host_calls_ranges_and_types_are_unsupported() {
    for src in [
        "fn f() { println!(a); }",
        "fn f() { a = vec![1]; }",
        "fn f() { a = b..c; }",
        "fn f() { a = ..c; }",
        "fn f() { a = glsl::<f32>(b); }",
        "fn f() -> ! { }",
        "fn f(self) { }",
        "fn f(mut a: f32) { }",
        "fn f() where T: U { }",
        "fn f() { let a = 1 else { }; }",
        "fn f() { a.await; }",
    ] {
        assert_eq!(refusal(src).kind, ErrorKind::UnsupportedConstructError, "{}", src);
    }
    assert_eq!(refusal("static A: vec3<f32, f32> = 1;").kind, ErrorKind::UnknownTypeError);
    assert_eq!(refusal("static A: a::B = 1;").kind, ErrorKind::UnknownTypeError);
}

#[test]
fn raw_backend_message_passes_through() {
    let shader = compile("static A: i32 = 1;");
    for message in ["no line here", "shader.glsl:99: out of range", "shader.glsl:1: the preamble", "shader.glsl:0: zero", "a:b:c", ""] {
        match translate_backend_error(message, &shader.sourcemap) {
            BackendCompileError::Raw { message: m } => assert_eq!(m, message),
            other => panic!("{:?}", other),
        }
    }
}

#[test]
fn first_anchored_line_wins() {
    let shader = compile("static A: i32 = 1;\nstatic B: i32 = 2;");
    let message = "header\nshader.glsl:7: too far\n\nshader.glsl:3: second\nshader.glsl:2: first";
    match translate_backend_error(message, &shader.sourcemap) {
        BackendCompileError::Located { span, message: m } => {
            assert_eq!(m, "shader.glsl:3: second");
            assert_eq!(Some(span), shader.sourcemap[1].span);
        }
        other => panic!("{:?}", other),
    }
}

#[test]
fn long_expressions_and_deep_nesting() {
    let terms: Vec<String> = (0..500).map(|i| format!("a{}", i)).collect();
    let mut src = format!("fn main() {{ let s = {}; ", terms.join(" + "));
    for _ in 0..100 {
        src.push_str("{ if s { ");
    }
    src.push_str("s = 1;");
    for _ in 0..100 {
        src.push_str(" } }");
    }
    src.push_str(" }");
    let shader = compile(&src);
    let lines: Vec<&str> = shader.glsl.split('\n').collect();
    assert_eq!(lines.len(), shader.sourcemap.len() + 3);
    assert_eq!(shader.sourcemap.len(), 2 + 1 + 100 * 5 + 1 + 1);
    let prefixed: Vec<String> = terms.iter().map(|t| format!("yasl_{}", t)).collect();
    assert_eq!(lines[3], format!("void yasl_s = {};", prefixed.join(" + ")));
}

#[test]
fn line_endings_and_tabs() {
    let shader = compile("static A: i32 = 1;\r\n\tstatic B: i32 = 2;\r\n");
    assert_eq!(body_lines(&shader), vec!["int yasl_A = 1;", "int yasl_B = 2;"]);
    let b = shader.sourcemap[1].span.unwrap();
    assert_eq!(b, Span { start: 28, end: 29 });
}

#[test]
fn else_if_chain() {
    let shader = compile("fn main() { if a { } else if b { } else if c { } else { } }");
    assert_eq!(
        body_lines(&shader),
        vec![
            "void yasl_main()", "{", "if(yasl_a)", "{", "}", "else", "if(yasl_b)", "{", "}",
            "else", "if(yasl_c)", "{", "}", "else", "{", "}", "}",
        ]
    );
}

#[test]
fn nested_function_lines() {
    let shader = compile("fn outer() { fn inner(a: i32) -> i32 { return a; } static K: f32 = 1.0; }");
    assert_eq!(
        body_lines(&shader),
        vec![
            "void yasl_outer()",
            "{",
            "int yasl_inner(int yasl_a)",
            "{",
            "return yasl_a;",
            "}",
            "float yasl_K = 1.0;",
            "}",
        ]
    );
}

#[test]
fn tokens_compile_like_their_source() {
    let src = "static G: f32 = 2.2;\nfn main() { let a = G; }";
    let from_tokens = Shader::parse_tokens(&lex(src).unwrap()).unwrap();
    let from_source = compile(src);
    assert_eq!(from_tokens.glsl, from_source.glsl);
    assert_eq!(from_tokens.sourcemap.len(), from_source.sourcemap.len());
}

#[test]
fn token_with_a_line_feed_is_refused() {
    let mut tokens = lex("static A: i32 = 1;").unwrap();
    assert_eq!(find_ill_formed(&tokens), None);
    tokens[1] = Token {
        kind: TokenKind::Ident,
        text: "A\nB".to_string(),
        span: Span { start: 7, end: 8 },
    };
    assert_eq!(find_ill_formed(&tokens), Some(1));
    assert_eq!(
        Shader::parse_tokens(&tokens).unwrap_err(),
        ParseError { kind: ErrorKind::SyntaxError, span: Span { start: 7, end: 8 } }
    );
}

#[test]
fn hand_made_tokens_compile() {
    let token = |kind: TokenKind, text: &str, at: usize| Token {
        kind,
        text: text.to_string(),
        span: Span { start: at, end: at + 1 },
    };
    let tokens = vec![
        token(TokenKind::Ident, "layout", 0),
        token(TokenKind::Op(BinOp::Lt), "<", 1),
        token(TokenKind::Ident, "output", 2),
        token(TokenKind::Comma, ",", 3),
        token(TokenKind::Int, "2", 4),
        token(TokenKind::Op(BinOp::Gt), ">", 5),
        token(TokenKind::Ident, "c", 6),
        token(TokenKind::Colon, ":", 7),
        token(TokenKind::Ident, "f32", 8),
        token(TokenKind::Semi, ";", 9),
    ];
    let shader = Shader::parse_tokens(&tokens).unwrap();
    assert_eq!(body_lines(&shader), vec!["layout(location=2) out float yasl_c;"]);
    assert_eq!(shader.sourcemap[0].span, Some(Span { start: 6, end: 7 }));
}

#[test]
fn host_numeral_in_a_shader_is_unsupported() {
    let e = refusal("static A: u32 = 1u32;");
    assert_eq!(e.kind, ErrorKind::UnsupportedConstructError);
    assert_eq!(e.span, Span { start: 16, end: 20 });
    for src in ["static A: f32 = 1e5;", "static A: i32 = 0x1F;", "static A: i32 = 1_000;", "static A: f32 = 1.;"] {
        assert_eq!(refusal(src).kind, ErrorKind::UnsupportedConstructError, "{}", src);
    }
}

#[test]
fn block_comments_are_dropped() {
    let shader = compile("/* head */ static /* in /* nested */ side */ X: f32 = 1.0; /**/\n/* two\nlines */");
    assert_eq!(body_lines(&shader), vec!["float yasl_X = 1.0;"]);
    let e = refusal("static X: f32 = 1.0; /* open /* closed */");
    assert_eq!(e.kind, ErrorKind::SyntaxError);
    assert_eq!(e.span, Span { start: 21, end: 23 });
}

#[test]
fn names_outside_ascii_are_unsupported() {
    let e = refusal("static caf\u{e9}: f32 = 1.0;");
    assert_eq!(e.kind, ErrorKind::UnsupportedConstructError);
    assert_eq!(e.span, Span { start: 10, end: 11 });
    assert_eq!(refusal("fn \u{3b1}() { }").kind, ErrorKind::UnsupportedConstructError);
}
