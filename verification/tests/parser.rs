use yasl_core::error::{ErrorKind, ParseError};
use yasl_core::glsl::Glsl;
use yasl_core::lexer::lex;
use yasl_core::span::Span;
use yasl_core::token::{BinOp, Token, TokenKind, UnOp};
use yasl_core::yasl_block::YaslBlock;
use yasl_core::yasl_expr::{LitKind, YaslExprFunctionScope, YaslExprLineScope};
use yasl_core::yasl_file::YaslFile;
use yasl_core::yasl_ident::YaslIdent;
use yasl_core::yasl_item::{LayoutKind, YaslItem, YaslItemFn, YaslItemLayout, YaslItemStatic};
use yasl_core::yasl_stmt::{YaslLocal, YaslStmt};
use yasl_core::yasl_type::{YaslScalarType, YaslType, YaslVecType};

fn tokens(src: &str) -> Vec<Token> {
    lex(src).unwrap()
}

fn expr(src: &str) -> YaslExprLineScope {
    let toks = tokens(src);
    let (e, end) = YaslExprLineScope::parse(&toks, 0).unwrap();
    assert_eq!(end, toks.len());
    e
}

fn text(e: &YaslExprLineScope) -> String {
    e.as_glsl().to_string()
}

fn shape(e: &YaslExprLineScope) -> String {
    match e {
        YaslExprLineScope::Lit(l) => l.text.clone(),
        YaslExprLineScope::Binary(b) => {
            format!("({} {} {})", shape(&b.left), b.op.as_str(), shape(&b.right))
        }
        YaslExprLineScope::Call(c) => {
            let args: Vec<String> = c.args.iter().map(shape).collect();
            format!("{}({})", c.ident.ident, args.join(", "))
        }
        YaslExprLineScope::Cast(c) => format!("({} as {:?})", shape(&c.expr), c.ty),
        YaslExprLineScope::Ident(i) => i.ident.clone(),
        YaslExprLineScope::Unary(u) => format!("({}{})", u.op.as_str(), shape(&u.expr)),
        YaslExprLineScope::Field(f) => format!("({}.{})", shape(&f.base), f.member),
    }
}

#[test]
fn multiplication_binds_tighter_than_addition() {
    assert_eq!(shape(&expr("a + b * c")), "(a + (b * c))");
    assert_eq!(shape(&expr("a * b + c")), "((a * b) + c)");
}

#[test]
fn operators_associate_to_the_left() {
    assert_eq!(shape(&expr("a - b - c")), "((a - b) - c)");
    assert_eq!(shape(&expr("a / b * c % d")), "(((a / b) * c) % d)");
}

#[test]
fn precedence_ladder() {
    assert_eq!(
        shape(&expr("a || b && c == d | e ^ f & g << h + i * j")),
        "(a || (b && (c == (d | (e ^ (f & (g << (h + (i * j)))))))))"
    );
}

#[test]
fn unary_cast_and_member_precedence() {
    assert_eq!(shape(&expr("-a.x")), "(-(a.x))");
    assert_eq!(shape(&expr("-a as f32")), "((-a) as ScalarType(Float32))");
    assert_eq!(shape(&expr("a as i32 * b")), "((a as ScalarType(Int)) * b)");
    assert_eq!(shape(&expr("!!a")), "(!(!a))");
    assert_eq!(shape(&expr("a.x.y")), "((a.x).y)");
    assert_eq!(shape(&expr("a as f32 as f64")), "((a as ScalarType(Float32)) as ScalarType(Float64))");
    assert_eq!(shape(&expr("a - -b")), "(a - (-b))");
}

#[test]
fn calls_and_arguments() {
    assert_eq!(shape(&expr("f()")), "f()");
    assert_eq!(shape(&expr("f(a, b + 1, g(c))")), "f(a, (b + 1), g(c))");
    assert_eq!(shape(&expr("f(a,)")), "f(a)");
    assert_eq!(text(&expr("f(a, b + 1, g(c))")), "yasl_f(yasl_a,yasl_b + 1,yasl_g(yasl_c))");
}

#[test]
fn parse_stops_where_the_expression_ends() {
    let toks = tokens("a + b ; c");
    let (e, end) = YaslExprLineScope::parse(&toks, 0).unwrap();
    assert_eq!(shape(&e), "(a + b)");
    assert_eq!(end, 3);
    let (e, end) = YaslExprLineScope::parse(&toks, 2).unwrap();
    assert_eq!(shape(&e), "b");
    assert_eq!(end, 3);
    let toks = tokens("a += 1");
    let (_, end) = YaslExprLineScope::parse(&toks, 0).unwrap();
    assert_eq!(end, 1);
}

#[test]
fn literal_kinds_and_types() {
    match expr("1") {
        YaslExprLineScope::Lit(l) => {
            assert_eq!(l.kind, LitKind::Int);
            assert_eq!(l.get_type(), Some(YaslType::ScalarType(YaslScalarType::Int)));
        }
        other => panic!("{:?}", other),
    }
    match expr("1.5") {
        YaslExprLineScope::Lit(l) => {
            assert_eq!(l.kind, LitKind::Float);
            assert_eq!(l.get_type(), Some(YaslType::ScalarType(YaslScalarType::Float32)));
        }
        other => panic!("{:?}", other),
    }
    match expr("false") {
        YaslExprLineScope::Lit(l) => {
            assert_eq!(l.kind, LitKind::Bool);
            assert_eq!(l.get_type(), Some(YaslType::ScalarType(YaslScalarType::Bool)));
        }
        other => panic!("{:?}", other),
    }
    assert_eq!(LitKind::Int.type_of(), YaslType::ScalarType(YaslScalarType::Int));
}

#[test]
fn attached_types() {
    assert_eq!(expr("1 + a").get_type(), Some(YaslType::ScalarType(YaslScalarType::Int)));
    assert_eq!(expr("a + 1").get_type(), None);
    assert_eq!(
        expr("a as f32").get_type(),
        Some(YaslType::ScalarType(YaslScalarType::Float32))
    );
    assert_eq!(expr("-a").get_type(), None);
    assert_eq!(expr("a.x").get_type(), None);
    assert_eq!(expr("f(1)").get_type(), None);
}

#[test]
fn expression_spans() {
    let src = "aa + b";
    assert_eq!(expr(src).span(), Span { start: 0, end: 2 });
    assert_eq!(expr("-aa").span(), Span { start: 0, end: 1 });
    assert_eq!(expr("aa.bcd").span(), Span { start: 3, end: 6 });
    assert_eq!(expr("glsl::sin(x)").span(), Span { start: 6, end: 9 });
    assert_eq!(expr("aa as f32").span(), Span { start: 0, end: 2 });
    assert_eq!(expr("12").span(), Span { start: 0, end: 2 });
}

#[test]
fn types() {
    let cases = [
        ("i32", YaslType::ScalarType(YaslScalarType::Int), "int"),
        ("u32", YaslType::ScalarType(YaslScalarType::UInt), "uint"),
        ("f32", YaslType::ScalarType(YaslScalarType::Float32), "float"),
        ("f64", YaslType::ScalarType(YaslScalarType::Float64), "double"),
        ("bool", YaslType::ScalarType(YaslScalarType::Bool), "bool"),
        ("vec2<f32>", YaslType::Vec(YaslVecType::Vec2(YaslScalarType::Float32)), "vec2"),
        ("vec3<i32>", YaslType::Vec(YaslVecType::Vec3(YaslScalarType::Int)), "ivec3"),
        ("vec4<u32>", YaslType::Vec(YaslVecType::Vec4(YaslScalarType::UInt)), "uvec4"),
        ("vec2<bool>", YaslType::Vec(YaslVecType::Vec2(YaslScalarType::Bool)), "bvec2"),
        ("vec3<f64>", YaslType::Vec(YaslVecType::Vec3(YaslScalarType::Float64)), "dvec3"),
    ];
    for (src, ty, glsl) in cases {
        let toks = tokens(src);
        assert_eq!(YaslType::parse(&toks, 0), Ok((ty, toks.len())), "{}", src);
        assert_eq!(ty.as_glsl(), glsl);
    }
    assert_eq!(YaslType::Void.as_glsl(), "void");
    assert_eq!(YaslScalarType::from_name("f32"), Some(YaslScalarType::Float32));
    assert_eq!(YaslScalarType::from_name("float"), None);
    assert_eq!(
        YaslVecType::from_name("vec3", YaslScalarType::Int),
        Some(YaslVecType::Vec3(YaslScalarType::Int))
    );
    assert_eq!(YaslVecType::from_name("vec1", YaslScalarType::Int), None);
    assert_eq!(YaslScalarType::UInt.as_glsl(), "uint");
    assert_eq!(YaslVecType::Vec4(YaslScalarType::Bool).as_glsl(), "bvec4");
}

#[test]
fn type_errors() {
    let toks = tokens("vec3<f32");
    assert_eq!(
        YaslType::parse(&toks, 0),
        Err(ParseError { kind: ErrorKind::SyntaxError, span: Span { start: 8, end: 8 } })
    );
    let toks = tokens("foo<f32>");
    assert_eq!(
        YaslType::parse(&toks, 0),
        Err(ParseError { kind: ErrorKind::UnknownTypeError, span: Span { start: 0, end: 3 } })
    );
    let toks = tokens("vec3<f32>=");
    assert_eq!(YaslType::parse(&toks, 0).unwrap_err().kind, ErrorKind::SyntaxError);
    let toks = tokens("");
    assert_eq!(
        YaslType::parse(&toks, 0),
        Err(ParseError { kind: ErrorKind::SyntaxError, span: Span { start: 0, end: 0 } })
    );
}

#[test]
fn paths_and_prefixes() {
    let cases = [
        ("a", "yasl_"),
        ("glsl::a", ""),
        ("f32::a", ""),
        ("f64::a", "d"),
        ("bool::a", "b"),
        ("i32::a", "i"),
        ("u32::a", "u"),
    ];
    for (src, prefix) in cases {
        let toks = tokens(src);
        let (id, end) = YaslIdent::parse_path(&toks, 0).unwrap();
        assert_eq!(end, toks.len());
        assert_eq!(id.prefix, prefix);
        assert_eq!(id.ident, "a");
        assert_eq!(id.ty, None);
        assert_eq!(id.to_string(), format!("{}a", prefix));
        match id.as_glsl() {
            Glsl::Expr(s) => assert_eq!(s, format!("{}a", prefix)),
            other => panic!("{:?}", other),
        }
    }
    let toks = tokens("vec::a");
    assert_eq!(
        YaslIdent::parse_path(&toks, 0).unwrap_err(),
        ParseError {
            kind: ErrorKind::UnknownIdentifierNamespaceError,
            span: Span { start: 0, end: 3 }
        }
    );
    assert_eq!(
        YaslIdent::with_namespace("f64", Span::point(0), "x".to_string(), Span::new(1, 2))
            .unwrap()
            .to_string(),
        "dx"
    );
    assert!(YaslIdent::with_namespace("", Span::point(0), "x".to_string(), Span::point(0)).is_err());
}

#[test]
fn vector_constructor_names_get_the_default_prefix() {
    assert_eq!(text(&expr("vec3(1.0, 2.0, 3.0)")), "yasl_vec3(1.0,2.0,3.0)");
    assert_eq!(text(&expr("glsl::vec3(1.0, 2.0, 3.0)")), "vec3(1.0,2.0,3.0)");
}

#[test]
fn identifier_accessors() {
    let mut id = YaslIdent::new("a".to_string(), Span::new(3, 4));
    assert_eq!(id.span(), Span { start: 3, end: 4 });
    assert_eq!(id.get_type(), None);
    id.set_type(YaslType::Void);
    assert_eq!(id.get_type(), Some(YaslType::Void));
    let copy = id.clone();
    assert_eq!(copy.to_string(), "yasl_a");
    assert_eq!(copy.ty, Some(YaslType::Void));
}

#[test]
fn local_bindings() {
    let toks = tokens("let a: f32 = 1.0;");
    let (l, end) = YaslLocal::parse(&toks, 0).unwrap();
    assert_eq!(end, toks.len() - 1);
    assert_eq!(l.ident.ident, "a");
    assert_eq!(l.get_type(), Some(YaslType::ScalarType(YaslScalarType::Float32)));
    assert!(l.init.is_some());
    let toks = tokens("let a;");
    let (l, _) = YaslLocal::parse(&toks, 0).unwrap();
    assert_eq!(l.ty, None);
    assert!(l.init.is_none());
    assert!(l.get_ident().is_none());
    let toks = tokens("let mut a = 1;");
    assert_eq!(
        YaslLocal::parse(&toks, 0).unwrap_err().kind,
        ErrorKind::UnsupportedConstructError
    );
}

#[test]
fn statements_and_semicolons() {
    let toks = tokens("a = 1; if a { } { } b;");
    let (s, p) = YaslStmt::parse(&toks, 0).unwrap();
    assert!(matches!(s, YaslStmt::Expr(YaslExprFunctionScope::Assign(_))));
    let (s, p) = YaslStmt::parse(&toks, p).unwrap();
    assert!(matches!(s, YaslStmt::Expr(YaslExprFunctionScope::If(_))));
    let (s, p) = YaslStmt::parse(&toks, p).unwrap();
    assert!(matches!(s, YaslStmt::Expr(YaslExprFunctionScope::Block(_))));
    let (s, p) = YaslStmt::parse(&toks, p).unwrap();
    assert!(matches!(s, YaslStmt::Expr(YaslExprFunctionScope::Value(_))));
    assert_eq!(p, toks.len());
    let toks = tokens("f(); if a { };");
    let (s, p) = YaslStmt::parse(&toks, 0).unwrap();
    assert!(matches!(s, YaslStmt::Expr(YaslExprFunctionScope::Call(_))));
    let (_, p) = YaslStmt::parse(&toks, p).unwrap();
    assert_eq!(p, toks.len());
}

#[test]
fn statement_expressions() {
    let toks = tokens("return a + 1");
    let (e, end) = YaslExprFunctionScope::parse(&toks, 0).unwrap();
    assert_eq!(end, toks.len());
    match e {
        YaslExprFunctionScope::Return(r) => {
            assert_eq!(r.span(), Span { start: 0, end: 6 });
            assert_eq!(shape(r.expr.as_ref().unwrap()), "(a + 1)");
        }
        other => panic!("{:?}", other),
    }
    let toks = tokens("a <<= 2");
    match YaslExprFunctionScope::parse(&toks, 0).unwrap().0 {
        YaslExprFunctionScope::AssignOp(a) => {
            assert_eq!(a.op, BinOp::ShlEq);
            assert_eq!(a.span(), Span { start: 0, end: 1 });
            assert_eq!(a.as_glsl().to_string(), "yasl_a <<= 2");
        }
        other => panic!("{:?}", other),
    }
    let toks = tokens("glsl::gl_Position = p");
    match YaslExprFunctionScope::parse(&toks, 0).unwrap().0 {
        YaslExprFunctionScope::Assign(a) => {
            assert_eq!(a.as_glsl().to_string(), "gl_Position = yasl_p");
            assert_eq!(a.span(), Span { start: 6, end: 17 });
        }
        other => panic!("{:?}", other),
    }
    let toks = tokens("if a { } else if b { } else return 1");
    let (e, end) = YaslExprFunctionScope::parse(&toks, 0).unwrap();
    assert_eq!(end, toks.len());
    assert!(e.is_block_like());
    match e {
        YaslExprFunctionScope::If(i) => {
            assert_eq!(i.span(), Span { start: 0, end: 2 });
            match i.else_branch {
                Some((_, inner)) => assert!(matches!(*inner, YaslExprFunctionScope::If(_))),
                None => panic!(),
            }
        }
        other => panic!("{:?}", other),
    }
}

#[test]
fn blocks() {
    let toks = tokens("{ let a = 1; { } }");
    let (b, end) = YaslBlock::parse(&toks, 0).unwrap();
    assert_eq!(end, toks.len());
    assert_eq!(b.stmts.len(), 2);
    assert_eq!(b.span, Span { start: 0, end: 1 });
    let toks = tokens("{ a; ");
    assert_eq!(
        YaslBlock::parse(&toks, 0).unwrap_err(),
        ParseError { kind: ErrorKind::SyntaxError, span: Span { start: 4, end: 4 } }
    );
    let toks = tokens("a");
    assert_eq!(YaslBlock::parse(&toks, 0).unwrap_err().kind, ErrorKind::SyntaxError);
}

#[test]
fn items() {
    let toks = tokens("static A: u32 = 3;");
    match YaslItemStatic::parse(&toks, 0).unwrap() {
        (YaslItem::Static(s), end) => {
            assert_eq!(end, toks.len());
            assert_eq!(s.ident.ident, "A");
            assert_eq!(s.ty, YaslType::ScalarType(YaslScalarType::UInt));
        }
        other => panic!("{:?}", other),
    }
    let toks = tokens("layout<output, 3> c: vec4<f32>;");
    match YaslItemLayout::parse(&toks, 0).unwrap() {
        (YaslItem::Layout(l), end) => {
            assert_eq!(end, toks.len());
            assert_eq!(l.kind, LayoutKind::Output);
            assert_eq!(l.pos, 3);
            assert_eq!(l.ident.ident, "c");
        }
        other => panic!("{:?}", other),
    }
    let toks = tokens("fn f(a: f32, b: vec2<i32>,) -> bool { return true; }");
    match YaslItemFn::parse(&toks, 0).unwrap() {
        (YaslItem::Fn(f), end) => {
            assert_eq!(end, toks.len());
            assert_eq!(f.ident.ident, "f");
            assert_eq!(f.args.len(), 2);
            assert_eq!(f.args[1].0.ident, "b");
            assert_eq!(f.args[1].1, YaslType::Vec(YaslVecType::Vec2(YaslScalarType::Int)));
            assert_eq!(f.output, YaslType::ScalarType(YaslScalarType::Bool));
            assert_eq!(f.block.stmts.len(), 1);
        }
        other => panic!("{:?}", other),
    }
    let layout = YaslItemLayout {
        kind: LayoutKind::Input,
        pos: 0,
        ident: YaslIdent::new("p".to_string(), Span::point(0)),
        ty: YaslType::Void,
    };
    assert!(matches!(YaslItem::from(layout), YaslItem::Layout(_)));
}

#[test]
fn layout_errors() {
    let toks = tokens("layout<input, 99999999999999999999999999> c: f32;");
    assert_eq!(
        YaslItemLayout::parse(&toks, 0).unwrap_err(),
        ParseError { kind: ErrorKind::SyntaxError, span: Span { start: 14, end: 40 } }
    );
    let toks = tokens("layout<middle, 1> c: f32;");
    assert_eq!(
        YaslItemLayout::parse(&toks, 0).unwrap_err(),
        ParseError { kind: ErrorKind::SyntaxError, span: Span { start: 0, end: 6 } }
    );
    let toks = tokens("layout<input, 1.5> c: f32;");
    assert_eq!(YaslItemLayout::parse(&toks, 0).unwrap_err().kind, ErrorKind::SyntaxError);
}

#[test]
fn layout_is_an_ordinary_name_inside_functions() {
    let toks = tokens("fn f() { layout = 1; }");
    assert!(YaslFile::parse(&toks).is_ok());
    let toks = tokens("fn f() { layout<input,0> p: f32; }");
    assert!(YaslFile::parse(&toks).is_err());
}

#[test]
fn nested_items() {
    let toks = tokens("fn f() { static A: i32 = 1; fn g() { } }");
    let file = YaslFile::parse(&toks).unwrap();
    match &file.items[0] {
        YaslItem::Fn(f) => {
            assert!(matches!(f.block.stmts[0], YaslStmt::Item(YaslItem::Static(_))));
            assert!(matches!(f.block.stmts[1], YaslStmt::Item(YaslItem::Fn(_))));
        }
        other => panic!("{:?}", other),
    }
}

#[test]
fn module_items_in_order() {
    let toks = tokens("layout<input,0> a: f32; static B: f32 = 1.0; fn c() { }");
    let file = YaslFile::parse(&toks).unwrap();
    assert_eq!(file.items.len(), 3);
    assert!(matches!(file.items[0], YaslItem::Layout(_)));
    assert!(matches!(file.items[1], YaslItem::Static(_)));
    assert!(matches!(file.items[2], YaslItem::Fn(_)));
    assert!(YaslFile::parse(&tokens("")).unwrap().items.is_empty());
}

#[test]
fn unary_operator_spelling() {
    assert_eq!(UnOp::Not.as_str(), "!");
    assert_eq!(UnOp::Neg.as_str(), "-");
    match expr("-a") {
        YaslExprLineScope::Unary(u) => assert_eq!(u.op, UnOp::Neg),
        other => panic!("{:?}", other),
    }
}

#[test]
fn error_descriptions() {
    assert_eq!(ErrorKind::SyntaxError.describe(), "syntax error");
    assert_eq!(ErrorKind::UnsupportedConstructError.describe(), "unsupported construct");
    assert_eq!(ErrorKind::UnknownTypeError.describe(), "unknown type");
    assert_eq!(
        ErrorKind::UnknownIdentifierNamespaceError.describe(),
        "only 'glsl,f32,f64,bool,i32,u32' prefix is allowed"
    );
}

#[test]
fn token_kind_of_minus_is_an_operator() {
    assert_eq!(tokens("-")[0].kind, TokenKind::Op(BinOp::Sub));
}

#[test]
fn cast_has_its_target_type() {
    let float = Some(YaslType::ScalarType(YaslScalarType::Float32));
    assert_eq!(expr("1 as f32").get_type(), float);
    assert_eq!(expr("1 as f32 + 2").get_type(), float);
    assert_eq!(expr("1 as i32 as f32").get_type(), float);
    assert_eq!(
        expr("a as vec2<u32> * b").get_type(),
        Some(YaslType::Vec(YaslVecType::Vec2(YaslScalarType::UInt)))
    );
    match expr("1 as f32") {
        YaslExprLineScope::Cast(c) => assert_eq!(c.get_type(), float),
        other => panic!("{:?}", other),
    }
    assert_eq!(expr("1 + 2 as f32").get_type(), Some(YaslType::ScalarType(YaslScalarType::Int)));
}
