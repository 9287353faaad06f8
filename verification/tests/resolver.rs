use yasl_core::lexer::lex;
use yasl_core::resolve::TypeEnv;
use yasl_core::shader::Shader;
use yasl_core::span::Span;
use yasl_core::yasl_block::YaslBlock;
use yasl_core::yasl_expr::{YaslExprFunctionScope, YaslExprLineScope};
use yasl_core::yasl_file::YaslFile;
use yasl_core::yasl_ident::YaslIdent;
use yasl_core::yasl_item::YaslItem;
use yasl_core::yasl_stmt::{YaslLocal, YaslStmt};
use yasl_core::yasl_type::{YaslScalarType, YaslType, YaslVecType};

const INT: YaslType = YaslType::ScalarType(YaslScalarType::Int);
const FLOAT: YaslType = YaslType::ScalarType(YaslScalarType::Float32);
const BOOL: YaslType = YaslType::ScalarType(YaslScalarType::Bool);

fn resolved(src: &str) -> YaslFile {
    let mut file = YaslFile::parse(&lex(src).unwrap()).unwrap();
    file.attempt_type_anotation();
    file
}

fn body(file: &YaslFile, item: usize) -> &YaslBlock {
    match &file.items[item] {
        YaslItem::Fn(f) => &f.block,
        other => panic!("{:?}", other),
    }
}

fn local(block: &YaslBlock, stmt: usize) -> &YaslLocal {
    match &block.stmts[stmt] {
        YaslStmt::Local(l) => l,
        other => panic!("{:?}", other),
    }
}

fn types(src: &str) -> Vec<Option<YaslType>> {
    let file = resolved(src);
    let block = body(&file, file.items.len() - 1);
    block
        .stmts
        .iter()
        .filter_map(|s| match s {
            YaslStmt::Local(l) => Some(l.ty),
            _ => None,
        })
        .collect()
}

fn expr(src: &str) -> YaslExprLineScope {
    YaslExprLineScope::parse(&lex(src).unwrap(), 0).unwrap().0
}

#[test]
fn literals_give_their_type() {
    assert_eq!(
        types("fn f() { let a = 1; let b = 1.5; let c = true; }"),
        vec![Some(INT), Some(FLOAT), Some(BOOL)]
    );
}

#[test]
fn binary_takes_the_type_of_its_left_operand() {
    assert_eq!(
        types("fn f() { let a = 1 + 2.5; let b = 2.5 + 1; let c = 1 < 2; }"),
        vec![Some(INT), Some(FLOAT), Some(INT)]
    );
}

#[test]
fn cast_gives_its_target() {
    assert_eq!(
        types("fn f() { let a = 1 as f64; let b = x as vec2<i32>; }"),
        vec![
            Some(YaslType::ScalarType(YaslScalarType::Float64)),
            Some(YaslType::Vec(YaslVecType::Vec2(YaslScalarType::Int)))
        ]
    );
}

#[test]
fn unary_and_member_have_no_type() {
    assert_eq!(
        types("fn f() { let a = -1; let b = v.x; let c = !true; }"),
        vec![Some(YaslType::Void), Some(YaslType::Void), Some(YaslType::Void)]
    );
}

#[test]
fn declared_type_stands() {
    assert_eq!(types("fn f() { let a: f32 = 1; let b = a; }"), vec![Some(FLOAT), Some(FLOAT)]);
}

#[test]
fn binding_is_visible_after_it_and_not_before() {
    assert_eq!(
        types("fn f() { let a = b; let b = 1; let c = b; let d = c; }"),
        vec![Some(YaslType::Void), Some(INT), Some(INT), Some(INT)]
    );
}

#[test]
fn later_binding_shadows() {
    assert_eq!(
        types("fn f() { let a = 1; let b = a; let a = 2.0; let c = a; }"),
        vec![Some(INT), Some(INT), Some(FLOAT), Some(FLOAT)]
    );
}

#[test]
fn unresolved_defaults_to_void() {
    assert_eq!(
        types("fn f() { let a; let b = unknown; let c = a; }"),
        vec![Some(YaslType::Void), Some(YaslType::Void), Some(YaslType::Void)]
    );
    let shader = Shader::parse("fn f() { let b = unknown; }").unwrap();
    assert_eq!(shader.sourcemap[2].glsl_string, "void yasl_b = yasl_unknown");
}

#[test]
fn constants_and_functions_seed_the_mapping() {
    assert_eq!(
        types("static G: f32 = 2.2; fn h() -> bool { } fn f() { let a = G; let b = h(); let c = f(); }"),
        vec![Some(FLOAT), Some(BOOL), Some(YaslType::Void)]
    );
}

#[test]
fn forward_references_are_not_resolved() {
    let file = resolved("fn f() { let a = later(); let b = LATER; } fn later() -> i32 { } static LATER: i32 = 1;");
    let block = body(&file, 0);
    assert_eq!(local(block, 0).ty, Some(YaslType::Void));
    assert_eq!(local(block, 1).ty, Some(YaslType::Void));
}

#[test]
fn interface_slots_and_parameters_are_not_in_the_mapping() {
    assert_eq!(
        types("layout<input,0> p: vec3<f32>; fn f(q: f32) { let a = p; let b = q; }"),
        vec![Some(YaslType::Void), Some(YaslType::Void)]
    );
}

#[test]
fn builtin_calls_have_no_type() {
    assert_eq!(types("fn f() { let a = glsl::sin(1.0); }"), vec![Some(YaslType::Void)]);
}

#[test]
fn nested_block_sees_outer_bindings_and_does_not_leak() {
    let file = resolved("fn f() { let a = 1; { let b = a; let c = 2.0; } let d = c; if a { let e = a; } else { let g = e; } }");
    let block = body(&file, 0);
    match &block.stmts[1] {
        YaslStmt::Expr(YaslExprFunctionScope::Block(inner)) => {
            assert_eq!(local(inner, 0).ty, Some(INT));
            assert_eq!(local(inner, 1).ty, Some(FLOAT));
        }
        other => panic!("{:?}", other),
    }
    assert_eq!(local(block, 2).ty, Some(YaslType::Void));
    match &block.stmts[3] {
        YaslStmt::Expr(YaslExprFunctionScope::If(i)) => {
            assert_eq!(local(&i.then_branch, 0).ty, Some(INT));
            match &i.else_branch {
                Some((_, e)) => match &**e {
                    YaslExprFunctionScope::Block(b) => {
                        assert_eq!(local(b, 0).ty, Some(YaslType::Void))
                    }
                    other => panic!("{:?}", other),
                },
                None => panic!(),
            }
        }
        other => panic!("{:?}", other),
    }
}

#[test]
fn nested_items_enter_the_mapping() {
    let file = resolved("fn f() { static K: u32 = 1; fn g() -> f32 { let a = K; let b = g(); } let c = K; let d = g(); }");
    let block = body(&file, 0);
    match &block.stmts[1] {
        YaslStmt::Item(YaslItem::Fn(g)) => {
            assert_eq!(local(&g.block, 0).ty, Some(YaslType::ScalarType(YaslScalarType::UInt)));
            assert_eq!(local(&g.block, 1).ty, Some(FLOAT));
        }
        other => panic!("{:?}", other),
    }
    assert_eq!(local(block, 2).ty, Some(YaslType::ScalarType(YaslScalarType::UInt)));
    assert_eq!(local(block, 3).ty, Some(FLOAT));
}

#[test]
fn initializer_names_are_annotated() {
    let file = resolved("static G: f32 = 1.0; fn h(a: i32) -> bool { } fn f() { let a = h(G + x) + G.y; let b: i32 = G; }");
    let block = body(&file, 2);
    match local(block, 0).init.as_ref().unwrap() {
        YaslExprLineScope::Binary(b) => {
            match &*b.left {
                YaslExprLineScope::Call(c) => {
                    assert_eq!(c.ident.ty, Some(BOOL));
                    assert_eq!(c.get_type(), Some(BOOL));
                    match &c.args[0] {
                        YaslExprLineScope::Binary(sum) => {
                            match &*sum.left {
                                YaslExprLineScope::Ident(i) => assert_eq!(i.ty, Some(FLOAT)),
                                other => panic!("{:?}", other),
                            }
                            match &*sum.right {
                                YaslExprLineScope::Ident(i) => assert_eq!(i.ty, None),
                                other => panic!("{:?}", other),
                            }
                        }
                        other => panic!("{:?}", other),
                    }
                }
                other => panic!("{:?}", other),
            }
            match &*b.right {
                YaslExprLineScope::Field(f) => match &*f.base {
                    YaslExprLineScope::Ident(i) => assert_eq!(i.ty, Some(FLOAT)),
                    other => panic!("{:?}", other),
                },
                other => panic!("{:?}", other),
            }
        }
        other => panic!("{:?}", other),
    }
    assert_eq!(local(block, 0).ty, Some(BOOL));
    match local(block, 1).init.as_ref().unwrap() {
        YaslExprLineScope::Ident(i) => assert_eq!(i.ty, None),
        other => panic!("{:?}", other),
    }
}

#[test]
fn infer_type_reads_the_mapping() {
    let mut env = TypeEnv::new();
    assert_eq!(env.get("yasl_a"), None);
    env.insert("yasl_a".to_string(), INT);
    env.insert("yasl_f".to_string(), BOOL);
    assert_eq!(expr("a").infer_type(&env), INT);
    assert_eq!(expr("a * 2.0").infer_type(&env), INT);
    assert_eq!(expr("f(1)").infer_type(&env), BOOL);
    assert_eq!(expr("glsl::a").infer_type(&env), YaslType::Void);
    assert_eq!(expr("b").infer_type(&env), YaslType::Void);
    assert_eq!(expr("a as f32").infer_type(&env), FLOAT);
    assert_eq!(expr("3").infer_type(&env), INT);
}

#[test]
fn mapping_replaces_and_copies() {
    let mut env = TypeEnv::new();
    env.insert("a".to_string(), INT);
    env.insert("b".to_string(), BOOL);
    env.insert("a".to_string(), FLOAT);
    assert_eq!(env.get("a"), Some(FLOAT));
    assert_eq!(env.get("b"), Some(BOOL));
    assert_eq!(env.get(""), None);
    let mut copy = env.clone();
    copy.insert("b".to_string(), INT);
    assert_eq!(copy.get("b"), Some(INT));
    assert_eq!(env.get("b"), Some(BOOL));
    assert_eq!(copy.get("a"), Some(FLOAT));
}

#[test]
fn annotation_sets_types_in_place() {
    let mut env = TypeEnv::new();
    env.insert("yasl_a".to_string(), INT);
    let mut e = expr("-a + b as f32");
    e.attempt_type_anotation(&env);
    assert_eq!(e.get_type(), None);
    let mut e = expr("a + b");
    assert_eq!(e.get_type(), None);
    e.attempt_type_anotation(&env);
    assert_eq!(e.get_type(), Some(INT));
    let mut id = YaslIdent::new("a".to_string(), Span::point(0));
    id.attempt_type_anotation(&env);
    assert_eq!(id.ty, Some(INT));
    let mut other = YaslIdent::new("z".to_string(), Span::point(0));
    other.set_type(BOOL);
    other.attempt_type_anotation(&env);
    assert_eq!(other.ty, Some(BOOL));
}

#[test]
fn declared_identifiers() {
    let file = resolved("layout<input,0> p: f32; static G: f32 = 1.0; fn h() -> bool { let a = 1; a = 2; }");
    assert!(file.items[0].update_idents().is_empty());
    let g = file.items[1].update_idents();
    assert_eq!(g.len(), 1);
    assert_eq!(g[0].to_string(), "yasl_G");
    assert_eq!(g[0].ty, Some(FLOAT));
    let h = file.items[2].update_idents();
    assert_eq!(h[0].to_string(), "yasl_h");
    assert_eq!(h[0].ty, Some(BOOL));
    let block = body(&file, 2);
    let a = block.stmts[0].update_idents();
    assert_eq!(a.len(), 1);
    assert_eq!(a[0].to_string(), "yasl_a");
    assert_eq!(a[0].ty, Some(INT));
    assert!(block.stmts[1].update_idents().is_empty());
    let ident = local(block, 0).get_ident().unwrap();
    assert_eq!(ident.ty, Some(INT));
    assert_eq!(ident.span, local(block, 0).ident.span);
}

#[test]
fn resolving_twice_changes_nothing_more() {
    let src = "static G: f32 = 1.0; fn f() { let a = G; { let b = a; } }";
    let mut file = resolved(src);
    let once = Shader::from_file(YaslFile::parse(&lex(src).unwrap()).unwrap()).glsl;
    file.attempt_type_anotation();
    assert_eq!(Shader::from_file(file).glsl, once);
}

#[test]
fn cast_binding_emits_its_target() {
    let shader = Shader::parse("fn f() { let a = 1 as f32; let b = a as i32 + 1; }").unwrap();
    assert_eq!(shader.sourcemap[2].glsl_string, "float yasl_a = float(1)");
    assert_eq!(shader.sourcemap[3].glsl_string, "int yasl_b = int(yasl_a) + 1");
}

#[test]
fn carried_type_agrees_with_inferred_type() {
    let mut env = TypeEnv::new();
    env.insert("yasl_a".to_string(), INT);
    env.insert("yasl_f".to_string(), BOOL);
    for src in ["1", "1.5", "true", "a", "b", "a + 1.0", "f(a)", "g(a)", "a as f32", "-a", "a.x",
        "a as f32 * 2", "f(1) as f64 - a", "glsl::a"] {
        let mut e = expr(src);
        let inferred = e.infer_type(&env);
        e.attempt_type_anotation(&env);
        assert_eq!(e.get_type().unwrap_or(YaslType::Void), inferred, "{}", src);
    }
}
