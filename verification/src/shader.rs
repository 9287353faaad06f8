//! The compiler driver: from source text to GLSL text and its source map.

use vstd::prelude::*;
use vstd::string::*;
use crate::diagnostics::{
    BackendCompileError, PREAMBLE_LINE_COUNT, translate_backend_error, translation,
};
use crate::error::{ErrorKind, ParseError};
use crate::generate::{
    entry_point, lemma_fixed_texts_are_line_text, lemma_module_lines_wf, module_lines, output_text,
    preamble,
};
use crate::glsl::{
    Glsl, GlslLine, SourceMap, lemma_text_is_render_of_lines, lines_view, lines_wf, render_lines,
};
use crate::grammar::parse_module;
use crate::lexer::{lex, tokenize};
use crate::resolve::{lemma_resolve_module_wf, resolve_module};
use crate::text::{lemma_find_in_is, lemma_split_step, split, split_range};
use crate::token::{Token, TokenV, find_ill_formed, first_ill_formed, tokens_view};
use crate::yasl_file::{Module, YaslFile};

verus! {

/// A compiled shader as the specifications see it.
pub struct Compiled {
    /// The GLSL text.
    pub text: Seq<char>,
    /// The generated lines of the body, in output order.
    pub sourcemap: SourceMap,
}

impl Compiled {
    /// The source map is line-accurate: each of its lines is the line of
    /// the text at the same place, counted after the preamble, and the
    /// text has no other lines but the preamble before them and an empty
    /// line and the entry point after them.
    pub open spec fn is_line_accurate(self) -> bool {
        &&& split(self.text, '\n').len() == PREAMBLE_LINE_COUNT + self.sourcemap.len() + 2
        &&& forall|i: int|
            0 <= i < self.sourcemap.len() ==> split(self.text, '\n')[PREAMBLE_LINE_COUNT + i]
                == (#[trigger] self.sourcemap[i]).emitted()
    }
}

/// What a module compiles to: it is resolved, its lines are generated,
/// and the text is made of them.
pub open spec fn compile_module(m: Module) -> Compiled {
    let lines = module_lines(resolve_module(m));
    Compiled { text: output_text(lines), sourcemap: lines }
}

/// What a token sequence compiles to, or the error that refuses it: a
/// syntax error at the first token whose text holds a line feed, else the
/// error of the grammar.
pub open spec fn compile_tokens(toks: Seq<TokenV>) -> Result<Compiled, ParseError> {
    match first_ill_formed(toks, 0) {
        Some(i) => Err(ParseError { kind: ErrorKind::SyntaxError, span: toks[i].span }),
        None => match parse_module(toks) {
            Ok(m) => Ok(compile_module(m)),
            Err(e) => Err(e),
        },
    }
}

/// What a source compiles to, or the error that refuses it.
pub open spec fn compile(src: Seq<char>) -> Result<Compiled, ParseError> {
    match tokenize(src, 0) {
        Ok(toks) => compile_tokens(toks),
        Err(e) => Err(e),
    }
}

/// `r` is what compiling `src` gives: the shader that the source compiles
/// to, or the error that refuses it.
pub open spec fn is_compilation_of(r: Result<Shader, ParseError>, src: Seq<char>) -> bool {
    match compile(src) {
        Ok(c) => r matches Ok(s) && s@ == c,
        Err(e) => r matches Err(x) && x == e,
    }
}

/// Compiling is deterministic: whatever two compilations of one source
/// give, both fail with the same error, or both succeed with the same
/// text and the same source map.
pub proof fn lemma_compilation_is_deterministic(
    src: Seq<char>,
    a: Result<Shader, ParseError>,
    b: Result<Shader, ParseError>,
)
    requires
        is_compilation_of(a, src),
        is_compilation_of(b, src),
    ensures
        a is Ok <==> b is Ok,
        a matches Ok(x) ==> b matches Ok(y) && x.glsl@ == y.glsl@ && lines_view(x.sourcemap@)
            == lines_view(y.sourcemap@),
        a matches Err(e) ==> b matches Err(f) && e == f,
{
}

/// A compiled shader: the GLSL text and the source map of its body.
#[derive(Debug)]
pub struct Shader {
    pub glsl: String,
    pub sourcemap: Vec<GlslLine>,
}

/// The emitted texts of the lines, in order.
pub open spec fn emitted_lines(lines: SourceMap) -> Seq<Seq<char>> {
    Seq::new(lines.len(), |i: int| lines[i].emitted())
}

/// The lines of a text that holds the rendered lines `lines` at `start`
/// are, from there on, those lines and then the lines of what follows
/// them.
pub proof fn lemma_split_rendered_lines(text: Seq<char>, start: int, lines: SourceMap)
    requires
        lines_wf(lines),
        0 <= start,
        start + render_lines(lines).len() <= text.len(),
        text.subrange(start, start + render_lines(lines).len()) == render_lines(lines),
    ensures
        split_range(text, start, text.len() as int, '\n') == emitted_lines(lines) + split_range(
            text,
            start + render_lines(lines).len(),
            text.len() as int,
            '\n',
        ),
    decreases lines.len(),
{
    if lines.len() == 0 {
        assert(emitted_lines(lines) =~= Seq::<Seq<char>>::empty());
        assert(emitted_lines(lines) + split_range(text, start, text.len() as int, '\n')
            =~= split_range(text, start, text.len() as int, '\n'));
    } else {
        let init = lines.drop_last();
        let last = lines.last();
        let head = render_lines(init);
        let all = render_lines(lines);
        assert(all == head + last.rendered());
        assert(lines_wf(init)) by {
            assert forall|i: int| 0 <= i < init.len() implies (#[trigger] init[i]).wf() by {
                assert(init[i] == lines[i]);
            }
        }
        assert(text.subrange(start, start + head.len()) =~= head) by {
            assert forall|j: int| 0 <= j < head.len() implies text[start + j] == head[j] by {
                assert(text.subrange(start, start + all.len())[j] == all[j]);
            }
        }
        lemma_split_rendered_lines(text, start, init);
        let q = start + head.len();
        let piece = last.emitted();
        assert(last.wf());
        assert(last.rendered() == piece.push('\n'));
        assert(all.len() == head.len() + piece.len() + 1);
        assert forall|j: int| 0 <= j <= piece.len() implies text[q + j] == last.rendered()[j] by {
            assert(text.subrange(start, start + all.len())[head.len() + j] == text[start
                + head.len() + j]);
            assert(all[head.len() + j] == last.rendered()[j]);
        }
        assert forall|j: int| 0 <= j < piece.len() implies text.subrange(q, q + piece.len())[j]
            == piece[j] by {
            assert(text[q + j] == last.rendered()[j]);
            assert(last.rendered()[j] == piece[j]);
        }
        assert(text.subrange(q, q + piece.len()) =~= piece);
        assert(text[q + piece.len()] == last.rendered()[piece.len() as int]);
        assert(text[q + piece.len()] == '\n');
        lemma_split_step(text, q, text.len() as int, '\n', piece);
        assert(emitted_lines(lines) =~= emitted_lines(init).push(piece));
        assert(emitted_lines(init) + (seq![piece] + split_range(
            text,
            q + piece.len() + 1,
            text.len() as int,
            '\n',
        )) =~= emitted_lines(lines) + split_range(
            text,
            q + piece.len() + 1,
            text.len() as int,
            '\n',
        ));
    }
}

/// The lines of the output for `lines` are the preamble, the lines, an
/// empty line and the entry point.
pub proof fn lemma_output_lines(lines: SourceMap)
    requires
        lines_wf(lines),
    ensures
        split(output_text(lines), '\n') == seq![preamble()] + emitted_lines(lines) + seq![
            Seq::<char>::empty(),
            entry_point(),
        ],
{
    lemma_fixed_texts_are_line_text();
    let text = output_text(lines);
    let body = render_lines(lines);
    let n = text.len() as int;
    let p = preamble().len() as int;
    assert(text.subrange(0, p) =~= preamble());
    assert(text[p] == '\n');
    lemma_split_step(text, 0, n, '\n', preamble());
    assert(text.subrange(p + 1, p + 1 + body.len()) =~= body);
    lemma_split_rendered_lines(text, p + 1, lines);
    let r = p + 1 + body.len();
    assert(text[r] == '\n');
    assert(text.subrange(r, r) =~= Seq::<char>::empty());
    lemma_split_step(text, r, n, '\n', Seq::<char>::empty());
    assert(text.subrange(r + 1, n) =~= entry_point());
    assert forall|j: int| r + 1 <= j < n implies text[j] != '\n' by {
        assert(text[j] == entry_point()[j - r - 1]);
    }
    lemma_find_in_is(text, r + 1, n, '\n', n);
    assert(split_range(text, r + 1, n, '\n') == seq![entry_point()]);
    assert(split(text, '\n') =~= seq![preamble()] + emitted_lines(lines) + seq![
        Seq::<char>::empty(),
        entry_point(),
    ]);
}

/// What a module compiles to is line-accurate, where no name and no
/// literal of the module holds a line feed.
pub proof fn lemma_compile_module_is_line_accurate(m: Module)
    requires
        m.wf(),
    ensures
        compile_module(m).is_line_accurate(),
{
    lemma_resolve_module_wf(m);
    lemma_module_lines_wf(resolve_module(m));
    let lines = module_lines(resolve_module(m));
    lemma_output_lines(lines);
    assert forall|i: int| 0 <= i < lines.len() implies split(output_text(lines), '\n')[
        PREAMBLE_LINE_COUNT + i] == (#[trigger] lines[i]).emitted() by {
        assert(emitted_lines(lines)[i] == lines[i].emitted());
    }
}

impl Shader {
    pub open spec fn view(&self) -> Compiled {
        Compiled { text: self.glsl@, sourcemap: lines_view(self.sourcemap@) }
    }

    /// Compiles a module: resolves it, generates its lines, and writes the
    /// text: the version line, the lines, an empty line and the entry
    /// point, which calls the function `main` of the shader.
    pub fn from_file(file: YaslFile) -> (s: Shader)
        ensures
            s@ == compile_module(file@),
            file@.wf() ==> s@.is_line_accurate(),
    {
        let mut file = file;
        let ghost module = file@;
        file.attempt_type_anotation();
        let glsl = file.as_glsl();
        let mut out = String::from_str("#version 450\n");
        proof {
            reveal_strlit("#version 450\n");
            reveal_strlit("#version 450");
            reveal_strlit("\n");
            lemma_text_is_render_of_lines(glsl);
            if module.wf() {
                lemma_compile_module_is_line_accurate(module);
            }
        }
        assert(out@ =~= preamble().push('\n'));
        let body = glsl.to_string();
        out.append(body.as_str());
        out.append("\n");
        out.append("void main(){ yasl_main(); }");
        let sourcemap = match glsl {
            Glsl::Fragment(f) => f.squash(),
            _ => Vec::new(),
        };
        assert(out@ =~= output_text(module_lines(resolve_module(module))));
        Shader { glsl: out, sourcemap }
    }

    /// Compiles a token sequence.
    ///
    /// Fails with a syntax error at the first token whose text holds a
    /// line feed, else with the error of the grammar where the tokens
    /// spell no module. Where they do, the result is what the module
    /// compiles to, and its source map is line-accurate.
    pub fn parse_tokens(tokens: &Vec<Token>) -> (r: Result<Shader, ParseError>)
        ensures
            match compile_tokens(tokens_view(tokens@)) {
                Ok(c) => r matches Ok(s) && s@ == c,
                Err(e) => r matches Err(x) && x == e,
            },
            r matches Ok(s) ==> s@.is_line_accurate(),
    {
        if let Some(i) = find_ill_formed(tokens) {
            return Err(ParseError { kind: ErrorKind::SyntaxError, span: tokens[i].span });
        }
        match YaslFile::parse(tokens) {
            Ok(file) => Ok(Shader::from_file(file)),
            Err(e) => Err(e),
        }
    }

    /// Compiles a shader source.
    ///
    /// Fails with a syntax error at the first character that starts no
    /// token, else with the error of the grammar where the tokens spell no
    /// module. Where they do, the result is what the module compiles to:
    /// a function of the source alone. Its source map is line-accurate:
    /// line `i` of the map is line `PREAMBLE_LINE_COUNT + i` of the text.
    pub fn parse(src: &str) -> (r: Result<Shader, ParseError>)
        ensures
            is_compilation_of(r, src@),
            r matches Ok(s) ==> s@.is_line_accurate(),
    {
        match lex(src) {
            Ok(tokens) => Shader::parse_tokens(&tokens),
            Err(e) => Err(e),
        }
    }

    /// Re-anchors a failure of the backend compiler on this shader's text
    /// in the shader source, through the source map.
    pub fn translate(&self, message: &str) -> (r: BackendCompileError)
        ensures
            r@ == translation(message@, self@.sourcemap),
    {
        translate_backend_error(message, &self.sourcemap)
    }
}

} // verus!
