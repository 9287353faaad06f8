//! Generated GLSL: lines tagged with the source region that produced them,
//! nested into fragments, and the flattening of a fragment into the source
//! map.

use vstd::prelude::*;
use vstd::string::*;
use crate::span::Span;
use crate::text::is_line_text;

verus! {

/// One line of generated text, as the specifications see it.
pub struct GeneratedLine {
    /// The text of the line, without terminator and line feed.
    pub text: Seq<char>,
    /// The source region that produced the line; `None` for synthesized text.
    pub span: Option<Span>,
    /// Whether the line ends in a semicolon.
    pub terminated: bool,
}

/// The source map: the generated lines of the body, in output order.
pub type SourceMap = Seq<GeneratedLine>;

impl GeneratedLine {
    /// The line as it stands in the output, without its line feed.
    pub open spec fn emitted(self) -> Seq<char> {
        if self.terminated {
            self.text.push(';')
        } else {
            self.text
        }
    }

    /// The line as it is written to the output.
    pub open spec fn rendered(self) -> Seq<char> {
        self.emitted().push('\n')
    }

    /// The text of the line holds no line feed.
    pub open spec fn wf(self) -> bool {
        is_line_text(self.text)
    }
}

/// The output text of a sequence of lines.
pub open spec fn render_lines(lines: SourceMap) -> Seq<char>
    decreases lines.len(),
{
    if lines.len() == 0 {
        Seq::empty()
    } else {
        render_lines(lines.drop_last()) + lines.last().rendered()
    }
}

/// Every line of the sequence is free of line feeds.
pub open spec fn lines_wf(lines: SourceMap) -> bool {
    forall|i: int| 0 <= i < lines.len() ==> (#[trigger] lines[i]).wf()
}

/// A line of generated text.
#[derive(Debug)]
pub struct GlslLine {
    pub span: Option<Span>,
    pub ends_with_semi: bool,
    pub glsl_string: String,
}

/// A sequence of generated pieces.
#[derive(Debug)]
pub struct GlslFragment {
    pub elements: Vec<Glsl>,
}

/// A piece of generated text: the text of an expression, a line, or a
/// fragment of further pieces.
#[derive(Debug)]
pub enum Glsl {
    Fragment(GlslFragment),
    Expr(String),
    Line(GlslLine),
}

/// The lines that a vector of `GlslLine` stands for.
pub open spec fn lines_view(v: Seq<GlslLine>) -> SourceMap {
    Seq::new(v.len(), |i: int| v[i]@)
}

impl GlslLine {
    pub open spec fn view(&self) -> GeneratedLine {
        GeneratedLine {
            text: self.glsl_string@,
            span: self.span,
            terminated: self.ends_with_semi,
        }
    }

    /// The line with its terminator, if it has one, and a line feed.
    pub fn to_string(&self) -> (s: String)
        ensures
            s@ == self@.rendered(),
    {
        proof {
            reveal_strlit(";\n");
            reveal_strlit("\n");
        }
        let s = if self.ends_with_semi {
            self.glsl_string.clone().concat(";\n")
        } else {
            self.glsl_string.clone().concat("\n")
        };
        assert(s@ =~= self@.rendered());
        s
    }
}

impl Glsl {
    /// The text that the piece stands for.
    pub open spec fn text(&self) -> Seq<char>
        decreases self,
    {
        match self {
            Glsl::Fragment(f) => elements_text(f.elements@, f.elements@.len()),
            Glsl::Expr(s) => s@,
            Glsl::Line(l) => l@.rendered(),
        }
    }

    /// The piece is made of lines only: no expression text stands in it.
    pub open spec fn is_line_tree(&self) -> bool
        decreases self,
    {
        match self {
            Glsl::Fragment(f) => elements_are_lines(f.elements@, f.elements@.len()),
            Glsl::Expr(_) => false,
            Glsl::Line(_) => true,
        }
    }

    /// The lines of the piece, in the order in which they were emitted.
    pub open spec fn lines(&self) -> SourceMap
        decreases self,
    {
        match self {
            Glsl::Fragment(f) => elements_lines(f.elements@, f.elements@.len()),
            Glsl::Expr(_) => Seq::empty(),
            Glsl::Line(l) => seq![l@],
        }
    }

    /// The text of the piece.
    pub fn to_string(&self) -> (s: String)
        ensures
            s@ == self.text(),
        decreases self,
    {
        match self {
            Glsl::Fragment(frag) => frag.to_string(),
            Glsl::Expr(s) => s.clone(),
            Glsl::Line(l) => l.to_string(),
        }
    }
}

/// The text of the first `n` pieces of `es`.
pub open spec fn elements_text(es: Seq<Glsl>, n: nat) -> Seq<char>
    decreases es, n,
{
    if n == 0 || n > es.len() {
        Seq::empty()
    } else {
        elements_text(es, (n - 1) as nat) + es[n - 1].text()
    }
}

/// The first `n` pieces of `es` are made of lines only.
pub open spec fn elements_are_lines(es: Seq<Glsl>, n: nat) -> bool
    decreases es, n,
{
    if n == 0 || n > es.len() {
        true
    } else {
        elements_are_lines(es, (n - 1) as nat) && es[n - 1].is_line_tree()
    }
}

/// The lines of the first `n` pieces of `es`.
pub open spec fn elements_lines(es: Seq<Glsl>, n: nat) -> SourceMap
    decreases es, n,
{
    if n == 0 || n > es.len() {
        Seq::empty()
    } else {
        elements_lines(es, (n - 1) as nat) + es[n - 1].lines()
    }
}

impl GlslFragment {
    /// The text that the fragment stands for.
    pub open spec fn text(&self) -> Seq<char> {
        elements_text(self.elements@, self.elements@.len())
    }

    /// The fragment is made of lines only.
    pub open spec fn is_line_tree(&self) -> bool {
        elements_are_lines(self.elements@, self.elements@.len())
    }

    /// The lines of the fragment, in the order in which they were emitted.
    pub open spec fn lines(&self) -> SourceMap {
        elements_lines(self.elements@, self.elements@.len())
    }

    /// The empty fragment.
    pub fn new() -> (f: GlslFragment)
        ensures
            f.lines() == Seq::<GeneratedLine>::empty(),
            f.text() == Seq::<char>::empty(),
            f.is_line_tree(),
    {
        GlslFragment { elements: Vec::new() }
    }

    /// Adds a piece at the end of the fragment.
    pub fn push(&mut self, g: Glsl)
        ensures
            final(self).lines() == old(self).lines() + g.lines(),
            final(self).text() == old(self).text() + g.text(),
            final(self).is_line_tree() == (old(self).is_line_tree() && g.is_line_tree()),
    {
        let ghost before = self.elements@;
        self.elements.push(g);
        proof {
            lemma_elements_prefix(before, self.elements@, before.len());
        }
    }

    /// The text of the fragment: that of its pieces, one after the other.
    pub fn to_string(&self) -> (out: String)
        ensures
            out@ == self.text(),
        decreases self,
    {
        let mut out: String = String::new();
        let mut i: usize = 0;
        while i < self.elements.len()
            invariant
                0 <= i <= self.elements.len(),
                out@ == elements_text(self.elements@, i as nat),
            decreases self.elements.len() - i,
        {
            let piece = self.elements[i].to_string();
            out.append(piece.as_str());
            i = i + 1;
        }
        out
    }

    /// Flattens the fragment into the source map: its lines in emission
    /// order, the nesting dropped.
    pub fn squash(self) -> (lines: Vec<GlslLine>)
        requires
            self.is_line_tree(),
        ensures
            lines_view(lines@) == self.lines(),
        decreases self,
    {
        let mut lines: Vec<GlslLine> = Vec::new();
        let ghost es = self.elements@;
        assert(lines_view(lines@) =~= elements_lines(es, 0));
        for e in it: self.elements
            invariant
                it.seq() == es,
                es == self.elements@,
                elements_are_lines(es, es.len()),
                lines_view(lines@) == elements_lines(es, it.index() as nat),
        {
            let ghost k = it.index() as int;
            proof {
                lemma_elements_are_lines_at(es, es.len(), k);
                assert(self.elements[k] == e);
                assert(decreases_to!(self.elements => self.elements[k]));
                assert(elements_lines(es, (k + 1) as nat) == elements_lines(es, k as nat)
                    + es[k].lines());
            }
            let ghost before = lines@;
            match e {
                Glsl::Line(l) => {
                    lines.push(l);
                    assert(lines_view(lines@) =~= lines_view(before) + seq![l@]);
                },
                Glsl::Fragment(f) => {
                    let mut sub = f.squash();
                    let ghost sub_lines = sub@;
                    lines.append(&mut sub);
                    assert(lines_view(lines@) =~= lines_view(before) + lines_view(sub_lines));
                },
                Glsl::Expr(_) => {
                    assert(false);
                },
            }
        }
        lines
    }
}

/// What the first `n` pieces stand for depends on those pieces alone.
pub proof fn lemma_elements_prefix(a: Seq<Glsl>, b: Seq<Glsl>, n: nat)
    requires
        n <= a.len(),
        n <= b.len(),
        forall|j: int| 0 <= j < n ==> a[j] == b[j],
    ensures
        elements_lines(a, n) == elements_lines(b, n),
        elements_text(a, n) == elements_text(b, n),
        elements_are_lines(a, n) == elements_are_lines(b, n),
    decreases n,
{
    if n > 0 {
        lemma_elements_prefix(a, b, (n - 1) as nat);
    }
}

/// Where the first `n` pieces are made of lines, each of them is.
pub proof fn lemma_elements_are_lines_at(es: Seq<Glsl>, n: nat, k: int)
    requires
        elements_are_lines(es, n),
        0 <= k < n <= es.len(),
    ensures
        es[k].is_line_tree(),
    decreases n,
{
    if k < n - 1 {
        lemma_elements_are_lines_at(es, (n - 1) as nat, k);
    }
}

/// The text of lines that follow one another is the text of the first
/// followed by the text of the second.
pub proof fn lemma_render_lines_concat(a: SourceMap, b: SourceMap)
    ensures
        render_lines(a + b) == render_lines(a) + render_lines(b),
    decreases b.len(),
{
    if b.len() == 0 {
        assert(a + b =~= a);
    } else {
        lemma_render_lines_concat(a, b.drop_last());
        assert((a + b).drop_last() =~= a + b.drop_last());
        assert((a + b).last() == b.last());
        assert(render_lines(a + b) =~= render_lines(a) + render_lines(b));
    }
}

/// The text of a piece made of lines is the text of its lines.
pub proof fn lemma_text_is_render_of_lines(g: Glsl)
    requires
        g.is_line_tree(),
    ensures
        g.text() == render_lines(g.lines()),
    decreases g,
{
    match g {
        Glsl::Fragment(f) => {
            lemma_elements_text_is_render(f.elements@, f.elements@.len());
        },
        Glsl::Expr(_) => {},
        Glsl::Line(l) => {
            assert(seq![l@].drop_last() =~= Seq::<GeneratedLine>::empty());
            assert(render_lines(Seq::<GeneratedLine>::empty()) =~= Seq::<char>::empty());
            assert(render_lines(seq![l@]) =~= l@.rendered());
        },
    }
}

/// The text of the first `n` pieces, all made of lines, is the text of
/// their lines.
pub proof fn lemma_elements_text_is_render(es: Seq<Glsl>, n: nat)
    requires
        elements_are_lines(es, n),
    ensures
        elements_text(es, n) == render_lines(elements_lines(es, n)),
    decreases es, n,
{
    if n == 0 || n > es.len() {
    } else {
        lemma_elements_text_is_render(es, (n - 1) as nat);
        lemma_text_is_render_of_lines(es[n - 1]);
        lemma_render_lines_concat(elements_lines(es, (n - 1) as nat), es[n - 1].lines());
    }
}

} // verus!
