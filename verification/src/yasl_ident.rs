//! Identifiers and the prefix that each receives in the generated text.

use vstd::prelude::*;
use vstd::string::*;
use crate::error::{ErrorKind, ParseError};
use crate::glsl::Glsl;
use crate::span::Span;
use crate::text::{is_line_text, str_eq};
use crate::yasl_type::YaslType;

verus! {

/// An identifier as the specifications see it.
pub struct Identifier {
    /// The name as the source writes it.
    pub raw_name: Seq<char>,
    /// What the generated text puts before the name.
    pub namespace_prefix: Seq<char>,
    /// The type that the resolver found for it.
    pub resolved_type: Option<YaslType>,
    /// Where the name stands in the source.
    pub span: Span,
}

impl Identifier {
    /// The name in the generated text: prefix, then raw name. The resolver
    /// keys its mapping by it.
    pub open spec fn full_name(self) -> Seq<char> {
        self.namespace_prefix + self.raw_name
    }

    /// Neither prefix nor name holds a line feed.
    pub open spec fn wf(self) -> bool {
        is_line_text(self.namespace_prefix) && is_line_text(self.raw_name)
    }

    /// The identifier with its resolved type set to `ty`.
    pub open spec fn with_type(self, ty: YaslType) -> Identifier {
        Identifier { resolved_type: Some(ty), ..self }
    }
}

/// The prefix of an ordinary identifier: it keeps user names apart from
/// the names of GLSL.
pub open spec fn default_prefix() -> Seq<char> {
    "yasl_"@
}

/// The prefix that a namespace selects, for the namespaces that exist.
pub open spec fn namespace_prefix(namespace: Seq<char>) -> Option<Seq<char>> {
    if namespace == "glsl"@ {
        Some(""@)
    } else if namespace == "f32"@ {
        Some(""@)
    } else if namespace == "f64"@ {
        Some("d"@)
    } else if namespace == "bool"@ {
        Some("b"@)
    } else if namespace == "i32"@ {
        Some("i"@)
    } else if namespace == "u32"@ {
        Some("u"@)
    } else {
        None
    }
}

/// The identifier that a plain name makes.
pub open spec fn plain_identifier(name: Seq<char>, span: Span) -> Identifier {
    Identifier {
        raw_name: name,
        namespace_prefix: default_prefix(),
        resolved_type: None,
        span,
    }
}

/// The identifier that a path of two segments makes, or the error for a
/// namespace that does not exist, at the namespace.
pub open spec fn path_identifier(
    namespace: Seq<char>,
    namespace_span: Span,
    name: Seq<char>,
    span: Span,
) -> Result<Identifier, ParseError> {
    match namespace_prefix(namespace) {
        Some(prefix) => Ok(
            Identifier { raw_name: name, namespace_prefix: prefix, resolved_type: None, span },
        ),
        None => Err(
            ParseError { kind: ErrorKind::UnknownIdentifierNamespaceError, span: namespace_span },
        ),
    }
}

/// An identifier.
#[derive(Debug)]
pub struct YaslIdent {
    pub prefix: String,
    pub ident: String,
    pub ty: Option<YaslType>,
    pub span: Span,
}

impl Clone for YaslIdent {
    fn clone(&self) -> (r: Self)
        ensures
            r@ == self@,
    {
        YaslIdent {
            prefix: self.prefix.clone(),
            ident: self.ident.clone(),
            ty: self.ty,
            span: self.span,
        }
    }
}

impl YaslIdent {
    pub open spec fn view(&self) -> Identifier {
        Identifier {
            raw_name: self.ident@,
            namespace_prefix: self.prefix@,
            resolved_type: self.ty,
            span: self.span,
        }
    }

    /// An ordinary identifier: it gets the default prefix.
    pub fn new(name: String, span: Span) -> (r: YaslIdent)
        ensures
            r@ == plain_identifier(name@, span),
    {
        YaslIdent { prefix: String::from_str("yasl_"), ident: name, ty: None, span }
    }

    /// The identifier for the path `namespace::name`. The namespace selects
    /// the prefix: none for `glsl` and `f32`, `d` for `f64`, `b` for
    /// `bool`, `i` for `i32`, `u` for `u32`. Any other namespace is
    /// refused, at `namespace_span`.
    pub fn with_namespace(namespace: &str, namespace_span: Span, name: String, span: Span) -> (r:
        Result<YaslIdent, ParseError>)
        ensures
            match path_identifier(namespace@, namespace_span, name@, span) {
                Ok(id) => r matches Ok(i) && i@ == id,
                Err(e) => r matches Err(x) && x == e,
            },
    {
        let prefix = if str_eq(namespace, "glsl") {
            ""
        } else if str_eq(namespace, "f32") {
            ""
        } else if str_eq(namespace, "f64") {
            "d"
        } else if str_eq(namespace, "bool") {
            "b"
        } else if str_eq(namespace, "i32") {
            "i"
        } else if str_eq(namespace, "u32") {
            "u"
        } else {
            return Err(
                ParseError {
                    kind: ErrorKind::UnknownIdentifierNamespaceError,
                    span: namespace_span,
                },
            );
        };
        Ok(YaslIdent { prefix: String::from_str(prefix), ident: name, ty: None, span })
    }

    /// The name in the generated text: prefix, then raw name.
    pub fn to_string(&self) -> (s: String)
        ensures
            s@ == self@.full_name(),
    {
        self.prefix.clone().concat(self.ident.as_str())
    }

    /// Where the name stands in the source.
    pub fn span(&self) -> (s: Span)
        ensures
            s == self@.span,
    {
        self.span
    }

    /// Sets the resolved type.
    pub fn set_type(&mut self, ty: YaslType)
        ensures
            final(self)@ == old(self)@.with_type(ty),
    {
        self.ty = Some(ty);
    }

    /// The resolved type, if the resolver has set one.
    pub fn get_type(&self) -> (t: Option<YaslType>)
        ensures
            t == self@.resolved_type,
    {
        self.ty
    }

    /// The name as generated text.
    pub fn as_glsl(&self) -> (g: Glsl)
        ensures
            g matches Glsl::Expr(s) && s@ == self@.full_name(),
    {
        Glsl::Expr(self.to_string())
    }
}

/// The prefixes that namespaces select hold no line feed, nor does the
/// default prefix.
pub proof fn lemma_prefixes_are_line_text(namespace: Seq<char>)
    ensures
        is_line_text(default_prefix()),
        namespace_prefix(namespace) matches Some(p) ==> is_line_text(p),
{
    reveal_strlit("yasl_");
    reveal_strlit("");
    reveal_strlit("d");
    reveal_strlit("b");
    reveal_strlit("i");
    reveal_strlit("u");
}

} // verus!
