//! The types of the shader language.

use vstd::prelude::*;
use vstd::string::*;
use crate::text::{is_line_text, str_eq};

verus! {

/// A scalar type.
#[derive(Clone, Copy, Debug, PartialEq, Eq, Structural)]
pub enum YaslScalarType {
    Int,
    UInt,
    Float32,
    Float64,
    Bool,
}

/// A vector of two, three or four components of one scalar type.
#[derive(Clone, Copy, Debug, PartialEq, Eq, Structural)]
pub enum YaslVecType {
    Vec2(YaslScalarType),
    Vec3(YaslScalarType),
    Vec4(YaslScalarType),
}

/// A type of the shader language.
#[derive(Clone, Copy, Debug, PartialEq, Eq, Structural)]
pub enum YaslType {
    ScalarType(YaslScalarType),
    Vec(YaslVecType),
    Void,
}

impl YaslScalarType {
    /// The scalar that a name of the shader language denotes.
    pub open spec fn of_name(name: Seq<char>) -> Option<YaslScalarType> {
        if name == "i32"@ {
            Some(YaslScalarType::Int)
        } else if name == "u32"@ {
            Some(YaslScalarType::UInt)
        } else if name == "f32"@ {
            Some(YaslScalarType::Float32)
        } else if name == "f64"@ {
            Some(YaslScalarType::Float64)
        } else if name == "bool"@ {
            Some(YaslScalarType::Bool)
        } else {
            None
        }
    }

    /// The name of the scalar in GLSL.
    pub open spec fn glsl_name(self) -> Seq<char> {
        match self {
            YaslScalarType::Int => "int"@,
            YaslScalarType::UInt => "uint"@,
            YaslScalarType::Float32 => "float"@,
            YaslScalarType::Float64 => "double"@,
            YaslScalarType::Bool => "bool"@,
        }
    }

    /// The letter that GLSL puts before `vec` for vectors of this scalar.
    pub open spec fn vec_prefix(self) -> Seq<char> {
        match self {
            YaslScalarType::Int => "i"@,
            YaslScalarType::UInt => "u"@,
            YaslScalarType::Bool => "b"@,
            YaslScalarType::Float32 => ""@,
            YaslScalarType::Float64 => "d"@,
        }
    }

    /// Reads a scalar type name: `i32`, `u32`, `f32`, `f64` or `bool`.
    pub fn from_name(name: &str) -> (r: Option<YaslScalarType>)
        ensures
            r == Self::of_name(name@),
    {
        if str_eq(name, "i32") {
            Some(YaslScalarType::Int)
        } else if str_eq(name, "u32") {
            Some(YaslScalarType::UInt)
        } else if str_eq(name, "f32") {
            Some(YaslScalarType::Float32)
        } else if str_eq(name, "f64") {
            Some(YaslScalarType::Float64)
        } else if str_eq(name, "bool") {
            Some(YaslScalarType::Bool)
        } else {
            None
        }
    }

    /// The GLSL spelling of the scalar.
    pub fn as_glsl(&self) -> (s: String)
        ensures
            s@ == self.glsl_name(),
    {
        match self {
            YaslScalarType::Int => String::from_str("int"),
            YaslScalarType::UInt => String::from_str("uint"),
            YaslScalarType::Float32 => String::from_str("float"),
            YaslScalarType::Float64 => String::from_str("double"),
            YaslScalarType::Bool => String::from_str("bool"),
        }
    }

    fn vec_prefix_str(&self) -> (s: &'static str)
        ensures
            s@ == self.vec_prefix(),
    {
        match self {
            YaslScalarType::Int => "i",
            YaslScalarType::UInt => "u",
            YaslScalarType::Bool => "b",
            YaslScalarType::Float32 => "",
            YaslScalarType::Float64 => "d",
        }
    }
}

impl YaslVecType {
    /// The number of components.
    pub open spec fn degree(self) -> nat {
        match self {
            YaslVecType::Vec2(_) => 2,
            YaslVecType::Vec3(_) => 3,
            YaslVecType::Vec4(_) => 4,
        }
    }

    /// The scalar type of the components.
    pub open spec fn component(self) -> YaslScalarType {
        match self {
            YaslVecType::Vec2(s) => s,
            YaslVecType::Vec3(s) => s,
            YaslVecType::Vec4(s) => s,
        }
    }

    /// The vector type that a name of the shader language makes of `component`.
    pub open spec fn of_name(name: Seq<char>, component: YaslScalarType) -> Option<YaslVecType> {
        if name == "vec2"@ {
            Some(YaslVecType::Vec2(component))
        } else if name == "vec3"@ {
            Some(YaslVecType::Vec3(component))
        } else if name == "vec4"@ {
            Some(YaslVecType::Vec4(component))
        } else {
            None
        }
    }

    /// The name of the vector type in GLSL: the component's letter, then
    /// `vec` and the degree.
    pub open spec fn glsl_name(self) -> Seq<char> {
        self.component().vec_prefix() + match self {
            YaslVecType::Vec2(_) => "vec2"@,
            YaslVecType::Vec3(_) => "vec3"@,
            YaslVecType::Vec4(_) => "vec4"@,
        }
    }

    /// Reads a vector type name, `vec2`, `vec3` or `vec4`, for components
    /// of type `component`.
    pub fn from_name(name: &str, component: YaslScalarType) -> (r: Option<YaslVecType>)
        ensures
            r == Self::of_name(name@, component),
    {
        if str_eq(name, "vec2") {
            Some(YaslVecType::Vec2(component))
        } else if str_eq(name, "vec3") {
            Some(YaslVecType::Vec3(component))
        } else if str_eq(name, "vec4") {
            Some(YaslVecType::Vec4(component))
        } else {
            None
        }
    }

    /// The GLSL spelling of the vector type.
    pub fn as_glsl(&self) -> (s: String)
        ensures
            s@ == self.glsl_name(),
    {
        match self {
            YaslVecType::Vec2(c) => String::from_str(c.vec_prefix_str()).concat("vec2"),
            YaslVecType::Vec3(c) => String::from_str(c.vec_prefix_str()).concat("vec3"),
            YaslVecType::Vec4(c) => String::from_str(c.vec_prefix_str()).concat("vec4"),
        }
    }
}

impl YaslType {
    /// The name of the type in GLSL.
    pub open spec fn glsl_name(self) -> Seq<char> {
        match self {
            YaslType::ScalarType(s) => s.glsl_name(),
            YaslType::Vec(v) => v.glsl_name(),
            YaslType::Void => "void"@,
        }
    }

    /// The GLSL spelling of the type.
    pub fn as_glsl(&self) -> (s: String)
        ensures
            s@ == self.glsl_name(),
    {
        match self {
            YaslType::ScalarType(s) => s.as_glsl(),
            YaslType::Vec(v) => v.as_glsl(),
            YaslType::Void => String::from_str("void"),
        }
    }
}

/// The GLSL name of a type never holds a line feed.
pub proof fn lemma_type_name_is_line_text(t: YaslType)
    ensures
        is_line_text(t.glsl_name()),
{
    reveal_strlit("int");
    reveal_strlit("uint");
    reveal_strlit("float");
    reveal_strlit("double");
    reveal_strlit("bool");
    reveal_strlit("void");
    reveal_strlit("i");
    reveal_strlit("u");
    reveal_strlit("b");
    reveal_strlit("d");
    reveal_strlit("");
    reveal_strlit("vec2");
    reveal_strlit("vec3");
    reveal_strlit("vec4");
}

} // verus!
