//! The stages of a shader program and the file extensions that name them.

use vstd::prelude::*;

verus! {

/// `GL_VERTEX_SHADER`.
pub const VERTEX_SHADER: u32 = 0x8B31;

/// `GL_FRAGMENT_SHADER`.
pub const FRAGMENT_SHADER: u32 = 0x8B30;

/// `GL_TESS_CONTROL_SHADER`.
pub const TESS_CONTROL_SHADER: u32 = 0x8E88;

/// `GL_TESS_EVALUATION_SHADER`.
pub const TESS_EVALUATION_SHADER: u32 = 0x8E87;

/// `GL_GEOMETRY_SHADER`.
pub const GEOMETRY_SHADER: u32 = 0x8DD9;

/// A stage of a shader program.
#[derive(Clone, Copy, Debug, PartialEq, Eq, Structural)]
pub enum ShaderType {
    /// Runs once per vertex; files end in `vert`.
    Vertex,
    /// Runs once per fragment; files end in `frag`.
    Fragment,
    /// Sets how finely a patch is cut up; files end in `tcs`.
    TessellationControl,
    /// Places the vertices that cutting up a patch yields; files end in
    /// `tes`.
    TessellationEvaluation,
    /// Runs once per primitive; files end in `geom`.
    Geometry,
}

/// The stage that the file extension `ext` names, if it names one.
pub open spec fn stage_of(ext: Seq<char>) -> Option<ShaderType> {
    if ext == "vert"@ {
        Some(ShaderType::Vertex)
    } else if ext == "frag"@ {
        Some(ShaderType::Fragment)
    } else if ext == "tcs"@ {
        Some(ShaderType::TessellationControl)
    } else if ext == "tes"@ {
        Some(ShaderType::TessellationEvaluation)
    } else if ext == "geom"@ {
        Some(ShaderType::Geometry)
    } else {
        None
    }
}

/// Whether two texts are the same, character by character.
fn same_text(left: &str, right: &str) -> (same: bool)
    ensures
        same == (left@ == right@),
{
    left.to_owned() == right.to_owned()
}

impl ShaderType {
    /// The driver's enumerant for the stage.
    pub open spec fn glenum(self) -> u32 {
        match self {
            ShaderType::Vertex => VERTEX_SHADER,
            ShaderType::Fragment => FRAGMENT_SHADER,
            ShaderType::TessellationControl => TESS_CONTROL_SHADER,
            ShaderType::TessellationEvaluation => TESS_EVALUATION_SHADER,
            ShaderType::Geometry => GEOMETRY_SHADER,
        }
    }

    /// The driver's enumerant for the stage.
    pub fn to_glenum(self) -> (glenum: u32)
        ensures
            glenum == self.glenum(),
    {
        match self {
            ShaderType::Vertex => VERTEX_SHADER,
            ShaderType::Fragment => FRAGMENT_SHADER,
            ShaderType::TessellationControl => TESS_CONTROL_SHADER,
            ShaderType::TessellationEvaluation => TESS_EVALUATION_SHADER,
            ShaderType::Geometry => GEOMETRY_SHADER,
        }
    }

    /// The stage that a shader file with extension `ext` holds. An extension
    /// that names no stage is handed back as the error.
    pub fn from_ext(ext: &str) -> (stage: Result<ShaderType, String>)
        ensures
            stage is Ok <==> stage_of(ext@) is Some,
            stage matches Ok(found) ==> Some(found) == stage_of(ext@),
            stage matches Err(unknown) ==> unknown@ == ext@,
    {
        if same_text(ext, "vert") {
            Ok(ShaderType::Vertex)
        } else if same_text(ext, "frag") {
            Ok(ShaderType::Fragment)
        } else if same_text(ext, "tcs") {
            Ok(ShaderType::TessellationControl)
        } else if same_text(ext, "tes") {
            Ok(ShaderType::TessellationEvaluation)
        } else if same_text(ext, "geom") {
            Ok(ShaderType::Geometry)
        } else {
            Err(ext.to_owned())
        }
    }
}

} // verus!
