//! The compositing step: the one draw that blends the channels into the
//! frame.
//!
//! The step is planned here and carried out by the caller: the plan says
//! which vertices are drawn, with which topology, and which value is bound
//! to which named input of the shader.

use crate::channel::RenderSteps;
use crate::target::RenderParameters;
use crate::target::RenderParametersView;
use vstd::prelude::*;

verus! {

/// How consecutive vertices are assembled into primitives.
#[derive(Clone, Copy, Debug, PartialEq, Eq, Structural)]
pub enum PrimitiveType {
    Points,
    LinesList,
    LineStrip,
    TrianglesList,
    TriangleStrip,
    TriangleFan,
}

/// What is bound to a named input of the shader.
#[derive(Clone, Copy, Debug, PartialEq, Eq, Structural)]
pub enum UniformValue {
    /// The texture of a channel, read through a sampler.
    Texture(RenderSteps),
    /// A scalar, as the bit pattern of a single-precision number.
    Scalar(u32),
}

/// The switches of the rasterizer that decide whether a drawn pixel replaces
/// what the destination holds. With all of them off, every pixel that the
/// primitives cover is overwritten by the shader's output.
#[derive(Clone, Copy, Debug, PartialEq, Eq, Structural)]
pub struct DrawState {
    /// Whether a pixel is drawn only where it passes the depth test.
    pub depth_test: bool,
    /// Whether the output is blended with the destination by its alpha.
    pub blending: bool,
    /// Whether triangles that face away are left out.
    pub backface_culling: bool,
}

impl DrawState {
    /// The state in which nothing is switched on.
    pub open spec fn spec_default() -> DrawState {
        DrawState { depth_test: false, blending: false, backface_culling: false }
    }
}

impl Default for DrawState {
    fn default() -> (state: DrawState)
        ensures
            state == DrawState::spec_default(),
    {
        DrawState { depth_test: false, blending: false, backface_culling: false }
    }
}

/// A named input of the shader and the value bound to it.
#[derive(Clone, Copy, Debug)]
pub struct UniformBinding {
    pub name: &'static str,
    pub value: UniformValue,
}

/// One draw submission.
#[derive(Debug)]
pub struct DrawCall {
    pub primitive: PrimitiveType,
    /// Whether vertices are picked through an index buffer.
    pub indexed: bool,
    pub first_vertex: usize,
    pub vertex_count: usize,
    pub uniforms: Vec<UniformBinding>,
    pub state: DrawState,
}

/// A draw submission as a mathematical value.
pub struct DrawCallView {
    pub primitive: PrimitiveType,
    pub indexed: bool,
    pub first_vertex: nat,
    pub vertex_count: nat,
    pub uniforms: Seq<(Seq<char>, UniformValue)>,
    pub state: DrawState,
}

impl View for UniformBinding {
    type V = (Seq<char>, UniformValue);

    open spec fn view(&self) -> (Seq<char>, UniformValue) {
        (self.name@, self.value)
    }
}

impl View for DrawCall {
    type V = DrawCallView;

    open spec fn view(&self) -> DrawCallView {
        DrawCallView {
            primitive: self.primitive,
            indexed: self.indexed,
            first_vertex: self.first_vertex as nat,
            vertex_count: self.vertex_count as nat,
            uniforms: self.uniforms@.map_values(|b: UniformBinding| b@),
            state: self.state,
        }
    }
}

/// The inputs that the compositing shader is given, in order: the two
/// channel textures under their names, then the ambient term.
pub open spec fn default_uniforms(params: RenderParametersView) -> Seq<(Seq<char>, UniformValue)> {
    seq![
        ("diffuse_texture"@, UniformValue::Texture(RenderSteps::Diffuse)),
        ("emissive_texture"@, UniformValue::Texture(RenderSteps::Emissive)),
        ("ambient"@, UniformValue::Scalar(params.ambient)),
    ]
}

/// The compositing draw for a vertex buffer of `vertex_count` vertices: all
/// of them, in order, as a list of triangles, without an index buffer, in the
/// default draw state.
pub open spec fn default_draw(params: RenderParametersView, vertex_count: nat) -> DrawCallView {
    DrawCallView {
        primitive: PrimitiveType::TrianglesList,
        indexed: false,
        first_vertex: 0,
        vertex_count,
        uniforms: default_uniforms(params),
        state: DrawState::spec_default(),
    }
}

/// Plans the compositing step for a frame: exactly one draw over the whole
/// vertex buffer, with the textures and the ambient term of `uniforms` bound
/// to the shader's inputs. The parameters are read, never changed.
pub fn default_render_function(uniforms: &RenderParameters, vertex_count: usize) -> (call: DrawCall)
    ensures
        call@ == default_draw(uniforms@, vertex_count as nat),
{
    let mut bindings: Vec<UniformBinding> = Vec::new();
    bindings.push(
        UniformBinding {
            name: "diffuse_texture",
            value: UniformValue::Texture(RenderSteps::Diffuse),
        },
    );
    bindings.push(
        UniformBinding {
            name: "emissive_texture",
            value: UniformValue::Texture(RenderSteps::Emissive),
        },
    );
    bindings.push(UniformBinding { name: "ambient", value: UniformValue::Scalar(uniforms.ambient()) });
    let call = DrawCall {
        primitive: PrimitiveType::TrianglesList,
        indexed: false,
        first_vertex: 0,
        vertex_count,
        uniforms: bindings,
        state: DrawState::default(),
    };
    proof {
        assert(call@.uniforms =~= default_uniforms(uniforms@));
    }
    call
}

} // verus!
