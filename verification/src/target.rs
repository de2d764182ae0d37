//! Render parameters: one texture per channel, all of one resolution, and the
//! ambient light term; and the capability of handing out a writable surface
//! for a channel.
//!
//! Textures are described, not stored: a texture is the channel it backs and
//! its size in pixels. The device that holds the pixels is not part of this
//! library.

use crate::channel::RenderSteps;
use vstd::prelude::*;

verus! {

/// A two-dimensional texture: the channel it backs and its size in pixels.
#[derive(Clone, Copy, Debug, PartialEq, Eq, Structural)]
pub struct Texture {
    pub channel: RenderSteps,
    pub width: u32,
    pub height: u32,
}

/// A writable surface over a texture. It borrows the texture, so it cannot
/// outlive the owner of the texture.
#[derive(Debug)]
pub struct RenderTarget<'a> {
    pub texture: &'a Texture,
}

/// Why a set of render parameters could not be made.
#[derive(Clone, Copy, Debug, PartialEq, Eq, Structural)]
pub enum AllocationError {
    /// A texture of the given size cannot exist: one side is zero.
    EmptyTexture { width: u32, height: u32 },
}

/// A resolution at which textures can be allocated: no side is zero.
pub open spec fn valid_resolution(resolution: (u32, u32)) -> bool {
    resolution.0 > 0 && resolution.1 > 0
}

/// An owner of per-channel drawable storage.
pub trait RenderTargets<T> {
    /// The texture that backs a channel.
    spec fn backing(&self, target: T) -> Texture;

    /// A surface bound to the texture that backs `target`.
    fn get_render_target(&self, target: &T) -> (surface: RenderTarget<'_>)
        ensures
            *surface.texture == self.backing(*target),
    ;
}

/// What a set of render parameters is: its resolution and its ambient term.
pub struct RenderParametersView {
    pub resolution: (u32, u32),
    pub ambient: u32,
}

/// The textures of the two channels and the ambient light term. The ambient
/// term is held as the bit pattern of a single-precision number; all bits
/// zero is the number zero.
pub struct RenderParameters {
    diffuse_texture: Texture,
    emissive_texture: Texture,
    ambient: u32,
}

impl View for RenderParameters {
    type V = RenderParametersView;

    closed spec fn view(&self) -> RenderParametersView {
        RenderParametersView {
            resolution: (self.diffuse_texture.width, self.diffuse_texture.height),
            ambient: self.ambient,
        }
    }
}

impl RenderParameters {
    /// Each channel has its own texture, and all are of one valid resolution.
    #[verifier::type_invariant]
    closed spec fn inv(&self) -> bool {
        &&& self.diffuse_texture.channel == RenderSteps::Diffuse
        &&& self.emissive_texture.channel == RenderSteps::Emissive
        &&& self.emissive_texture.width == self.diffuse_texture.width
        &&& self.emissive_texture.height == self.diffuse_texture.height
        &&& valid_resolution((self.diffuse_texture.width, self.diffuse_texture.height))
    }

    /// The texture that these parameters hold for a channel.
    pub open spec fn texture(&self, channel: RenderSteps) -> Texture {
        Texture { channel, width: self@.resolution.0, height: self@.resolution.1 }
    }

    /// One texture per channel at the given resolution, and no ambient light.
    /// A resolution with a zero side is refused.
    pub fn new(resolution: (u32, u32)) -> (made: Result<RenderParameters, AllocationError>)
        ensures
            valid_resolution(resolution) ==> made.is_ok() && made.unwrap()@ == (
            RenderParametersView { resolution, ambient: 0 }),
            !valid_resolution(resolution) ==> made == Err::<RenderParameters, AllocationError>(
                AllocationError::EmptyTexture { width: resolution.0, height: resolution.1 },
            ),
    {
        if resolution.0 == 0 || resolution.1 == 0 {
            return Err(AllocationError::EmptyTexture { width: resolution.0, height: resolution.1 });
        }
        Ok(
            RenderParameters {
                diffuse_texture: Texture {
                    channel: RenderSteps::Diffuse,
                    width: resolution.0,
                    height: resolution.1,
                },
                emissive_texture: Texture {
                    channel: RenderSteps::Emissive,
                    width: resolution.0,
                    height: resolution.1,
                },
                ambient: 0,
            },
        )
    }

    pub fn resolution(&self) -> (resolution: (u32, u32))
        ensures
            resolution == self@.resolution,
            valid_resolution(resolution),
    {
        proof {
            use_type_invariant(self);
        }
        (self.diffuse_texture.width, self.diffuse_texture.height)
    }

    pub fn ambient(&self) -> (ambient: u32)
        ensures
            ambient == self@.ambient,
    {
        self.ambient
    }

    /// Sets the ambient term and leaves the textures as they are.
    pub fn set_ambient(&mut self, ambient: u32)
        ensures
            final(self)@ == (RenderParametersView { resolution: old(self)@.resolution, ambient }),
    {
        proof {
            use_type_invariant(&*self);
        }
        self.ambient = ambient;
    }
}

impl RenderTargets<RenderSteps> for RenderParameters {
    open spec fn backing(&self, target: RenderSteps) -> Texture {
        self.texture(target)
    }

    fn get_render_target(&self, target: &RenderSteps) -> (surface: RenderTarget<'_>) {
        proof {
            use_type_invariant(self);
        }
        match *target {
            RenderSteps::Diffuse => RenderTarget { texture: &self.diffuse_texture },
            RenderSteps::Emissive => RenderTarget { texture: &self.emissive_texture },
        }
    }
}

/// The surfaces of two different channels are bound to two different
/// textures, each of exactly the resolution that the parameters were made
/// with.
pub proof fn lemma_targets_are_distinct(params: RenderParameters, a: RenderSteps, b: RenderSteps)
    ensures
        a != b ==> params.backing(a) != params.backing(b),
        params.backing(a).channel == a,
        (params.backing(a).width, params.backing(a).height) == params@.resolution,
{
}

} // verus!
