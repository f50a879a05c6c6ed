//! Core of a 2D rendering engine: frame pacing against a presentation
//! surface, per-frame GPU-writable geometry buffers that stay correct while
//! several frames are in flight, and the per-frame occlusion-plane geometry
//! (winding-based back-face decision for extruded shadow quads).
//!
//! All geometry here is exact fixed-point arithmetic ([`fixed`]); callers
//! that work in floating point convert at the boundary.

use vstd::prelude::*;

pub mod allocators;
pub mod assets;
pub mod fixed;
pub mod guard;
pub mod model;
pub mod occluding_plane;
pub mod scheduler;
pub mod surface;
pub mod texture;
pub mod text_factory;

verus! {

/// Location of a uniform inside a shader: descriptor set and binding index.
#[derive(Debug, Clone, Copy, PartialEq, Eq, Hash, Structural)]
pub struct UniformLocation {
    pub set: u32,
    pub binding: u32,
}

/// Identifies one graphics pipeline by its position in the pipeline list.
#[derive(Debug, Clone, Copy, PartialEq, Eq, Hash, Structural)]
pub struct ShaderId(pub usize);

impl ShaderId {
    /// The raw pipeline index.
    pub fn get_raw(&self) -> (r: usize)
        ensures
            r == self.0,
    {
        self.0
    }
}

impl Default for ShaderId {
    /// The first pipeline in the list.
    fn default() -> (r: Self)
        ensures
            r.0 == 0,
    {
        ShaderId(0)
    }
}

/// A vertex shader paired with a fragment shader, in whatever
/// representation a pipeline stage needs (a loader closure, an entry
/// point, a source handle).
#[derive(Debug, Clone, Copy, PartialEq, Eq, Structural)]
pub struct ShadersGroup<VT, FT = VT> {
    pub vertex: VT,
    pub fragment: FT,
}

impl<VT, FT> ShadersGroup<VT, FT> {
    /// Pairs a vertex shader with a fragment shader.
    pub fn new_raw(vertex: VT, fragment: FT) -> (r: Self)
        ensures
            r.vertex == vertex,
            r.fragment == fragment,
    {
        ShadersGroup { vertex, fragment }
    }
}

/// Where the asset loader finds texture and model files; either may be
/// absent, leaving only the built-in defaults.
pub struct AssetsPaths {
    pub textures: Option<String>,
    pub models: Option<String>,
}

impl Default for AssetsPaths {
    /// No asset folders: only the built-in defaults exist.
    fn default() -> (r: Self)
        ensures
            r.textures is None,
            r.models is None,
    {
        AssetsPaths { textures: None, models: None }
    }
}

/// Options the application hands the engine before it starts.
pub struct AppOptions {
    pub assets_paths: AssetsPaths,
}

impl Default for AppOptions {
    /// Default options: no asset folders.
    fn default() -> (r: Self)
        ensures
            r.assets_paths.textures is None,
            r.assets_paths.models is None,
    {
        AppOptions { assets_paths: AssetsPaths::default() }
    }
}

/// Entry point marker for an application built on this engine; the
/// builder that wires a concrete application up lives outside the
/// verified core.
pub struct App<UserApp> {
    _user_app: core::marker::PhantomData<UserApp>,
}

} // verus!
