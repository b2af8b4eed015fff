//! A glyph of a loaded font, and its conversion to a mesh.
use crate::error::{Error, Ttf2MeshError, TTF_DONE};
use crate::mesh::{Mesh, Mesh2d, Mesh3d};
use crate::quality::Quality;
use crate::ttf::TTFFile;
use core::marker::PhantomData;
use vstd::prelude::*;

verus! {

/// The engine's default set of conversion features. With it the engine
/// reports every error of its mesher and ignores none.
pub const TTF_FEATURES_DFLT: i32 = 0;

/// A glyph of a font: a place in the font's glyph table, borrowed from the
/// font for as long as the glyph is in use. It can be converted to a 2d or a
/// 3d [`Mesh`].
#[derive(Debug)]
pub struct Glyph<'a> {
    index: usize,
    _font: PhantomData<&'a mut TTFFile>,
}

/// What a conversion of a glyph to a 2d mesh asks of the engine. Its answer
/// can only be a 2d mesh.
#[derive(Debug)]
pub struct Mesh2dRequest {
    glyph: usize,
    quality: u8,
    features: i32,
}

/// What a conversion of a glyph to a 3d mesh asks of the engine. Its answer
/// can only be a 3d mesh.
#[derive(Debug)]
pub struct Mesh3dRequest {
    glyph: usize,
    quality: u8,
    features: i32,
}

impl<'a> Glyph<'a> {
    /// The glyph's place in the glyph table.
    pub closed spec fn index_spec(&self) -> nat {
        self.index as nat
    }

    pub(crate) fn from_raw(index: usize) -> (glyph: Self)
        ensures
            glyph.index_spec() == index,
    {
        Glyph { index, _font: PhantomData }
    }

    /// The glyph's place in the glyph table.
    pub fn index(&self) -> (index: usize)
        ensures
            index == self.index_spec(),
    {
        self.index
    }

    /// Generate a 2d mesh from the glyph with the desired [`Quality`]: says
    /// what to ask of the engine. [`Mesh2dRequest::complete`] takes the
    /// engine's answer.
    pub fn to_2d_mesh(&mut self, quality: Quality) -> (request: Mesh2dRequest)
        ensures
            *final(self) == *old(self),
            request.glyph_spec() == old(self).index_spec(),
            request.quality_spec() == quality.number(),
            request.features_spec() == TTF_FEATURES_DFLT,
    {
        Mesh2dRequest { glyph: self.index, quality: quality.as_u8(), features: TTF_FEATURES_DFLT }
    }

    /// Generate a 3d mesh from the glyph with the desired [`Quality`]: says
    /// what to ask of the engine. [`Mesh3dRequest::complete`] takes the
    /// engine's answer.
    ///
    /// The depth of the mesh is no business of the library: the engine gets
    /// it as the caller gives it.
    pub fn to_3d_mesh(&mut self, quality: Quality) -> (request: Mesh3dRequest)
        ensures
            *final(self) == *old(self),
            request.glyph_spec() == old(self).index_spec(),
            request.quality_spec() == quality.number(),
            request.features_spec() == TTF_FEATURES_DFLT,
    {
        Mesh3dRequest { glyph: self.index, quality: quality.as_u8(), features: TTF_FEATURES_DFLT }
    }
}

impl Mesh2dRequest {
    /// The place in the glyph table of the glyph to convert.
    pub closed spec fn glyph_spec(&self) -> nat {
        self.glyph as nat
    }

    /// The number that tells the engine the quality.
    pub closed spec fn quality_spec(&self) -> u8 {
        self.quality
    }

    /// The set of features to hand to the engine.
    pub closed spec fn features_spec(&self) -> i32 {
        self.features
    }

    /// The place in the glyph table of the glyph to convert.
    pub fn glyph(&self) -> (index: usize)
        ensures
            index == self.glyph_spec(),
    {
        self.glyph
    }

    /// The number that tells the engine the quality.
    pub fn quality(&self) -> (number: u8)
        ensures
            number == self.quality_spec(),
    {
        self.quality
    }

    /// The set of features to hand to the engine.
    pub fn features(&self) -> (features: i32)
        ensures
            features == self.features_spec(),
    {
        self.features
    }

    /// Decides what the engine's answer means. `error` is the status it
    /// reported, `mesh` the 2d mesh it handed over, `None` where it handed
    /// over none.
    ///
    /// The conversion succeeded where the status is `TTF_DONE` and there is a
    /// mesh, which the result then owns: a mesh without normals. Any other
    /// answer is a `Glyph2MeshError` with the status as its reason, and a
    /// mesh that came with it is let go.
    pub fn complete<'b, C: Copy>(self, error: i32, mesh: Option<Mesh2d<C>>) -> (result: Result<
        Mesh<'b, Mesh2d<C>>,
        Error,
    >)
        ensures
            error == TTF_DONE && mesh is Some ==> result is Ok && result->Ok_0.inner()
                == mesh->Some_0,
            error != TTF_DONE || mesh is None ==> result is Err && result->Err_0
                == Error::Glyph2MeshError(Ttf2MeshError::of_status(error)),
    {
        if error != TTF_DONE {
            return Err(Error::Glyph2MeshError(Ttf2MeshError::from(error)));
        }
        match mesh {
            Some(mesh) => Mesh::from_raw(mesh),
            None => Err(Error::Glyph2MeshError(Ttf2MeshError::from(error))),
        }
    }
}

impl Mesh3dRequest {
    /// The place in the glyph table of the glyph to convert.
    pub closed spec fn glyph_spec(&self) -> nat {
        self.glyph as nat
    }

    /// The number that tells the engine the quality.
    pub closed spec fn quality_spec(&self) -> u8 {
        self.quality
    }

    /// The set of features to hand to the engine.
    pub closed spec fn features_spec(&self) -> i32 {
        self.features
    }

    /// The place in the glyph table of the glyph to convert.
    pub fn glyph(&self) -> (index: usize)
        ensures
            index == self.glyph_spec(),
    {
        self.glyph
    }

    /// The number that tells the engine the quality.
    pub fn quality(&self) -> (number: u8)
        ensures
            number == self.quality_spec(),
    {
        self.quality
    }

    /// The set of features to hand to the engine.
    pub fn features(&self) -> (features: i32)
        ensures
            features == self.features_spec(),
    {
        self.features
    }

    /// Decides what the engine's answer means. `error` is the status it
    /// reported, `mesh` the 3d mesh it handed over, `None` where it handed
    /// over none.
    ///
    /// The conversion succeeded where the status is `TTF_DONE` and there is a
    /// mesh, which the result then owns: a mesh with a normal for each
    /// vertex. Any other answer is a `Glyph2MeshError` with the status as its
    /// reason, and a mesh that came with it is let go.
    pub fn complete<'b, C: Copy>(self, error: i32, mesh: Option<Mesh3d<C>>) -> (result: Result<
        Mesh<'b, Mesh3d<C>>,
        Error,
    >)
        ensures
            error == TTF_DONE && mesh is Some ==> result is Ok && result->Ok_0.inner()
                == mesh->Some_0,
            error != TTF_DONE || mesh is None ==> result is Err && result->Err_0
                == Error::Glyph2MeshError(Ttf2MeshError::of_status(error)),
    {
        if error != TTF_DONE {
            return Err(Error::Glyph2MeshError(Ttf2MeshError::from(error)));
        }
        match mesh {
            Some(mesh) => Mesh::from_raw(mesh),
            None => Err(Error::Glyph2MeshError(Ttf2MeshError::from(error))),
        }
    }
}

/// Converting one glyph to a 2d mesh at one quality asks the same of the
/// engine every time: a request is made up of its glyph, its quality and its
/// features, and of nothing else.
pub proof fn lemma_request_2d_determined(a: Mesh2dRequest, b: Mesh2dRequest)
    requires
        a.glyph_spec() == b.glyph_spec(),
        a.quality_spec() == b.quality_spec(),
        a.features_spec() == b.features_spec(),
    ensures
        a == b,
{
}

/// Converting one glyph to a 3d mesh at one quality asks the same of the
/// engine every time: a request is made up of its glyph, its quality and its
/// features, and of nothing else.
pub proof fn lemma_request_3d_determined(a: Mesh3dRequest, b: Mesh3dRequest)
    requires
        a.glyph_spec() == b.glyph_spec(),
        a.quality_spec() == b.quality_spec(),
        a.features_spec() == b.features_spec(),
    ensures
        a == b,
{
}

} // verus!
