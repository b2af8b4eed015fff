//! Meshes: the arrays that a conversion produces, and the handle that owns them.
use crate::error::Error;
use crate::output::{DataIterator, IteratorValue};
use core::marker::PhantomData;
use vstd::prelude::*;

verus! {

/// A vertex of a 2d mesh. `C` is the type of a coordinate.
#[derive(Debug, PartialEq)]
pub struct Vert2d<C> {
    pub x: C,
    pub y: C,
}

/// A vertex of a 3d mesh, or the normal at one. `C` is the type of a coordinate.
#[derive(Debug, PartialEq)]
pub struct Vert3d<C> {
    pub x: C,
    pub y: C,
    pub z: C,
}

/// A triangle of a mesh: three indices into the mesh's vertices. Their order,
/// which turns the triangle one way or the other, is the one the engine gave
/// them. The library hands the indices out as they are and does not hold them
/// against the number of vertices.
#[derive(Debug, Clone, Copy, PartialEq, Eq)]
pub struct Triangle {
    pub v1: i32,
    pub v2: i32,
    pub v3: i32,
}

impl<'a, C: Copy> IteratorValue<'a> for Vert2d<C> {
    type Output = (C, C);

    open spec fn fields(&self) -> (C, C) {
        (self.x, self.y)
    }

    fn val(&self) -> (output: (C, C)) {
        (self.x, self.y)
    }
}

impl<'a, C: Copy> IteratorValue<'a> for Vert3d<C> {
    type Output = (C, C, C);

    open spec fn fields(&self) -> (C, C, C) {
        (self.x, self.y, self.z)
    }

    fn val(&self) -> (output: (C, C, C)) {
        (self.x, self.y, self.z)
    }
}

impl<'a> IteratorValue<'a> for Triangle {
    type Output = (i32, i32, i32);

    open spec fn fields(&self) -> (i32, i32, i32) {
        (self.v1, self.v2, self.v3)
    }

    fn val(&self) -> (output: (i32, i32, i32)) {
        (self.v1, self.v2, self.v3)
    }
}

/// The arrays of a mesh, as the one that owns them lays them out.
///
/// Use the methods of [`Mesh`] rather than these.
pub trait InnerMesh<'a> {
    /// A record of the vertex array.
    type VertStruct: IteratorValue<'a>;

    /// A record of the face array.
    type FaceStruct: IteratorValue<'a>;

    /// A record of the normal array.
    type NormalStruct: IteratorValue<'a>;

    /// The vertices.
    spec fn vert_view(&self) -> Seq<Self::VertStruct>;

    /// The faces.
    spec fn faces_view(&self) -> Seq<Self::FaceStruct>;

    /// The normals, where the mesh has any: a 2d mesh has none.
    spec fn normals_view(&self) -> Option<Seq<Self::NormalStruct>>;

    /// The number of vertices.
    fn vertices_len(&self) -> (len: usize)
        ensures
            len == self.vert_view().len(),
    ;

    /// The number of faces.
    fn faces_len(&self) -> (len: usize)
        ensures
            len == self.faces_view().len(),
    ;

    /// The number of normals: one for each vertex, or 0 where the mesh has
    /// none.
    fn normals_len(&self) -> (len: usize)
        ensures
            self.normals_view() matches Some(normals) ==> len == normals.len() && len
                == self.vert_view().len(),
            self.normals_view() is None ==> len == 0,
    ;

    /// The vertex array.
    fn vert(&self) -> (array: &[Self::VertStruct])
        ensures
            array@ == self.vert_view(),
    ;

    /// The face array.
    fn faces(&self) -> (array: &[Self::FaceStruct])
        ensures
            array@ == self.faces_view(),
    ;

    /// The normal array, where the mesh has one.
    fn normals(&self) -> (array: Option<&[Self::NormalStruct]>)
        ensures
            self.normals_view() matches Some(normals) ==> array is Some && array->Some_0@
                == normals,
            self.normals_view() is None ==> array is None,
    ;
}

/// A flat mesh: vertices in the plane and the triangles between them.
pub struct Mesh2d<C> {
    vert: Vec<Vert2d<C>>,
    faces: Vec<Triangle>,
}

impl<C> Mesh2d<C> {
    /// A mesh of the given vertices and faces.
    pub fn new(vert: Vec<Vert2d<C>>, faces: Vec<Triangle>) -> (mesh: Self)
        ensures
            mesh.vert_spec() == vert@,
            mesh.faces_spec() == faces@,
    {
        Mesh2d { vert, faces }
    }

    /// The vertices.
    pub closed spec fn vert_spec(&self) -> Seq<Vert2d<C>> {
        self.vert@
    }

    /// The faces.
    pub closed spec fn faces_spec(&self) -> Seq<Triangle> {
        self.faces@
    }
}

impl<'a, C: Copy> InnerMesh<'a> for Mesh2d<C> {
    type VertStruct = Vert2d<C>;

    type FaceStruct = Triangle;

    type NormalStruct = Vert3d<C>;

    open spec fn vert_view(&self) -> Seq<Vert2d<C>> {
        self.vert_spec()
    }

    open spec fn faces_view(&self) -> Seq<Triangle> {
        self.faces_spec()
    }

    open spec fn normals_view(&self) -> Option<Seq<Vert3d<C>>> {
        None
    }

    fn vertices_len(&self) -> (len: usize) {
        self.vert.len()
    }

    fn faces_len(&self) -> (len: usize) {
        self.faces.len()
    }

    fn normals_len(&self) -> (len: usize) {
        0
    }

    fn vert(&self) -> (array: &[Vert2d<C>]) {
        self.vert.as_slice()
    }

    fn faces(&self) -> (array: &[Triangle]) {
        self.faces.as_slice()
    }

    fn normals(&self) -> (array: Option<&[Vert3d<C>]>) {
        None
    }
}

/// A solid mesh: vertices in space, the triangles between them, and the
/// normal at each vertex.
pub struct Mesh3d<C> {
    vert: Vec<Vert3d<C>>,
    faces: Vec<Triangle>,
    normals: Vec<Vert3d<C>>,
}

impl<C> Mesh3d<C> {
    /// There is one normal for each vertex.
    #[verifier::type_invariant]
    closed spec fn parallel(&self) -> bool {
        self.normals@.len() == self.vert@.len()
    }

    /// A mesh of the given vertices, faces and normals, where there is one
    /// normal for each vertex; else `None`.
    pub fn new(vert: Vec<Vert3d<C>>, faces: Vec<Triangle>, normals: Vec<Vert3d<C>>) -> (mesh:
        Option<Self>)
        ensures
            mesh is Some <==> normals@.len() == vert@.len(),
            mesh matches Some(mesh) ==> mesh.vert_spec() == vert@ && mesh.faces_spec() == faces@
                && mesh.normals_spec() == normals@,
    {
        if normals.len() == vert.len() {
            Some(Mesh3d { vert, faces, normals })
        } else {
            None
        }
    }

    /// The vertices.
    pub closed spec fn vert_spec(&self) -> Seq<Vert3d<C>> {
        self.vert@
    }

    /// The faces.
    pub closed spec fn faces_spec(&self) -> Seq<Triangle> {
        self.faces@
    }

    /// The normals.
    pub closed spec fn normals_spec(&self) -> Seq<Vert3d<C>> {
        self.normals@
    }
}

impl<'a, C: Copy> InnerMesh<'a> for Mesh3d<C> {
    type VertStruct = Vert3d<C>;

    type FaceStruct = Triangle;

    type NormalStruct = Vert3d<C>;

    open spec fn vert_view(&self) -> Seq<Vert3d<C>> {
        self.vert_spec()
    }

    open spec fn faces_view(&self) -> Seq<Triangle> {
        self.faces_spec()
    }

    open spec fn normals_view(&self) -> Option<Seq<Vert3d<C>>> {
        Some(self.normals_spec())
    }

    fn vertices_len(&self) -> (len: usize) {
        self.vert.len()
    }

    fn faces_len(&self) -> (len: usize) {
        self.faces.len()
    }

    fn normals_len(&self) -> (len: usize) {
        proof {
            use_type_invariant(self);
        }
        self.vert.len()
    }

    fn vert(&self) -> (array: &[Vert3d<C>]) {
        self.vert.as_slice()
    }

    fn faces(&self) -> (array: &[Triangle]) {
        self.faces.as_slice()
    }

    fn normals(&self) -> (array: Option<&[Vert3d<C>]>) {
        Some(self.normals.as_slice())
    }
}

/// A (2d or 3d) mesh that has been generated from a glyph. It owns its
/// arrays, lends them out as [`DataIterator`]s, and lets them go when it is
/// dropped.
pub struct Mesh<'a, T: InnerMesh<'a>> {
    inner: T,
    _phantom: PhantomData<&'a T>,
}

impl<'a, T: InnerMesh<'a>> Mesh<'a, T> {
    /// The arrays that the mesh owns.
    pub closed spec fn inner(&self) -> T {
        self.inner
    }

    /// Takes over the arrays of a mesh.
    pub fn from_raw(mesh: T) -> (result: Result<Self, Error>)
        ensures
            result is Ok,
            result->Ok_0.inner() == mesh,
    {
        Ok(Mesh { inner: mesh, _phantom: PhantomData })
    }

    /// Get an iterator of mesh vertices, at the first of them.
    ///
    /// Produces `(x, y, z)` tuples for 3d mesh and `(x, y)` tuples for 2d mesh
    pub fn iter_vertices(&'a self) -> (cursor: DataIterator<'a, T::VertStruct>)
        ensures
            cursor.items() == self.inner().vert_view(),
            cursor.position() == 0,
    {
        DataIterator::new(self.inner.vert())
    }

    /// Get an iterator of mesh faces (indices), at the first of them.
    ///
    /// Produces `(v1, v2, v3)` tuples
    pub fn iter_faces(&'a self) -> (cursor: DataIterator<'a, T::FaceStruct>)
        ensures
            cursor.items() == self.inner().faces_view(),
            cursor.position() == 0,
    {
        DataIterator::new(self.inner.faces())
    }

    /// Get an iterator of mesh normals, at the first of them. Only for 3d
    /// mesh, always None for 2d mesh
    ///
    /// Produces `(x, y, z)` tuples for 3d mesh
    pub fn iter_normals(&'a self) -> (cursor: Option<DataIterator<'a, T::NormalStruct>>)
        ensures
            self.inner().normals_view() matches Some(normals) ==> cursor is Some
                && cursor->Some_0.items() == normals && cursor->Some_0.position() == 0,
            self.inner().normals_view() is None ==> cursor is None,
    {
        let normals = match self.inner.normals() {
            Some(normals) => normals,
            None => return None,
        };

        Some(DataIterator::new(normals))
    }

    /// Get the count of vertices
    pub fn vertices_len(&self) -> (len: usize)
        ensures
            len == self.inner().vert_view().len(),
    {
        self.inner.vertices_len()
    }

    /// Get the count of faces (indices)
    pub fn faces_len(&self) -> (len: usize)
        ensures
            len == self.inner().faces_view().len(),
    {
        self.inner.faces_len()
    }

    /// Get the count of normals: that of the vertices, or zero for 2d meshes
    pub fn normals_len(&self) -> (len: usize)
        ensures
            self.inner().normals_view() matches Some(normals) ==> len == normals.len() && len
                == self.inner().vert_view().len(),
            self.inner().normals_view() is None ==> len == 0,
    {
        self.inner.normals_len()
    }
}

} // verus!
