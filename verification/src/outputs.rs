//! Cursors over the arrays of a mesh that carry the kind of record in their
//! type: 2d vertices, 3d vertices and faces.
use crate::mesh::{Triangle, Vert2d, Vert3d};
use vstd::prelude::*;

verus! {

/// A cursor over the vertices of a 2d mesh. `C` is the type of a coordinate.
pub struct VertexIterator<'a, C> {
    index: usize,
    vertices: &'a [Vert2d<C>],
}

impl<'a, C> VertexIterator<'a, C> {
    /// The whole array that the cursor reads.
    pub closed spec fn items(&self) -> Seq<Vert2d<C>> {
        self.vertices@
    }

    /// The number of reads that have moved the cursor.
    pub closed spec fn position(&self) -> nat {
        self.index as nat
    }

    /// The vertices that are still to come, in order.
    pub open spec fn remaining(&self) -> Seq<Vert2d<C>> {
        if self.position() <= self.items().len() {
            self.items().skip(self.position() as int)
        } else {
            Seq::empty()
        }
    }

    /// A cursor at the start of `vertices`.
    pub fn new(vertices: &'a [Vert2d<C>]) -> (cursor: Self)
        ensures
            cursor.items() == vertices@,
            cursor.position() == 0,
    {
        Self { index: 0, vertices }
    }

    /// Hands out the next vertex and moves on, or `None` at the end of the
    /// array, where the cursor stays.
    pub fn next(&mut self) -> (item: Option<Vertex2d<'a, C>>)
        ensures
            final(self).items() == old(self).items(),
            old(self).remaining().len() > 0 ==> item is Some && item->Some_0@ == old(
                self,
            ).remaining()[0] && final(self).position() == old(self).position() + 1,
            old(self).remaining().len() == 0 ==> item is None && final(self).position() == old(
                self,
            ).position(),
    {
        match self.vertices.get(self.index) {
            Some(vertex) => {
                self.index += 1;

                Some(Vertex2d { vertex })
            },
            None => None,
        }
    }
}

/// A vertex of a 2d mesh, as a cursor hands it out.
pub struct Vertex2d<'a, C> {
    vertex: &'a Vert2d<C>,
}

impl<'a, C> View for Vertex2d<'a, C> {
    type V = Vert2d<C>;

    /// The record that the vertex refers to.
    closed spec fn view(&self) -> Vert2d<C> {
        *self.vertex
    }
}

impl<'a, C: Copy> Vertex2d<'a, C> {
    /// The coordinates `(x, y)`.
    pub fn get(&self) -> (coordinates: (C, C))
        ensures
            coordinates == (self@.x, self@.y),
    {
        (self.vertex.x, self.vertex.y)
    }
}

/// A cursor over the vertices of a 3d mesh. `C` is the type of a coordinate.
pub struct Vertex3dIterator<'a, C> {
    index: usize,
    vertices: &'a [Vert3d<C>],
}

impl<'a, C> Vertex3dIterator<'a, C> {
    /// The whole array that the cursor reads.
    pub closed spec fn items(&self) -> Seq<Vert3d<C>> {
        self.vertices@
    }

    /// The number of reads that have moved the cursor.
    pub closed spec fn position(&self) -> nat {
        self.index as nat
    }

    /// The vertices that are still to come, in order.
    pub open spec fn remaining(&self) -> Seq<Vert3d<C>> {
        if self.position() <= self.items().len() {
            self.items().skip(self.position() as int)
        } else {
            Seq::empty()
        }
    }

    /// A cursor at the start of `vertices`.
    pub fn new(vertices: &'a [Vert3d<C>]) -> (cursor: Self)
        ensures
            cursor.items() == vertices@,
            cursor.position() == 0,
    {
        Self { index: 0, vertices }
    }

    /// Hands out the next vertex and moves on, or `None` at the end of the
    /// array, where the cursor stays.
    pub fn next(&mut self) -> (item: Option<Vertex3d<'a, C>>)
        ensures
            final(self).items() == old(self).items(),
            old(self).remaining().len() > 0 ==> item is Some && item->Some_0@ == old(
                self,
            ).remaining()[0] && final(self).position() == old(self).position() + 1,
            old(self).remaining().len() == 0 ==> item is None && final(self).position() == old(
                self,
            ).position(),
    {
        match self.vertices.get(self.index) {
            Some(vertex) => {
                self.index += 1;

                Some(Vertex3d { vertex })
            },
            None => None,
        }
    }
}

/// A vertex of a 3d mesh, as a cursor hands it out.
pub struct Vertex3d<'a, C> {
    vertex: &'a Vert3d<C>,
}

impl<'a, C> View for Vertex3d<'a, C> {
    type V = Vert3d<C>;

    /// The record that the vertex refers to.
    closed spec fn view(&self) -> Vert3d<C> {
        *self.vertex
    }
}

impl<'a, C: Copy> Vertex3d<'a, C> {
    /// The coordinates `(x, y, z)`.
    pub fn get(&self) -> (coordinates: (C, C, C))
        ensures
            coordinates == (self@.x, self@.y, self@.z),
    {
        (self.vertex.x, self.vertex.y, self.vertex.z)
    }
}

/// A record that holds the three vertex indices of a face.
pub trait FaceValues {
    /// The indices `(v1, v2, v3)`.
    spec fn indices(&self) -> (i32, i32, i32);

    /// Hands out the indices `(v1, v2, v3)`.
    fn get(&self) -> (indices: (i32, i32, i32))
        ensures
            indices == self.indices(),
    ;
}

impl FaceValues for Triangle {
    open spec fn indices(&self) -> (i32, i32, i32) {
        (self.v1, self.v2, self.v3)
    }

    fn get(&self) -> (indices: (i32, i32, i32)) {
        (self.v1, self.v2, self.v3)
    }
}

/// A cursor over the faces of a mesh.
pub struct FacesIterator<'a, T> {
    index: usize,
    faces: &'a [T],
}

impl<'a, T> FacesIterator<'a, T> {
    /// The whole array that the cursor reads.
    pub closed spec fn items(&self) -> Seq<T> {
        self.faces@
    }

    /// The number of reads that have moved the cursor.
    pub closed spec fn position(&self) -> nat {
        self.index as nat
    }

    /// The faces that are still to come, in order.
    pub open spec fn remaining(&self) -> Seq<T> {
        if self.position() <= self.items().len() {
            self.items().skip(self.position() as int)
        } else {
            Seq::empty()
        }
    }

    /// A cursor at the start of `faces`.
    pub fn new(faces: &'a [T]) -> (cursor: Self)
        ensures
            cursor.items() == faces@,
            cursor.position() == 0,
    {
        Self { index: 0, faces }
    }

    /// Hands out the next face and moves on, or `None` at the end of the
    /// array, where the cursor stays.
    pub fn next(&mut self) -> (item: Option<Face<'a, T>>)
        ensures
            final(self).items() == old(self).items(),
            old(self).remaining().len() > 0 ==> item is Some && item->Some_0@ == old(
                self,
            ).remaining()[0] && final(self).position() == old(self).position() + 1,
            old(self).remaining().len() == 0 ==> item is None && final(self).position() == old(
                self,
            ).position(),
    {
        match self.faces.get(self.index) {
            Some(face) => {
                self.index += 1;

                Some(Face { face })
            },
            None => None,
        }
    }
}

/// A face of a mesh, as a cursor hands it out.
pub struct Face<'a, T> {
    face: &'a T,
}

impl<'a, T> View for Face<'a, T> {
    type V = T;

    /// The record that the face refers to.
    closed spec fn view(&self) -> T {
        *self.face
    }
}

impl<'a, T: FaceValues> Face<'a, T> {
    /// The indices `(v1, v2, v3)` of the vertices of the face.
    pub fn get(&self) -> (indices: (i32, i32, i32))
        ensures
            indices == self@.indices(),
    {
        self.face.get()
    }
}

} // verus!
