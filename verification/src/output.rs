//! Views of the arrays of a mesh: vertices, faces (indices) and normals.
use vstd::prelude::*;

verus! {

/// A record of a mesh array that can hand out its fields as a tuple.
pub trait IteratorValue<'a> {
    /// The tuple: `(x, y)` for a 2d vertex, `(x, y, z)` for a 3d vertex or a
    /// normal, `(v1, v2, v3)` for a face.
    type Output;

    /// The fields of the record.
    spec fn fields(&self) -> Self::Output;

    /// Hands out the fields of the record.
    fn val(&self) -> (output: Self::Output)
        ensures
            output == self.fields(),
    ;
}

/// A read-only cursor over one array of a mesh. It borrows the array, reads
/// it front to back, and checks every read against the array's length.
///
/// The records it hands out are [`Value`]s. What `Value::val` gives depends
/// on the array:
/// * 2d vertices: `(x, y)`
/// * 3d vertices: `(x, y, z)`
/// * faces (both 2d and 3d): `(v1, v2, v3)`, indices into the vertices
/// * normals (3d only): `(x, y, z)`
pub struct DataIterator<'a, T: IteratorValue<'a>> {
    index: usize,
    iterable: &'a [T],
}

impl<'a, T: IteratorValue<'a>> DataIterator<'a, T> {
    /// The whole array that the cursor reads.
    pub closed spec fn items(&self) -> Seq<T> {
        self.iterable@
    }

    /// The number of reads that have moved the cursor.
    pub closed spec fn position(&self) -> nat {
        self.index as nat
    }

    /// The records that are still to come, in order.
    pub open spec fn remaining(&self) -> Seq<T> {
        if self.position() <= self.items().len() {
            self.items().skip(self.position() as int)
        } else {
            Seq::empty()
        }
    }

    /// A cursor at the start of `iterable`.
    pub fn new(iterable: &'a [T]) -> (cursor: Self)
        ensures
            cursor.items() == iterable@,
            cursor.position() == 0,
    {
        Self { index: 0, iterable }
    }

    /// Hands out the next record and moves on, or `None` at the end of the
    /// array, where the cursor stays.
    pub fn next(&mut self) -> (item: Option<Value<'a, T>>)
        ensures
            final(self).items() == old(self).items(),
            old(self).remaining().len() > 0 ==> item is Some && item->Some_0@ == old(
                self,
            ).remaining()[0] && final(self).position() == old(self).position() + 1,
            old(self).remaining().len() == 0 ==> item is None && final(self).position() == old(
                self,
            ).position(),
    {
        match self.iterable.get(self.index) {
            Some(item) => {
                self.index += 1;

                Some(Value { inner: item })
            },
            None => None,
        }
    }

    /// Hands out all the records that are still to come, in order.
    pub fn collect(self) -> (values: Vec<Value<'a, T>>)
        ensures
            values@.len() == self.remaining().len(),
            forall|i: int|
                0 <= i < values@.len() ==> (#[trigger] values@[i])@ == self.remaining()[i],
    {
        let mut cursor = self;
        let mut values: Vec<Value<'a, T>> = Vec::new();
        loop
            invariant
                cursor.items() == self.items(),
                cursor.remaining().len() + values@.len() == self.remaining().len(),
                forall|i: int|
                    0 <= i < cursor.remaining().len() ==> cursor.remaining()[i]
                        == self.remaining()[values@.len() + i],
                forall|i: int|
                    0 <= i < values@.len() ==> (#[trigger] values@[i])@ == self.remaining()[i],
            ensures
                values@.len() == self.remaining().len(),
            decreases cursor.remaining().len(),
        {
            let ghost before = cursor;
            match cursor.next() {
                Some(value) => {
                    values.push(value);
                },
                None => {
                    break ;
                },
            }
            proof {
                assert forall|i: int| 0 <= i < cursor.remaining().len() implies
                    cursor.remaining()[i] == self.remaining()[values@.len() + i] by {
                    assert(cursor.remaining()[i] == before.remaining()[i + 1]);
                }
            }
        }
        values
    }
}

/// One record of a mesh array. Use [`Value::val`] to get its fields.
#[derive(Debug)]
pub struct Value<'a, T> {
    inner: &'a T,
}

impl<'a, T> View for Value<'a, T> {
    type V = T;

    /// The record that the value refers to.
    closed spec fn view(&self) -> T {
        *self.inner
    }
}

impl<'a, T: IteratorValue<'a>> Value<'a, T> {
    /// The fields of the record. See [`DataIterator`] for what they are.
    pub fn val(&self) -> (output: T::Output)
        ensures
            output == self@.fields(),
    {
        self.inner.val()
    }
}

} // verus!
