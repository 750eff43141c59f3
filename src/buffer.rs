//! What a GPU buffer is built from: its kind, its label and its records.

use vstd::prelude::*;

verus! {

/// What a buffer holds.
#[derive(Clone, Copy, Debug, PartialEq, Eq, Structural)]
pub enum BufferKind {
    /// Vertex records.
    Vertex,
    /// Indices into the vertex records.
    Index,
}

/// The description of a buffer: its kind, a label, and the records in the
/// order in which they will be uploaded.
pub struct BufferDesc<'a, T> {
    pub kind: BufferKind,
    pub label: &'a str,
    pub data: Vec<T>,
}

impl<'a> BufferDesc<'a, i32> {
    /// An empty index buffer, labelled "Indices Buffer".
    pub fn indices() -> (r: BufferDesc<'a, i32>)
        ensures
            r.kind == BufferKind::Index,
            r.label@ == "Indices Buffer"@,
            r.data@.len() == 0,
    {
        BufferDesc { kind: BufferKind::Index, label: "Indices Buffer", data: Vec::new() }
    }
}

impl<'a, T> BufferDesc<'a, T> {
    /// An empty vertex buffer, labelled "Vertex Buffer".
    pub fn vertex() -> (r: BufferDesc<'a, T>)
        ensures
            r.kind == BufferKind::Vertex,
            r.label@ == "Vertex Buffer"@,
            r.data@.len() == 0,
    {
        BufferDesc { kind: BufferKind::Vertex, label: "Vertex Buffer", data: Vec::new() }
    }

    /// Sets the label.
    pub fn label(self, label: &'a str) -> (r: Self)
        ensures
            r.label == label,
            r.kind == self.kind,
            r.data@ == self.data@,
    {
        BufferDesc { label, ..self }
    }

    /// Replaces the records.
    pub fn data(self, data: Vec<T>) -> (r: Self)
        ensures
            r.data@ == data@,
            r.kind == self.kind,
            r.label == self.label,
    {
        BufferDesc { data, ..self }
    }

    /// Appends one record after the others.
    pub fn add_data(&mut self, record: T)
        ensures
            final(self).data@ == old(self).data@.push(record),
            final(self).kind == old(self).kind,
            final(self).label == old(self).label,
    {
        self.data.push(record);
    }

    /// Number of records that the built buffer holds: the length of the data,
    /// zero for an empty buffer.
    pub fn element_count(&self) -> (r: u32)
        requires
            self.data@.len() <= u32::MAX,
        ensures
            r == self.data@.len(),
    {
        self.data.len() as u32
    }
}

} // verus!
