//! What a render pipeline is built from, apart from the shader itself.

use vstd::prelude::*;
use vstd::string::*;

verus! {

/// The description of a render pipeline: entry points, vertex-buffer layouts
/// and bind-group layouts in the order added, an optional depth-stencil state
/// and a label. `V`, `G` and `D` are the device's layout and state types.
pub struct PipelineDesc<'a, V, G, D> {
    pub vertex_main: &'a str,
    pub fragment_main: &'a str,
    pub vertex_buffers: Vec<V>,
    pub bind_groups: Vec<G>,
    pub depth_stencil: Option<D>,
    pub label: &'a str,
}

impl<'a, V, G, D> PipelineDesc<'a, V, G, D> {
    /// The conventional description: entry points "vs_main" and "fs_main",
    /// no layouts, no depth-stencil state, label "Render Pipeline".
    pub fn new() -> (r: Self)
        ensures
            r.vertex_main@ == "vs_main"@,
            r.fragment_main@ == "fs_main"@,
            r.vertex_buffers@.len() == 0,
            r.bind_groups@.len() == 0,
            r.depth_stencil is None,
            r.label@ == "Render Pipeline"@,
    {
        PipelineDesc {
            vertex_main: "vs_main",
            fragment_main: "fs_main",
            vertex_buffers: Vec::new(),
            bind_groups: Vec::new(),
            depth_stencil: None,
            label: "Render Pipeline",
        }
    }

    /// Adds a vertex-buffer layout after the others.
    pub fn add_vertex_buffer(self, layout: V) -> (r: Self)
        ensures
            r.vertex_buffers@ == self.vertex_buffers@.push(layout),
            r.bind_groups@ == self.bind_groups@,
            r.depth_stencil == self.depth_stencil,
            r.vertex_main == self.vertex_main,
            r.fragment_main == self.fragment_main,
            r.label == self.label,
    {
        let mut r = self;
        r.vertex_buffers.push(layout);
        r
    }

    /// Adds a bind-group layout after the others.
    pub fn add_bind_group(self, layout: G) -> (r: Self)
        ensures
            r.bind_groups@ == self.bind_groups@.push(layout),
            r.vertex_buffers@ == self.vertex_buffers@,
            r.depth_stencil == self.depth_stencil,
            r.vertex_main == self.vertex_main,
            r.fragment_main == self.fragment_main,
            r.label == self.label,
    {
        let mut r = self;
        r.bind_groups.push(layout);
        r
    }

    /// Sets the name of the fragment entry point.
    pub fn fragment_main(self, name: &'a str) -> (r: Self)
        ensures
            r.fragment_main == name,
            r.vertex_main == self.vertex_main,
            r.vertex_buffers@ == self.vertex_buffers@,
            r.bind_groups@ == self.bind_groups@,
            r.depth_stencil == self.depth_stencil,
            r.label == self.label,
    {
        PipelineDesc { fragment_main: name, ..self }
    }

    /// Sets the name of the vertex entry point.
    pub fn vertex_main(self, name: &'a str) -> (r: Self)
        ensures
            r.vertex_main == name,
            r.fragment_main == self.fragment_main,
            r.vertex_buffers@ == self.vertex_buffers@,
            r.bind_groups@ == self.bind_groups@,
            r.depth_stencil == self.depth_stencil,
            r.label == self.label,
    {
        PipelineDesc { vertex_main: name, ..self }
    }

    /// Sets the depth-stencil state.
    pub fn depth_stencil(self, state: D) -> (r: Self)
        ensures
            r.depth_stencil == Some(state),
            r.vertex_main == self.vertex_main,
            r.fragment_main == self.fragment_main,
            r.vertex_buffers@ == self.vertex_buffers@,
            r.bind_groups@ == self.bind_groups@,
            r.label == self.label,
    {
        PipelineDesc { depth_stencil: Some(state), ..self }
    }

    /// The label of the pipeline's layout: the pipeline's label followed by
    /// " Layout".
    pub fn layout_label(&self) -> (r: String)
        ensures
            r@ == self.label@ + " Layout"@,
    {
        String::from_str(self.label).concat(" Layout")
    }
}

} // verus!
