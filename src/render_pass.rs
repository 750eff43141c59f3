//! What a render pass is begun from: label, clear colour, depth-stencil
//! attachment and colour attachments.

use vstd::prelude::*;

verus! {

/// The description of a render pass. `C`, `D` and `A` are the device's
/// colour, depth-stencil attachment and colour attachment types.
pub struct RenderPassDesc<'a, C, D, A> {
    pub label: &'a str,
    pub clear_color: C,
    pub depth_stencil_attachment: Option<D>,
    pub color_attachments: Vec<A>,
}

impl<'a, C, D, A> RenderPassDesc<'a, C, D, A> {
    /// A pass labelled "Render Pass" that clears to `clear_color`, with no
    /// depth-stencil attachment and no colour attachment yet.
    pub fn new(clear_color: C) -> (r: Self)
        ensures
            r.label@ == "Render Pass"@,
            r.clear_color == clear_color,
            r.depth_stencil_attachment is None,
            r.color_attachments@.len() == 0,
    {
        RenderPassDesc {
            label: "Render Pass",
            clear_color,
            depth_stencil_attachment: None,
            color_attachments: Vec::new(),
        }
    }

    /// Sets the label.
    pub fn label(self, label: &'a str) -> (r: Self)
        ensures
            r.label == label,
            r.clear_color == self.clear_color,
            r.depth_stencil_attachment == self.depth_stencil_attachment,
            r.color_attachments@ == self.color_attachments@,
    {
        RenderPassDesc { label, ..self }
    }

    /// Sets the clear (background) colour.
    pub fn clear_color(self, clear_color: C) -> (r: Self)
        ensures
            r.clear_color == clear_color,
            r.label == self.label,
            r.depth_stencil_attachment == self.depth_stencil_attachment,
            r.color_attachments@ == self.color_attachments@,
    {
        RenderPassDesc { clear_color, ..self }
    }

    /// Sets the depth-stencil attachment.
    pub fn depth_stencil_attachment(self, attachment: D) -> (r: Self)
        ensures
            r.depth_stencil_attachment == Some(attachment),
            r.label == self.label,
            r.clear_color == self.clear_color,
            r.color_attachments@ == self.color_attachments@,
    {
        RenderPassDesc { depth_stencil_attachment: Some(attachment), ..self }
    }

    /// Adds a colour attachment after the others, as each begun pass does
    /// with the target it draws into.
    pub fn add_color_attachment(&mut self, attachment: A)
        ensures
            final(self).color_attachments@ == old(self).color_attachments@.push(attachment),
            final(self).label == old(self).label,
            final(self).clear_color == old(self).clear_color,
            final(self).depth_stencil_attachment == old(self).depth_stencil_attachment,
    {
        self.color_attachments.push(attachment);
    }
}

} // verus!
