//! The caller-supplied hooks and which of them are present.

use vstd::prelude::*;

verus! {

/// Which hooks are registered. An absent hook's step of the loop is skipped.
#[derive(Clone, Copy, Debug, PartialEq, Eq, Structural)]
pub struct HookPresence {
    pub init: bool,
    pub input: bool,
    pub resize: bool,
    pub update: bool,
    pub render: bool,
}

/// The hooks of one application, each optional, registered before the loop
/// starts and never changed afterwards.
pub struct HookSet<Init, Input, Resize, Update, Render> {
    pub init: Option<Init>,
    pub input: Option<Input>,
    pub resize: Option<Resize>,
    pub update: Option<Update>,
    pub render: Option<Render>,
}

impl<Init, Input, Resize, Update, Render> HookSet<Init, Input, Resize, Update, Render> {
    /// Which hooks this set holds.
    pub open spec fn presence_of(&self) -> HookPresence {
        HookPresence {
            init: self.init is Some,
            input: self.input is Some,
            resize: self.resize is Some,
            update: self.update is Some,
            render: self.render is Some,
        }
    }

    /// A set with no hook.
    pub fn new() -> (r: Self)
        ensures
            r.init is None,
            r.input is None,
            r.resize is None,
            r.update is None,
            r.render is None,
    {
        HookSet { init: None, input: None, resize: None, update: None, render: None }
    }

    /// Registers the hook that runs once before the window is shown.
    pub fn init(self, hook: Init) -> (r: Self)
        ensures
            r.init == Some(hook),
            r.input == self.input,
            r.resize == self.resize,
            r.update == self.update,
            r.render == self.render,
    {
        HookSet { init: Some(hook), ..self }
    }

    /// Registers the hook that sees each window event first.
    pub fn window_event(self, hook: Input) -> (r: Self)
        ensures
            r.input == Some(hook),
            r.init == self.init,
            r.resize == self.resize,
            r.update == self.update,
            r.render == self.render,
    {
        HookSet { input: Some(hook), ..self }
    }

    /// Registers the hook that runs after each accepted resize.
    pub fn resize(self, hook: Resize) -> (r: Self)
        ensures
            r.resize == Some(hook),
            r.init == self.init,
            r.input == self.input,
            r.update == self.update,
            r.render == self.render,
    {
        HookSet { resize: Some(hook), ..self }
    }

    /// Registers the hook that runs each frame before rendering.
    pub fn update(self, hook: Update) -> (r: Self)
        ensures
            r.update == Some(hook),
            r.init == self.init,
            r.input == self.input,
            r.resize == self.resize,
            r.render == self.render,
    {
        HookSet { update: Some(hook), ..self }
    }

    /// Registers the hook that records each frame's drawing.
    pub fn render(self, hook: Render) -> (r: Self)
        ensures
            r.render == Some(hook),
            r.init == self.init,
            r.input == self.input,
            r.resize == self.resize,
            r.update == self.update,
    {
        HookSet { render: Some(hook), ..self }
    }

    /// Which hooks are registered.
    pub fn presence(&self) -> (r: HookPresence)
        ensures
            r == self.presence_of(),
    {
        HookPresence {
            init: self.init.is_some(),
            input: self.input.is_some(),
            resize: self.resize.is_some(),
            update: self.update.is_some(),
            render: self.render.is_some(),
        }
    }
}

} // verus!
