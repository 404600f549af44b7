use vstd::prelude::*;

verus! {

/// The fixed size requested for the single window.
pub const WINDOW_WIDTH: i32 = 275;

pub const WINDOW_HEIGHT: i32 = 50;

/// The text of the single label.
pub open spec fn hello_text() -> Seq<char> {
    "Hello, world!"@
}

/// A text label, the only kind of widget the window ever holds.
pub struct Label {
    pub text: String,
}

impl Label {
    /// A label carrying the given text.
    pub fn new(text: String) -> (l: Label)
        ensures
            l.text@ == text@,
    {
        Label { text }
    }
}

/// The model of the one top-level window: its sole optional child, its
/// requested default size, and whether it has been asked to show itself.
pub struct Window {
    pub child: Option<Label>,
    pub default_width: i32,
    pub default_height: i32,
    pub visible: bool,
}

impl Window {
    /// A fresh window: no child, no requested size, not yet shown.
    pub fn new() -> (w: Window)
        ensures
            w.child is None,
            w.default_width == 0,
            w.default_height == 0,
            !w.visible,
    {
        Window { child: None, default_width: 0, default_height: 0, visible: false }
    }

    /// Replace the window's sole content child; everything else is unchanged.
    pub fn set_child(&mut self, l: Label)
        ensures
            final(self).child matches Some(c) && c.text@ == l.text@,
            final(self).default_width == old(self).default_width,
            final(self).default_height == old(self).default_height,
            final(self).visible == old(self).visible,
    {
        self.child = Some(l);
    }

    /// Fix the window's requested default size; everything else is unchanged.
    pub fn set_default_size(&mut self, width: i32, height: i32)
        ensures
            final(self).default_width == width,
            final(self).default_height == height,
            final(self).child == old(self).child,
            final(self).visible == old(self).visible,
    {
        self.default_width = width;
        self.default_height = height;
    }

    /// Request that the window be shown; everything else is unchanged.
    pub fn present(&mut self)
        ensures
            final(self).visible,
            final(self).child == old(self).child,
            final(self).default_width == old(self).default_width,
            final(self).default_height == old(self).default_height,
    {
        self.visible = true;
    }
}

/// The windows owned by the application after activation.
pub struct Ui {
    pub windows: Vec<Window>,
}

/// The state the interface must be in once activation has run: exactly one
/// window, containing exactly one label with the greeting text, with the
/// fixed requested size, shown.
pub open spec fn activated(ui: Ui) -> bool {
    &&& ui.windows.len() == 1
    &&& ui.windows[0].child matches Some(l) && l.text@ == hello_text()
    &&& ui.windows[0].default_width == WINDOW_WIDTH
    &&& ui.windows[0].default_height == WINDOW_HEIGHT
    &&& ui.windows[0].visible
}

/// Window bootstrap: build the single top-level window with its sole label
/// child, fix its requested size, and mark it shown.
pub fn build_activation_ui() -> (ui: Ui)
    ensures
        activated(ui),
{
    let label = Label::new("Hello, world!".to_owned());
    let mut window = Window::new();
    window.set_child(label);
    window.set_default_size(WINDOW_WIDTH, WINDOW_HEIGHT);
    window.present();
    let mut windows: Vec<Window> = Vec::new();
    windows.push(window);
    Ui { windows }
}

} // verus!
