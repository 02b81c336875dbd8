//! Plain data about windows: identifiers, options, images.

use vstd::prelude::*;

verus! {

/// Identifies one window for as long as the context lives. Identifiers are
/// never handed out twice.
#[derive(Debug, Clone, Copy, PartialEq, Eq, Structural, Hash)]
pub struct WindowId(pub u64);

/// How a new window is to look.
#[derive(Debug, Clone, Copy, PartialEq, Eq)]
pub struct WindowOptions {
    /// Keep the aspect ratio of the image when the window is resized.
    pub preserve_aspect_ratio: bool,
    /// Create the window hidden; it is shown by `set_window_visible`.
    pub start_hidden: bool,
    /// Width and height asked for, in pixels.
    pub size: Option<(u32, u32)>,
    /// Let the user resize the window.
    pub resizable: bool,
    /// Leave out the window decorations.
    pub borderless: bool,
}

impl Default for WindowOptions {
    fn default() -> (r: Self)
        ensures
            r == (WindowOptions {
                preserve_aspect_ratio: true,
                start_hidden: false,
                size: None,
                resizable: true,
                borderless: false,
            }),
    {
        WindowOptions {
            preserve_aspect_ratio: true,
            start_hidden: false,
            size: None,
            resizable: true,
            borderless: false,
        }
    }
}

/// Pixel data with its dimensions.
#[derive(Debug, PartialEq, Eq)]
pub struct Image {
    pub width: u32,
    pub height: u32,
    pub data: Vec<u8>,
}

/// An [`Image`] as plain values.
pub struct ImageView {
    pub width: u32,
    pub height: u32,
    pub data: Seq<u8>,
}

impl View for Image {
    type V = ImageView;

    open spec fn view(&self) -> ImageView {
        ImageView { width: self.width, height: self.height, data: self.data@ }
    }
}

} // verus!
