//! The settings of the window that shows the display.

use vstd::prelude::*;

verus! {

/// Width of the window, in logical pixels, where none was asked for.
pub const DEFAULT_WIDTH: u32 = 640;

/// Height of the window, in logical pixels, where none was asked for.
pub const DEFAULT_HEIGHT: u32 = 480;

/// The title of the window where none was asked for.
pub open spec fn default_title() -> Seq<char> {
    seq!['C', 'H', 'I', 'R', 'P', '-', '8']
}

/// What was asked of the window so far.
pub ghost struct WindowSettings {
    /// The title, if one was asked for.
    pub title: Option<Seq<char>>,
    /// Width and height, if a size was asked for.
    pub size: Option<(u32, u32)>,
}

/// Collects what is asked of the window before it is opened.
pub struct DisplayBuilder {
    title: Option<String>,
    size: Option<(u32, u32)>,
}

impl View for DisplayBuilder {
    type V = WindowSettings;

    closed spec fn view(&self) -> WindowSettings {
        WindowSettings {
            title: match self.title {
                Some(title) => Some(title@),
                None => None,
            },
            size: self.size,
        }
    }
}

impl DisplayBuilder {
    /// Nothing asked for yet.
    pub fn new() -> (builder: Self)
        ensures
            builder@ == (WindowSettings { title: None, size: None }),
    {
        Self { title: None, size: None }
    }

    /// Asks for a title. The last one asked for counts.
    pub fn with_title(self, title: &str) -> (builder: Self)
        ensures
            builder@ == (WindowSettings { title: Some(title@), ..self@ }),
    {
        Self { title: Some(title.to_owned()), size: self.size }
    }

    /// Asks for a size. The last one asked for counts.
    pub fn with_size(self, width: u32, height: u32) -> (builder: Self)
        ensures
            builder@ == (WindowSettings { size: Some((width, height)), ..self@ }),
    {
        Self { title: self.title, size: Some((width, height)) }
    }

    /// The title that the window gets: the one asked for, or `CHIRP-8`.
    pub fn title(&self) -> (title: String)
        ensures
            title@ == (match self@.title {
                Some(asked) => asked,
                None => default_title(),
            }),
    {
        match &self.title {
            Some(title) => title.clone(),
            None => {
                proof {
                    reveal_strlit("CHIRP-8");
                }
                let title = "CHIRP-8".to_owned();
                assert(title@ =~= default_title());
                title
            },
        }
    }

    /// The size that the window gets: the one asked for, or 640 by 480.
    pub fn size(&self) -> (size: (u32, u32))
        ensures
            size == (match self@.size {
                Some(asked) => asked,
                None => (DEFAULT_WIDTH, DEFAULT_HEIGHT),
            }),
    {
        match self.size {
            Some(size) => size,
            None => (DEFAULT_WIDTH, DEFAULT_HEIGHT),
        }
    }
}

} // verus!
