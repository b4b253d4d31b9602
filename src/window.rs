use vstd::prelude::*;

verus! {

/// The parts of a window's style mask that the title-bar setting decides.
#[derive(Clone, Copy, Debug, PartialEq, Eq, Structural)]
pub struct WindowStyle {
    /// Content extends under the title bar.
    pub full_size_content: bool,
    pub closable: bool,
    pub miniaturizable: bool,
    pub resizable: bool,
}

/// Everything the title-bar setting writes back to a window.
#[derive(Clone, Copy, Debug, PartialEq, Eq, Structural)]
pub struct TitlebarLook {
    pub style: WindowStyle,
    pub title_visible: bool,
    pub titlebar_transparent: bool,
}

/// Extension of a native window: a title bar that lets the content show
/// through, and optionally no close, minimise or resize controls.
pub trait WindowExt {
    fn set_transparent_titlebar(&self, title_transparent: bool, remove_toolbar: bool);
}

/// What a window with style `current` becomes under the title-bar setting: a
/// transparent title bar hides the title and lets the content fill the
/// window; removing the toolbar drops the close, minimise and resize
/// controls and leaves them as they were otherwise.
pub fn transparent_titlebar(current: WindowStyle, title_transparent: bool, remove_toolbar: bool) -> (r:
    TitlebarLook)
    ensures
        r.style.full_size_content == title_transparent,
        r.style.closable == (current.closable && !remove_toolbar),
        r.style.miniaturizable == (current.miniaturizable && !remove_toolbar),
        r.style.resizable == (current.resizable && !remove_toolbar),
        r.title_visible == !title_transparent,
        r.titlebar_transparent == title_transparent,
{
    let mut style = current;
    style.full_size_content = title_transparent;
    if remove_toolbar {
        style.closable = false;
        style.miniaturizable = false;
        style.resizable = false;
    }
    TitlebarLook { style, title_visible: !title_transparent, titlebar_transparent: title_transparent }
}

} // verus!
