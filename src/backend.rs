//! Which windowing backend a display belongs to.
use vstd::prelude::*;

verus! {

/// The windowing backend behind a window's display.
#[derive(Clone, Copy, Debug, PartialEq, Eq, Structural)]
pub enum DisplayKind {
    /// The window's XID can be read at once.
    X11,
    /// The handle must be exported, and arrives later through a callback.
    Wayland,
    /// No handle can be had: the identifier stays unset.
    Unsupported,
}

/// The backend named by a display's type name.
pub open spec fn display_kind_of(display_type: Seq<char>) -> DisplayKind {
    if display_type == "GdkX11Display"@ {
        DisplayKind::X11
    } else if display_type == "GdkWaylandDisplay"@ {
        DisplayKind::Wayland
    } else {
        DisplayKind::Unsupported
    }
}

impl DisplayKind {
    /// Tells the backend from the type name of the display object
    /// (`GdkX11Display`, `GdkWaylandDisplay`, or anything else).
    pub fn from_display_type(display_type: &str) -> (r: DisplayKind)
        ensures
            r == display_kind_of(display_type@),
    {
        let name = display_type.to_owned();
        if name == "GdkX11Display".to_owned() {
            DisplayKind::X11
        } else if name == "GdkWaylandDisplay".to_owned() {
            DisplayKind::Wayland
        } else {
            DisplayKind::Unsupported
        }
    }
}

} // verus!
