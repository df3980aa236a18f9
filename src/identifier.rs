//! The window identifier handed to the desktop-integration service.
use vstd::prelude::*;
use crate::backend::DisplayKind;
use crate::guard::{ExportGuard, ReleaseHandle};
use crate::handle::{wayland_handle, wayland_handle_of, x11_handle, x11_handle_of};

verus! {

/// A window that registered nothing with the compositor.
#[derive(Clone, Copy, Debug)]
pub struct NoWindow;

impl ReleaseHandle for NoWindow {
    // Nothing was exported, so there is nothing to release.
}

/// Identifies an application window to the compositor, so that a dialog can
/// be placed on top of it.
///
/// On the wire it is one string: `x11:<xid>`, `wayland:<handle>`, or an
/// opaque string; the empty string means "no window".
pub enum WindowIdentifier<W: ReleaseHandle = NoWindow> {
    /// A handle exported for a live window. The guard releases the export
    /// once, at the latest when the identifier is dropped.
    Gtk {
        /// The top level window, kept until the export is released.
        root: ExportGuard<W>,
        /// The exported window handle.
        handle: String,
    },
    /// A handle with no registration behind it.
    Other(String),
}

/// The handle that resolution yields: `None` when the identifier stays unset.
pub open spec fn resolved_handle(kind: DisplayKind, xid: Option<u64>, token: Option<Seq<char>>) -> Option<
    Seq<char>,
> {
    match kind {
        DisplayKind::X11 => match xid {
            Some(x) => Some(x11_handle_of(x as nat)),
            None => None,
        },
        DisplayKind::Wayland => match token {
            Some(t) => Some(wayland_handle_of(t)),
            None => None,
        },
        DisplayKind::Unsupported => None,
    }
}

/// Whether resolution keeps the window, to release its export later.
pub open spec fn resolution_binds(kind: DisplayKind, token: Option<Seq<char>>) -> bool {
    kind == DisplayKind::Wayland && token is Some
}

/// The compositor token, if one arrived.
pub open spec fn token_view(token: Option<String>) -> Option<Seq<char>> {
    match token {
        Some(t) => Some(t@),
        None => None,
    }
}

/// What one release does to an identifier: it releases exactly when a
/// release is owed, leaves none owed, and keeps the variant and the handle.
pub open spec fn release_step<W: ReleaseHandle>(
    before: WindowIdentifier<W>,
    after: WindowIdentifier<W>,
    released: bool,
) -> bool {
    &&& released == before.owes_release()
    &&& !after.owes_release()
    &&& after.handle_view() == before.handle_view()
    &&& after.is_bound_spec() == before.is_bound_spec()
    &&& after.is_bound_spec() ==> after->Gtk_root.window() == before->Gtk_root.window()
}

impl<W: ReleaseHandle> WindowIdentifier<W> {
    /// The string sent on the wire.
    pub open spec fn handle_view(&self) -> Seq<char> {
        match self {
            WindowIdentifier::Gtk { handle, .. } => handle@,
            WindowIdentifier::Other(handle) => handle@,
        }
    }

    /// Whether the identifier holds a window whose export it releases.
    pub open spec fn is_bound_spec(&self) -> bool {
        self is Gtk
    }

    /// Whether a release of the export is still owed.
    pub open spec fn owes_release(&self) -> bool {
        match self {
            WindowIdentifier::Gtk { root, .. } => root.is_armed(),
            WindowIdentifier::Other(_) => false,
        }
    }

    /// The identifier that means "no window": unbound, with an empty handle.
    pub open spec fn is_unset(&self) -> bool {
        !self.is_bound_spec() && self.handle_view().len() == 0
    }

    /// Wraps a caller-supplied identifier verbatim.
    pub fn new(identifier: &str) -> (r: Self)
        ensures
            !r.is_bound_spec(),
            r.handle_view() == identifier@,
    {
        WindowIdentifier::Other(identifier.to_owned())
    }

    /// The string sent on the wire: the handle, whatever the variant.
    pub fn render(&self) -> (r: String)
        ensures
            r@ == self.handle_view(),
    {
        match self {
            WindowIdentifier::Gtk { handle, .. } => handle.clone(),
            WindowIdentifier::Other(handle) => handle.clone(),
        }
    }

    /// Whether the identifier holds a window whose export it releases.
    pub fn is_bound(&self) -> (r: bool)
        ensures
            r == self.is_bound_spec(),
    {
        match self {
            WindowIdentifier::Gtk { .. } => true,
            WindowIdentifier::Other(_) => false,
        }
    }

    /// The identifier of an X11 window, from its XID; unset when the window
    /// turned out not to be an X11 one.
    pub fn from_xid(xid: Option<u64>) -> (r: Self)
        ensures
            !r.is_bound_spec(),
            resolved_handle(DisplayKind::X11, xid, None) matches Some(h) ==> r.handle_view() == h,
            xid is None ==> r.is_unset(),
    {
        match xid {
            Some(x) => WindowIdentifier::Other(x11_handle(x)),
            None => WindowIdentifier::default(),
        }
    }

    /// Decides the identifier of a mapped window from what was read of it:
    /// its display's backend, its XID when that backend is X11, and the token
    /// that the compositor handed out when the backend is Wayland (`None` when
    /// the export was abandoned before a token came).
    pub fn resolve(kind: DisplayKind, window: W, xid: Option<u64>, token: Option<String>) -> (r: Self)
        ensures
            r.is_bound_spec() == resolution_binds(kind, token_view(token)),
            match resolved_handle(kind, xid, token_view(token)) {
                Some(h) => r.handle_view() == h,
                None => r.is_unset(),
            },
            r.is_bound_spec() ==> r.owes_release() && r->Gtk_root.window() == window,
    {
        match kind {
            DisplayKind::X11 => WindowIdentifier::from_xid(xid),
            DisplayKind::Wayland => match token {
                Some(t) => WindowIdentifier::Gtk {
                    root: ExportGuard::new(window),
                    handle: wayland_handle(t.as_str()),
                },
                None => WindowIdentifier::default(),
            },
            DisplayKind::Unsupported => WindowIdentifier::default(),
        }
    }

    /// Releases the export held by a bound identifier, if still owed, and
    /// reports whether it did. The handle does not change; a second call
    /// does nothing and returns `false`.
    pub fn release(&mut self) -> (r: bool)
        ensures
            release_step(*old(self), *final(self), r),
    {
        match self {
            WindowIdentifier::Gtk { root, .. } => root.release(),
            WindowIdentifier::Other(_) => false,
        }
    }
}

impl<W: ReleaseHandle> Default for WindowIdentifier<W> {
    /// No window association: the empty handle.
    fn default() -> (r: Self)
        ensures
            r.is_unset(),
    {
        WindowIdentifier::Other(String::new())
    }
}

} // verus!
