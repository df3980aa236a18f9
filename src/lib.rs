//! Window identifiers for desktop-integration requests.
//!
//! A dialog shown on behalf of an application should sit on top of the
//! application window that asked for it. The compositor learns which window
//! that is from a short string: `x11:<xid>` on X11, `wayland:<handle>` on
//! Wayland, or an opaque (possibly empty) string elsewhere. This crate models
//! that string, the decisions taken while resolving it from a live window, the
//! single-delivery bridge used by the asynchronous Wayland export, and the
//! guard that releases an exported Wayland handle exactly once.
pub mod backend;
pub mod bridge;
pub mod guard;
pub mod handle;
pub mod identifier;
pub mod laws;

pub use backend::DisplayKind;
pub use bridge::ExportBridge;
pub use guard::{ExportGuard, ReleaseHandle};
pub use handle::{wayland_handle, x11_handle};
pub use identifier::{NoWindow, WindowIdentifier};
