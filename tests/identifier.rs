use std::cell::RefCell;
use std::rc::Rc;

use futures::channel::oneshot;
use window_identifier::{
    wayland_handle, x11_handle, DisplayKind, ExportBridge, ExportGuard, NoWindow, ReleaseHandle,
    WindowIdentifier,
};

/// A window that records, in a shared log, every release of its export.
struct MockWindow {
    id: u32,
    log: Rc<RefCell<Vec<u32>>>,
}

impl ReleaseHandle for MockWindow {
    fn unexport_handle(&self) {
        self.log.borrow_mut().push(self.id);
    }
}

fn mock(id: u32) -> (MockWindow, Rc<RefCell<Vec<u32>>>) {
    let log = Rc::new(RefCell::new(Vec::new()));
    (MockWindow { id, log: log.clone() }, log)
}

#[test]
fn default_and_empty_identifier_render_empty() {
    let d: WindowIdentifier = WindowIdentifier::default();
    let e: WindowIdentifier = WindowIdentifier::new("");
    assert_eq!(d.render(), "");
    assert_eq!(e.render(), "");
    assert_eq!(d.render(), e.render());
    assert!(!d.is_bound());
    assert!(!e.is_bound());
}

#[test]
fn new_renders_verbatim() {
    for s in ["foo", "x11:42", "wayland:zz", "ünïcødé ✓", " spaced "] {
        let id: WindowIdentifier = WindowIdentifier::new(s);
        assert_eq!(id.render(), s);
        assert!(!id.is_bound());
    }
}

#[test]
fn display_kind_from_type_names() {
    assert_eq!(DisplayKind::from_display_type("GdkX11Display"), DisplayKind::X11);
    assert_eq!(DisplayKind::from_display_type("GdkWaylandDisplay"), DisplayKind::Wayland);
    assert_eq!(DisplayKind::from_display_type("GdkBroadwayDisplay"), DisplayKind::Unsupported);
    assert_eq!(DisplayKind::from_display_type(""), DisplayKind::Unsupported);
    assert_eq!(DisplayKind::from_display_type("gdkx11display"), DisplayKind::Unsupported);
}

#[test]
fn x11_handle_is_decimal() {
    assert_eq!(x11_handle(0), "x11:0");
    assert_eq!(x11_handle(7), "x11:7");
    assert_eq!(x11_handle(10), "x11:10");
    assert_eq!(x11_handle(12345), "x11:12345");
    assert_eq!(x11_handle(u64::MAX), "x11:18446744073709551615");
}

#[test]
fn wayland_handle_prefixes_token() {
    assert_eq!(wayland_handle("abcd"), "wayland:abcd");
    assert_eq!(wayland_handle(""), "wayland:");
}

#[test]
fn x11_resolution_renders_xid() {
    let (w, log) = mock(1);
    let id = WindowIdentifier::resolve(DisplayKind::X11, w, Some(12345), None);
    assert_eq!(id.render(), "x11:12345");
    assert!(!id.is_bound());
    drop(id);
    assert!(log.borrow().is_empty());
}

#[test]
fn x11_resolution_reads_back_the_id() {
    for xid in [0u64, 1, 9, 99, 100, 4294967296, u64::MAX] {
        let id: WindowIdentifier = WindowIdentifier::from_xid(Some(xid));
        let r = id.render();
        let digits = r.strip_prefix("x11:").unwrap();
        assert!(!digits.is_empty() && digits.chars().all(|c| c.is_ascii_digit()));
        assert_eq!(digits.parse::<u64>().unwrap(), xid);
    }
}

#[test]
fn x11_cast_failure_gives_default() {
    let id: WindowIdentifier = WindowIdentifier::from_xid(None);
    assert_eq!(id.render(), "");
    assert!(!id.is_bound());
    let (w, _) = mock(2);
    let id = WindowIdentifier::resolve(DisplayKind::X11, w, None, Some("abcd".to_string()));
    assert_eq!(id.render(), "");
    assert!(!id.is_bound());
}

#[test]
fn unsupported_backend_gives_default() {
    let (w, log) = mock(3);
    let id = WindowIdentifier::resolve(
        DisplayKind::Unsupported,
        w,
        Some(5),
        Some("abcd".to_string()),
    );
    assert_eq!(id.render(), "");
    assert!(!id.is_bound());
    drop(id);
    assert!(log.borrow().is_empty());
}

#[test]
fn wayland_resolution_renders_token_and_releases_once() {
    let (w, log) = mock(77);
    let id = WindowIdentifier::resolve(DisplayKind::Wayland, w, None, Some("abcd".to_string()));
    assert_eq!(id.render(), "wayland:abcd");
    assert!(id.is_bound());
    assert!(log.borrow().is_empty());
    drop(id);
    assert_eq!(*log.borrow(), vec![77]);
}

#[test]
fn explicit_release_is_idempotent() {
    let (w, log) = mock(5);
    let mut id = WindowIdentifier::resolve(DisplayKind::Wayland, w, None, Some("h".to_string()));
    assert!(id.release());
    assert!(!id.release());
    assert_eq!(id.render(), "wayland:h");
    assert!(id.is_bound());
    drop(id);
    assert_eq!(*log.borrow(), vec![5]);
}

#[test]
fn unbound_identifiers_release_nothing() {
    let mut id: WindowIdentifier = WindowIdentifier::new("foo");
    assert!(!id.release());
    let mut d: WindowIdentifier<NoWindow> = WindowIdentifier::default();
    assert!(!d.release());
}

#[test]
fn guard_releases_on_drop_or_once_explicitly() {
    let (w, log) = mock(9);
    let g = ExportGuard::new(w);
    assert!(g.armed());
    drop(g);
    assert_eq!(*log.borrow(), vec![9]);

    let (w, log) = mock(10);
    let mut g = ExportGuard::new(w);
    assert!(g.release());
    assert!(!g.armed());
    assert!(!g.release());
    drop(g);
    assert_eq!(*log.borrow(), vec![10]);
}

/// Offers a token to the bridge as the export callback does, passing an
/// accepted one on to the waiting task.
fn offer(bridge: &mut ExportBridge, token: &str) -> bool {
    match bridge.deliver(token) {
        Some(handed) => {
            let _ = ExportBridge::hand_over(handed);
            true
        }
        None => false,
    }
}

#[test]
fn abandoned_export_gives_default_without_release() {
    let (sender, receiver) = oneshot::channel::<String>();
    let bridge = ExportBridge::new(sender);
    drop(bridge);
    let token = futures::executor::block_on(receiver).ok();
    assert_eq!(token, None);
    let (w, log) = mock(11);
    let id = WindowIdentifier::resolve(DisplayKind::Wayland, w, None, token);
    assert_eq!(id.render(), "");
    assert!(!id.is_bound());
    drop(id);
    assert!(log.borrow().is_empty());
}

#[test]
fn single_delivery_resolves_to_wayland_token() {
    let (sender, receiver) = oneshot::channel::<String>();
    let mut bridge = ExportBridge::new(sender);
    assert!(bridge.open());
    assert!(offer(&mut bridge, "abcd"));
    assert!(!bridge.open());
    let token = futures::executor::block_on(receiver).ok();
    assert_eq!(token.as_deref(), Some("abcd"));
    let (w, log) = mock(42);
    let id = WindowIdentifier::resolve(DisplayKind::Wayland, w, None, token);
    assert_eq!(id.render(), "wayland:abcd");
    drop(id);
    assert_eq!(*log.borrow(), vec![42]);
}

#[test]
fn first_delivery_wins() {
    let (sender, receiver) = oneshot::channel::<String>();
    let mut bridge = ExportBridge::new(sender);
    assert!(offer(&mut bridge, "abcd"));
    assert!(!offer(&mut bridge, "zzzz"));
    let token = futures::executor::block_on(receiver).ok();
    let (w, _) = mock(1);
    let id = WindowIdentifier::resolve(DisplayKind::Wayland, w, None, token);
    assert_eq!(id.render(), "wayland:abcd");
}

#[test]
fn later_deliveries_hand_out_nothing() {
    let (sender, _receiver) = oneshot::channel::<String>();
    let mut bridge = ExportBridge::new(sender);
    let (_, token) = bridge.deliver("first").unwrap();
    assert_eq!(token, "first");
    for t in ["second", "third", "first"] {
        assert!(bridge.deliver(t).is_none());
    }
}

#[test]
fn hand_over_after_receiver_is_gone_returns_token() {
    let (sender, receiver) = oneshot::channel::<String>();
    drop(receiver);
    let mut bridge = ExportBridge::new(sender);
    let handed = bridge.deliver("abcd").unwrap();
    assert_eq!(ExportBridge::hand_over(handed), Err("abcd".to_string()));
    assert!(bridge.deliver("zzzz").is_none());
}
