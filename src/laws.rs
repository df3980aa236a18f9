//! Properties that relate several operations of the library.
use vstd::prelude::*;
use futures::channel::oneshot::Sender;
use crate::backend::DisplayKind;
use crate::bridge::{delivery_step, ExportBridge};
use crate::guard::ReleaseHandle;
use crate::handle::{
    decimal, decimal_value, is_digit, lemma_decimal_reads_back, wayland_prefix, x11_prefix,
};
use crate::identifier::{release_step, resolution_binds, resolved_handle, WindowIdentifier};

verus! {

/// An X11 window resolves to `x11:` followed by a non-empty run of decimal
/// digits that reads back as the window's XID, and nothing is kept to release.
pub proof fn lemma_x11_resolution(xid: u64, token: Option<Seq<char>>)
    ensures
        resolved_handle(DisplayKind::X11, Some(xid), token) matches Some(h) && h.len()
            > x11_prefix().len() && h.subrange(0, x11_prefix().len() as int) == x11_prefix() && ({
            let digits = h.subrange(x11_prefix().len() as int, h.len() as int);
            &&& forall|i: int| 0 <= i < digits.len() ==> is_digit(#[trigger] digits[i])
            &&& decimal_value(digits) == xid as nat
        }),
        !resolution_binds(DisplayKind::X11, token),
{
    lemma_decimal_reads_back(xid as nat);
    let h = x11_prefix() + decimal(xid as nat);
    assert(h.subrange(0, x11_prefix().len() as int) =~= x11_prefix());
    assert(h.subrange(x11_prefix().len() as int, h.len() as int) =~= decimal(xid as nat));
}

/// A Wayland export resolves to `wayland:` followed by exactly the token the
/// compositor handed out, and the window is kept to release the export.
pub proof fn lemma_wayland_resolution(xid: Option<u64>, token: Seq<char>)
    ensures
        resolved_handle(DisplayKind::Wayland, xid, Some(token)) matches Some(h) && h.subrange(
            0,
            wayland_prefix().len() as int,
        ) == wayland_prefix() && h.subrange(wayland_prefix().len() as int, h.len() as int)
            == token,
        resolution_binds(DisplayKind::Wayland, Some(token)),
{
    let h = wayland_prefix() + token;
    assert(h.subrange(0, wayland_prefix().len() as int) =~= wayland_prefix());
    assert(h.subrange(wayland_prefix().len() as int, h.len() as int) =~= token);
}

/// An unsupported backend always resolves to the unset identifier.
pub proof fn lemma_unsupported_resolution(xid: Option<u64>, token: Option<Seq<char>>)
    ensures
        resolved_handle(DisplayKind::Unsupported, xid, token) is None,
        !resolution_binds(DisplayKind::Unsupported, token),
{
}

/// A Wayland export abandoned before the compositor's token came resolves to
/// the unset identifier, which keeps no window and so releases nothing.
pub proof fn lemma_abandoned_export(xid: Option<u64>)
    ensures
        resolved_handle(DisplayKind::Wayland, xid, None) is None,
        !resolution_binds(DisplayKind::Wayland, None),
{
}

/// Of two releases in a row, only the first can release, and it does exactly
/// when the identifier is bound and still owes one; an unbound identifier
/// never releases. The handle is kept throughout.
pub proof fn lemma_release_once<W: ReleaseHandle>(
    first: WindowIdentifier<W>,
    second: WindowIdentifier<W>,
    third: WindowIdentifier<W>,
    released_first: bool,
    released_second: bool,
)
    requires
        release_step(first, second, released_first),
        release_step(second, third, released_second),
    ensures
        released_first == first.owes_release(),
        !first.is_bound_spec() ==> !released_first,
        !released_second,
        third.handle_view() == first.handle_view(),
{
}

/// Of two tokens offered to a fresh bridge, the first is handed out with the
/// bridge's sender, verbatim, and the second is ignored.
pub proof fn lemma_first_delivery_wins(
    fresh: ExportBridge,
    once: ExportBridge,
    twice: ExportBridge,
    first: Seq<char>,
    second: Seq<char>,
    handed_first: Option<(Sender<String>, String)>,
    handed_second: Option<(Sender<String>, String)>,
)
    requires
        fresh.is_open(),
        delivery_step(fresh, once, first, handed_first),
        delivery_step(once, twice, second, handed_second),
    ensures
        handed_first matches Some(p) && Some(p.0) == fresh.sender() && p.1@ == first,
        handed_second is None,
{
}

/// Once a bridge has accepted a token, every later offer is ignored, however
/// many come.
pub proof fn lemma_closed_bridge_ignores(
    closed: ExportBridge,
    after: ExportBridge,
    token: Seq<char>,
    handed: Option<(Sender<String>, String)>,
)
    requires
        !closed.is_open(),
        delivery_step(closed, after, token, handed),
    ensures
        handed is None,
        !after.is_open(),
{
}

} // verus!
