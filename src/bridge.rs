//! The single-delivery bridge between the compositor's export callback and
//! the task that waits for the exported handle.
//!
//! The compositor is not trusted to call back exactly once: the first token
//! goes into the one-shot channel and any later one is ignored.
use vstd::prelude::*;
use futures::channel::oneshot::Sender;

verus! {

#[verifier::external_type_specification]
#[verifier::external_body]
#[verifier::reject_recursive_types(T)]
pub struct ExSender<T>(Sender<T>);

/// Relies on `futures::channel::oneshot::Sender::send`: it consumes the
/// sender, and when the receiving end is gone it hands the value back
/// unchanged in `Err`.
#[verifier::external_body]
fn send_token(sender: Sender<String>, token: String) -> (r: Result<(), String>)
    ensures
        r matches Err(t) ==> t == token,
{
    sender.send(token)
}

/// Accepts the first token that the compositor hands out, to be passed to the
/// waiting task; later tokens are ignored.
pub struct ExportBridge {
    sender: Option<Sender<String>>,
}

/// What one offer of `token` does to a bridge: exactly when the bridge is
/// still open, the offer is accepted and hands out the bridge's sender with
/// the token, verbatim; afterwards the bridge is closed.
pub open spec fn delivery_step(
    before: ExportBridge,
    after: ExportBridge,
    token: Seq<char>,
    handed: Option<(Sender<String>, String)>,
) -> bool {
    &&& handed is Some <==> before.is_open()
    &&& !after.is_open()
    &&& handed matches Some(p) ==> Some(p.0) == before.sender() && p.1@ == token
}

impl ExportBridge {
    /// The sender that the next accepted token goes to, while open.
    pub closed spec fn sender(&self) -> Option<Sender<String>> {
        self.sender
    }

    /// Whether no token has been accepted yet.
    pub open spec fn is_open(&self) -> bool {
        self.sender() is Some
    }

    /// A bridge that will pass the first token it is given to `sender`.
    pub fn new(sender: Sender<String>) -> (r: Self)
        ensures
            r.sender() == Some(sender),
    {
        ExportBridge { sender: Some(sender) }
    }

    /// Whether no token has been accepted yet.
    pub fn open(&self) -> (r: bool)
        ensures
            r == self.is_open(),
    {
        self.sender.is_some()
    }

    /// Offers a token from the compositor. The first offer is accepted: it
    /// hands out the bridge's sender together with the token, to be passed on
    /// with [`ExportBridge::hand_over`]. Every later offer is ignored and
    /// hands out nothing.
    pub fn deliver(&mut self, token: &str) -> (r: Option<(Sender<String>, String)>)
        ensures
            delivery_step(*old(self), *final(self), token@, r),
    {
        match self.sender.take() {
            Some(sender) => Some((sender, token.to_owned())),
            None => None,
        }
    }

    /// Sends an accepted token through its sender to the waiting task. When
    /// that task is gone, the token comes back in `Err`.
    pub fn hand_over(handed: (Sender<String>, String)) -> (r: Result<(), String>)
        ensures
            r matches Err(t) ==> t == handed.1,
    {
        let (sender, token) = handed;
        send_token(sender, token)
    }
}

} // verus!
