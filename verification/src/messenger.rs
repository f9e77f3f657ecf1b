use vstd::prelude::*;

use vstd::slice::slice_to_vec;

use core::cell::RefCell;
use std::rc::Rc;
use std::rc::Weak;

verus! {

/// A message handed to the transport: where it goes, which method it names,
/// and the already-encoded argument bytes. `expects_response` tells the
/// transport whether a reply callback was registered for it.
pub struct SentMessage {
    pub path: String,
    pub method: String,
    pub payload: Vec<u8>,
    pub expects_response: bool,
}

impl SentMessage {
    /// An outgoing message addressed to `(path, method)`, carrying exactly
    /// `data`, marked by whether a reply callback will be registered for it.
    pub fn new(path: &str, method: &str, data: &[u8], expects_response: bool) -> (m: SentMessage)
        ensures
            m.path@ == path@,
            m.method@ == method@,
            m.payload@ == data@,
            m.expects_response == expects_response,
    {
        SentMessage {
            path: path.to_owned(),
            method: method.to_owned(),
            payload: slice_to_vec(data),
            expects_response,
        }
    }
}

/// A transport-level submission failure, mapped by the node layer to
/// `NodeError::MessengerWrite` (or `ServerCreationFailed` on a creation call).
#[derive(Clone, Copy, Debug, PartialEq, Eq, Structural)]
pub enum TransportError {
    WriteFailed,
}

/// The state behind the channel: the outgoing queue and the outstanding
/// reply callbacks, oldest first. Kept opaque: the callbacks are arbitrary
/// closures, and the state is shared through the owner and the handles.
#[verifier::external_body]
struct MessengerState {
    sent: Vec<SentMessage>,
    pending: Vec<Box<dyn Fn(Vec<u8>)>>,
}

/// The channel to the remote side. It queues outgoing messages and holds the
/// reply callbacks of outstanding method calls; the surrounding program
/// drains the queue into its transport and feeds replies back in. It is owned
/// by exactly one `Client`; nodes reach it only through weak handles, so its
/// liveness is re-checked on every remote operation.
#[verifier::external_body]
pub struct Messenger {
    state: Rc<RefCell<MessengerState>>,
}

/// A non-owning handle to a `Messenger`, held by every node. Resolving it
/// fails once the messenger's owner has released it.
#[verifier::external_body]
pub struct MessengerHandle {
    state: Weak<RefCell<MessengerState>>,
}

/// A resolved, usable reference to the messenger, valid for one operation;
/// it is not cached across calls.
#[verifier::external_body]
pub struct ResolvedMessenger {
    state: Rc<RefCell<MessengerState>>,
}

impl Messenger {
    /// Relies on std's Rc::new and RefCell::new to hold the channel state.
    #[verifier::external_body]
    pub fn new() -> (r: Messenger) {
        Messenger {
            state: Rc::new(
                RefCell::new(MessengerState { sent: Vec::new(), pending: Vec::new() }),
            ),
        }
    }

    /// Relies on std's Rc::downgrade: yields a non-owning handle to the same
    /// channel.
    #[verifier::external_body]
    pub fn downgrade(&self) -> (r: MessengerHandle) {
        MessengerHandle { state: Rc::downgrade(&self.state) }
    }

    /// Relies on std's RefCell::borrow_mut and Vec::drain: hands out the
    /// messages queued so far, oldest first, and leaves the queue empty.
    #[verifier::external_body]
    pub fn take_sent(&mut self) -> (r: Vec<SentMessage>) {
        self.state.borrow_mut().sent.drain(..).collect()
    }

    /// Relies on std's RefCell::borrow_mut and Vec::remove: takes the oldest
    /// outstanding reply callback, if any, and invokes it once with exactly
    /// `data`; returns whether one was outstanding.
    #[verifier::external_body]
    pub fn respond_next(&mut self, data: &[u8]) -> (r: bool) {
        let callback = {
            let mut state = self.state.borrow_mut();
            if state.pending.is_empty() {
                return false;
            }
            state.pending.remove(0)
        };
        callback(data.to_vec());
        true
    }
}

impl MessengerHandle {
    /// Relies on std's Weak::upgrade: `Some` exactly while the owning
    /// messenger is still alive.
    #[verifier::external_body]
    pub fn upgrade(&self) -> (r: Option<ResolvedMessenger>) {
        self.state.upgrade().map(|state| ResolvedMessenger { state })
    }
}

impl ResolvedMessenger {
    /// Relies on std's RefCell::borrow_mut and Vec::push: queues the given
    /// one-way message as it stands. The in-memory queue cannot fail to
    /// accept it, but a transport may; the error is part of the signature so
    /// that callers map it.
    #[verifier::external_body]
    pub fn submit_signal(&self, message: SentMessage) -> (r: Result<(), TransportError>)
        requires
            !message.expects_response,
    {
        self.state.borrow_mut().sent.push(message);
        Ok(())
    }

    /// Relies on std's RefCell::borrow_mut and Vec::push: queues the given
    /// request as it stands, and registers `callback` to be invoked once,
    /// with the raw reply bytes, when the reply is fed back in. Submission
    /// itself returns at once.
    #[verifier::external_body]
    pub fn submit_request<F: Fn(&[u8]) + 'static>(&self, message: SentMessage, callback: F) -> (r:
        Result<(), TransportError>)
        requires
            message.expects_response,
    {
        let mut state = self.state.borrow_mut();
        state.sent.push(message);
        state.pending.push(Box::new(move |v: Vec<u8>| callback(v.as_slice())));
        Ok(())
    }
}

/// The long-lived owner of the messenger. Releasing the client (dropping it)
/// releases the channel: every handle a node still holds then fails to
/// resolve, and remote operations on those nodes fail with
/// `InvalidMessenger`.
pub struct Client {
    messenger: Messenger,
}

impl Client {
    /// A fresh client owning a fresh, empty channel.
    pub fn new() -> Client {
        Client { messenger: Messenger::new() }
    }

    /// The non-owning handle that nodes store.
    pub fn get_weak_messenger(&self) -> MessengerHandle {
        self.messenger.downgrade()
    }

    /// The messages queued so far, oldest first; the queue is left empty.
    pub fn take_sent_messages(&mut self) -> Vec<SentMessage> {
        self.messenger.take_sent()
    }

    /// Feeds the raw bytes of a reply to the oldest outstanding method call;
    /// its callback is invoked exactly once, now. Returns whether a call was
    /// outstanding.
    pub fn respond_next(&mut self, data: &[u8]) -> bool {
        self.messenger.respond_next(data)
    }
}

} // verus!
