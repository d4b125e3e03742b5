//! The camera's arbiter and the handle of one of its clients.
//!
//! One camera serves any number of clients. Each client asks by its number;
//! the arbiter takes the requests one by one, reads one fresh frame for each
//! and sends it to the client that asked.

use crate::queue::DeviceError;
use std::sync::mpsc::{Receiver, Sender};
use std::time::Duration;
use vstd::prelude::*;

verus! {

/// Frames that are read and thrown away before the camera is used.
pub const PRIMING_FRAMES: u32 = 5;

/// What the arbiter is waiting for.
#[derive(Debug, Clone, Copy, PartialEq, Eq, Structural)]
pub enum CameraState {
    /// So many frames are still to be read and thrown away.
    Priming(u32),
    /// No request is being served.
    Idle,
    /// A frame is being read for this client.
    Capturing(usize),
}

/// What happened outside the arbiter.
#[derive(Debug, Clone, PartialEq, Eq)]
pub enum CameraEvent {
    /// The device gave this frame.
    Frame(Vec<u8>),
    /// The client of this number asks for a frame.
    Request(usize),
    /// Reading a frame failed.
    Failed(DeviceError),
}

/// What the arbiter's driver is to do next.
#[derive(Debug, Clone, PartialEq, Eq)]
pub enum CameraAction {
    /// Read a frame from the device and report it.
    ReadFrame,
    /// Wait for a request and report it.
    AwaitRequest,
    /// Send this frame to this client, then wait for a request and report
    /// it.
    Deliver { client: usize, frame: Vec<u8> },
    /// Open the device afresh, then read a frame and report it.
    Restart,
}

/// A [`CameraEvent`] in contracts.
pub enum CameraEventView {
    Frame(Seq<u8>),
    Request(usize),
    /// Reading a frame failed; fatally, where the link to the device is
    /// lost.
    Failed { fatal: bool },
}

/// A [`CameraAction`] in contracts.
pub enum CameraActionView {
    ReadFrame,
    AwaitRequest,
    Deliver { client: usize, frame: Seq<u8> },
    Restart,
}

impl View for CameraEvent {
    type V = CameraEventView;

    open spec fn view(&self) -> CameraEventView {
        match self {
            CameraEvent::Frame(bytes) => CameraEventView::Frame(bytes@),
            CameraEvent::Request(client) => CameraEventView::Request(*client),
            CameraEvent::Failed(e) => CameraEventView::Failed { fatal: e.is_fatal_spec() },
        }
    }
}

impl View for CameraAction {
    type V = CameraActionView;

    open spec fn view(&self) -> CameraActionView {
        match self {
            CameraAction::ReadFrame => CameraActionView::ReadFrame,
            CameraAction::AwaitRequest => CameraActionView::AwaitRequest,
            CameraAction::Deliver { client, frame } => CameraActionView::Deliver {
                client: *client,
                frame: frame@,
            },
            CameraAction::Restart => CameraActionView::Restart,
        }
    }
}

/// The state in which the arbiter starts, and by it the first thing to do.
pub open spec fn initial_state() -> CameraState {
    if PRIMING_FRAMES > 0 {
        CameraState::Priming(PRIMING_FRAMES)
    } else {
        CameraState::Idle
    }
}

/// What the driver is to do while the arbiter is in `state` and nothing new
/// happened.
pub open spec fn pending_action(state: CameraState) -> CameraActionView {
    match state {
        CameraState::Priming(_) => CameraActionView::ReadFrame,
        CameraState::Idle => CameraActionView::AwaitRequest,
        CameraState::Capturing(_) => CameraActionView::ReadFrame,
    }
}

/// One step of an arbiter with `clients` clients: the state after `event`
/// and what to do next.
///
/// A frame that comes while priming is thrown away. A request that comes
/// while idle starts a capture for its client, if there is such a client. A
/// frame that comes while capturing goes to the client that is served, and
/// the arbiter is idle again.
///
/// Priming is part of the set-up of the device, and any failure of the
/// set-up is fatal: a read that fails while priming starts the arbiter over,
/// whatever the failure. So does, in any state, a failure that loses the
/// device. A read that fails while capturing and leaves the device in place
/// gives up that capture, whose client gets no frame. Anything else comes
/// out of turn and changes nothing.
pub open spec fn step(clients: usize, state: CameraState, event: CameraEventView) -> (
    CameraState,
    CameraActionView,
) {
    match (state, event) {
        (CameraState::Priming(left), CameraEventView::Frame(_)) => if left > 1 {
            (CameraState::Priming((left - 1) as u32), CameraActionView::ReadFrame)
        } else {
            (CameraState::Idle, CameraActionView::AwaitRequest)
        },
        (CameraState::Idle, CameraEventView::Request(client)) => if client < clients {
            (CameraState::Capturing(client), CameraActionView::ReadFrame)
        } else {
            (CameraState::Idle, CameraActionView::AwaitRequest)
        },
        (CameraState::Capturing(client), CameraEventView::Frame(frame)) => (
            CameraState::Idle,
            CameraActionView::Deliver { client, frame },
        ),
        (CameraState::Priming(_), CameraEventView::Failed { .. }) => (
            initial_state(),
            CameraActionView::Restart,
        ),
        (_, CameraEventView::Failed { fatal: true }) => (
            initial_state(),
            CameraActionView::Restart,
        ),
        (CameraState::Capturing(_), CameraEventView::Failed { fatal: false }) => (
            CameraState::Idle,
            CameraActionView::AwaitRequest,
        ),
        _ => (state, pending_action(state)),
    }
}

/// A read that fails while priming starts the arbiter over, whatever the
/// failure, and asks for no request: the set-up of the camera does not
/// survive a failure.
pub proof fn lemma_failed_priming_starts_over(clients: usize, left: u32, fatal: bool)
    ensures
        step(clients, CameraState::Priming(left), CameraEventView::Failed { fatal }) == (
            initial_state(),
            CameraActionView::Restart,
        ),
{
}

/// The deliveries of an arbiter that is in `state` and whose driver is about
/// to do `action`, when the clients' requests arrive in the order of
/// `requests` and the device gives the frames of `frames`, until either
/// runs out. Each delivery is a client and the frame sent to it.
pub open spec fn deliveries(
    clients: usize,
    state: CameraState,
    action: CameraActionView,
    requests: Seq<usize>,
    frames: Seq<Seq<u8>>,
) -> Seq<(usize, Seq<u8>)>
    decreases requests.len() + frames.len(), (if action is Deliver { 1nat } else { 0nat }),
{
    match action {
        CameraActionView::ReadFrame | CameraActionView::Restart => if frames.len() == 0 {
            Seq::empty()
        } else {
            let (next, then) = step(clients, state, CameraEventView::Frame(frames[0]));
            deliveries(clients, next, then, requests, frames.drop_first())
        },
        CameraActionView::AwaitRequest => if requests.len() == 0 {
            Seq::empty()
        } else {
            let (next, then) = step(clients, state, CameraEventView::Request(requests[0]));
            deliveries(clients, next, then, requests.drop_first(), frames)
        },
        CameraActionView::Deliver { client, frame } => seq![(client, frame)] + deliveries(
            clients,
            state,
            CameraActionView::AwaitRequest,
            requests,
            frames,
        ),
    }
}

/// An idle arbiter answers each request with the next frame of the device.
pub proof fn lemma_idle_serves_in_order(
    clients: usize,
    requests: Seq<usize>,
    frames: Seq<Seq<u8>>,
)
    requires
        forall|i: int| 0 <= i < requests.len() ==> requests[i] < clients,
        frames.len() >= requests.len(),
    ensures
        deliveries(clients, CameraState::Idle, CameraActionView::AwaitRequest, requests, frames)
            == Seq::new(requests.len(), |i: int| (requests[i], frames[i])),
    decreases requests.len(),
{
    let all = deliveries(
        clients,
        CameraState::Idle,
        CameraActionView::AwaitRequest,
        requests,
        frames,
    );
    let want = Seq::new(requests.len(), |i: int| (requests[i], frames[i]));
    if requests.len() == 0 {
        assert(all == want);
    } else {
        let client = requests[0];
        let rest_requests = requests.drop_first();
        let rest_frames = frames.drop_first();
        lemma_idle_serves_in_order(clients, rest_requests, rest_frames);
        let tail = deliveries(
            clients,
            CameraState::Idle,
            CameraActionView::AwaitRequest,
            rest_requests,
            rest_frames,
        );
        assert(step(clients, CameraState::Idle, CameraEventView::Request(client)) == (
            CameraState::Capturing(client),
            CameraActionView::ReadFrame,
        ));
        assert(all == deliveries(
            clients,
            CameraState::Capturing(client),
            CameraActionView::ReadFrame,
            rest_requests,
            frames,
        ));
        assert(step(clients, CameraState::Capturing(client), CameraEventView::Frame(frames[0]))
            == (CameraState::Idle, CameraActionView::Deliver { client, frame: frames[0] }));
        assert(deliveries(
            clients,
            CameraState::Capturing(client),
            CameraActionView::ReadFrame,
            rest_requests,
            frames,
        ) == deliveries(
            clients,
            CameraState::Idle,
            CameraActionView::Deliver { client, frame: frames[0] },
            rest_requests,
            rest_frames,
        ));
        assert(all == seq![(client, frames[0])] + tail);
        assert(all =~= want);
    }
}

/// A priming arbiter throws away as many frames as it still has to, and
/// then serves as an idle one does.
pub proof fn lemma_priming_discards(
    clients: usize,
    left: u32,
    requests: Seq<usize>,
    frames: Seq<Seq<u8>>,
)
    requires
        0 < left <= frames.len(),
    ensures
        deliveries(
            clients,
            CameraState::Priming(left),
            CameraActionView::ReadFrame,
            requests,
            frames,
        ) == deliveries(
            clients,
            CameraState::Idle,
            CameraActionView::AwaitRequest,
            requests,
            frames.skip(left as int),
        ),
    decreases left,
{
    if left > 1 {
        lemma_priming_discards(clients, (left - 1) as u32, requests, frames.drop_first());
        assert(frames.drop_first().skip(left - 1) == frames.skip(left as int));
    } else {
        assert(frames.drop_first() == frames.skip(1));
    }
}

/// Every request is answered by exactly one frame, sent to the client that
/// asked, in the order of the requests: the arbiter, started afresh, delivers
/// to the client of the `i`-th request the `i`-th frame that the device gives
/// after priming, and delivers nothing else.
pub proof fn lemma_one_frame_per_request(
    clients: usize,
    requests: Seq<usize>,
    frames: Seq<Seq<u8>>,
)
    requires
        forall|i: int| 0 <= i < requests.len() ==> requests[i] < clients,
        frames.len() >= PRIMING_FRAMES + requests.len(),
    ensures
        deliveries(clients, initial_state(), pending_action(initial_state()), requests, frames)
            == Seq::new(requests.len(), |i: int| (requests[i], frames[PRIMING_FRAMES + i])),
{
    lemma_priming_discards(clients, PRIMING_FRAMES, requests, frames);
    lemma_idle_serves_in_order(clients, requests, frames.skip(PRIMING_FRAMES as int));
    assert(Seq::new(
        requests.len(),
        |i: int| (requests[i], frames.skip(PRIMING_FRAMES as int)[i]),
    ) =~= Seq::new(requests.len(), |i: int| (requests[i], frames[PRIMING_FRAMES + i])));
}

/// The arbiter of the camera: it owns the camera's state and knows how many
/// clients there are.
#[derive(Debug, Clone, Copy, PartialEq, Eq)]
pub struct CameraHandler {
    clients: usize,
    state: CameraState,
}

impl CameraHandler {
    /// The number of clients.
    pub closed spec fn clients_spec(&self) -> usize {
        self.clients
    }

    /// What the arbiter is waiting for.
    pub closed spec fn state_spec(&self) -> CameraState {
        self.state
    }

    /// An arbiter for `clients` clients, numbered from zero, that has yet to
    /// prime the camera.
    pub fn new(clients: usize) -> (r: CameraHandler)
        ensures
            r.clients_spec() == clients,
            r.state_spec() == initial_state(),
    {
        CameraHandler { clients, state: CameraState::Priming(PRIMING_FRAMES) }
    }

    /// The number of clients.
    pub fn clients(&self) -> (n: usize)
        ensures
            n == self.clients_spec(),
    {
        self.clients
    }

    /// What the arbiter is waiting for.
    pub fn state(&self) -> (s: CameraState)
        ensures
            s == self.state_spec(),
    {
        self.state
    }

    /// What the driver is to do now, before anything new happened.
    pub fn pending(&self) -> (action: CameraAction)
        ensures
            action@ == pending_action(self.state_spec()),
    {
        match self.state {
            CameraState::Priming(_) => CameraAction::ReadFrame,
            CameraState::Idle => CameraAction::AwaitRequest,
            CameraState::Capturing(_) => CameraAction::ReadFrame,
        }
    }

    /// Takes in what happened and says what to do next.
    pub fn handle(&mut self, event: CameraEvent) -> (action: CameraAction)
        ensures
            final(self).clients_spec() == old(self).clients_spec(),
            (final(self).state_spec(), action@) == step(
                old(self).clients_spec(),
                old(self).state_spec(),
                event@,
            ),
    {
        match (self.state, event) {
            (CameraState::Priming(left), CameraEvent::Frame(_)) => {
                if left > 1 {
                    self.state = CameraState::Priming(left - 1);
                    CameraAction::ReadFrame
                } else {
                    self.state = CameraState::Idle;
                    CameraAction::AwaitRequest
                }
            },
            (CameraState::Idle, CameraEvent::Request(client)) => {
                if client < self.clients {
                    self.state = CameraState::Capturing(client);
                    CameraAction::ReadFrame
                } else {
                    CameraAction::AwaitRequest
                }
            },
            (CameraState::Capturing(client), CameraEvent::Frame(frame)) => {
                self.state = CameraState::Idle;
                CameraAction::Deliver { client, frame }
            },
            (state, CameraEvent::Failed(e)) => {
                let fatal = e.is_fatal();
                match state {
                    CameraState::Priming(_) => {
                        self.state = CameraState::Priming(PRIMING_FRAMES);
                        CameraAction::Restart
                    },
                    CameraState::Capturing(_) => {
                        if fatal {
                            self.state = CameraState::Priming(PRIMING_FRAMES);
                            CameraAction::Restart
                        } else {
                            self.state = CameraState::Idle;
                            CameraAction::AwaitRequest
                        }
                    },
                    CameraState::Idle => {
                        if fatal {
                            self.state = CameraState::Priming(PRIMING_FRAMES);
                            CameraAction::Restart
                        } else {
                            CameraAction::AwaitRequest
                        }
                    },
                }
            },
            _ => self.pending(),
        }
    }
}

/// The sending end of a channel of std, `std::sync::mpsc::Sender`, carried
/// as it is: nothing is stated of what it holds.
#[verifier::external_type_specification]
#[verifier::external_body]
#[verifier::reject_recursive_types(T)]
pub struct ExSender<T>(std::sync::mpsc::Sender<T>);

/// The receiving end of a channel of std, `std::sync::mpsc::Receiver`,
/// carried as it is: nothing is stated of what it holds.
#[verifier::external_type_specification]
#[verifier::external_body]
#[verifier::reject_recursive_types(T)]
pub struct ExReceiver<T>(std::sync::mpsc::Receiver<T>);

/// How the wait for an answer ended.
#[derive(Debug, Clone, PartialEq, Eq)]
pub enum Reply {
    /// The arbiter sent this frame.
    Frame(Vec<u8>),
    /// Nothing came in time.
    TimedOut,
    /// The arbiter is gone.
    Disconnected,
}

/// Sends a client's number on the request channel with std's
/// `Sender::send`, and says whether the channel took it. Nothing is stated of
/// the outcome: it depends on whether the receiving end still exists.
#[verifier::external_body]
fn send_request(sender: &Sender<usize>, id: usize) -> (sent: bool) {
    sender.send(id).is_ok()
}

/// Waits for a frame on the response channel with std's
/// `Receiver::recv_timeout`. Nothing is stated of the outcome: it depends on
/// what the other end of the channel does in that time.
#[verifier::external_body]
fn await_reply(recv: &Receiver<Vec<u8>>, timeout: Duration) -> (reply: Reply) {
    match recv.recv_timeout(timeout) {
        Ok(frame) => Reply::Frame(frame),
        Err(std::sync::mpsc::RecvTimeoutError::Timeout) => Reply::TimedOut,
        Err(std::sync::mpsc::RecvTimeoutError::Disconnected) => Reply::Disconnected,
    }
}

/// The frame that a capture gives for a reply: the frame that came, and no
/// frame where none came, which is no error.
pub fn frame_of(reply: Reply) -> (frame: Option<Vec<u8>>)
    ensures
        frame == match reply {
            Reply::Frame(bytes) => Some(bytes),
            Reply::TimedOut => None,
            Reply::Disconnected => None,
        },
{
    match reply {
        Reply::Frame(bytes) => Some(bytes),
        Reply::TimedOut => None,
        Reply::Disconnected => None,
    }
}

/// The handle by which one client talks to the arbiter: the shared channel
/// of requests, the client's own channel of frames, and the client's number.
pub struct CameraClient {
    pub recv: Receiver<Vec<u8>>,
    pub sender: Sender<usize>,
    pub id: usize,
}

impl CameraClient {
    /// Asks the arbiter for a frame and waits for it no longer than
    /// `timeout`. There is no frame where the request could not be sent or no
    /// answer came in time.
    pub fn capture(&self, timeout: Duration) -> (frame: Option<Vec<u8>>) {
        if !send_request(&self.sender, self.id) {
            return None;
        }
        frame_of(await_reply(&self.recv, timeout))
    }
}

} // verus!
