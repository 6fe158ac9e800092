//! Discipline of the single backend connection.
//!
//! Requests and replies on the backend connection carry no identifier: a reply
//! belongs to the request written just before it. [`BackendLink`] is the
//! bookkeeping of that connection. A request may be written only while no
//! other is waiting for its reply, a reply is taken only for the request that
//! waits, and once an exchange has been cut short the connection is never used
//! again, since the pairing of what comes next is lost.
use vstd::prelude::*;

use crate::message::data_server as ds;

verus! {

/// The kind of a backend exchange.
#[derive(Clone, Copy, Debug, PartialEq, Eq)]
pub enum Kind {
    Load,
    Store,
}

/// One event on the backend connection, as the backend sees it.
pub enum Traffic {
    Sent(Kind),
    Received(Kind),
}

/// Where the connection stands between exchanges.
#[derive(Clone, Copy, Debug, PartialEq, Eq)]
pub enum LinkState {
    Idle,
    Awaiting(Kind),
    Broken,
}

#[derive(Clone, Copy, Debug, PartialEq, Eq)]
pub enum TransportError {
    /// An earlier exchange was cut short: the connection is unusable.
    Broken,
    /// A request was begun while another waited, or a reply came with none waiting.
    OutOfTurn,
    /// The bytes read back are not one whole frame.
    MalformedFrame,
}

/// The bookkeeping of the backend connection.
pub struct BackendLink {
    state: LinkState,
    traffic: Ghost<Seq<Traffic>>,
}

pub open spec fn kind_of(request: ds::Request) -> Kind {
    match request {
        ds::Request::Load(_) => Kind::Load,
        ds::Request::Store(_) => Kind::Store,
    }
}

/// The reply that answers a sent request.
pub open spec fn reply_to(t: Traffic) -> Traffic {
    match t {
        Traffic::Sent(k) => Traffic::Received(k),
        Traffic::Received(k) => Traffic::Received(k),
    }
}

/// The backend sees requests one at a time: the traffic is a run of
/// exchanges, each a request followed by its reply, and the reply is read
/// before the next request is written.
pub open spec fn serialized(t: Seq<Traffic>) -> bool {
    &&& forall|j: int| #![trigger t[2 * j]] 0 <= j && 2 * j < t.len() ==> t[2 * j] is Sent
    &&& forall|j: int|
        #![trigger t[2 * j + 1]]
        0 <= j && 2 * j + 1 < t.len() ==> t[2 * j + 1] == reply_to(t[2 * j])
}

/// A frame read back from the backend: bytes that end with the delimiter 0
/// and hold it nowhere else.
pub open spec fn whole_frame(bytes: Seq<u8>) -> bool {
    &&& bytes.len() > 0
    &&& bytes.last() == 0
    &&& forall|i: int| 0 <= i < bytes.len() - 1 ==> bytes[i] != 0
}

/// Whether `bytes` are one whole frame.
pub fn is_whole_frame(bytes: &Vec<u8>) -> (r: bool)
    ensures
        r == whole_frame(bytes@),
{
    let n = bytes.len();
    if n == 0 {
        return false;
    }
    let mut i: usize = 0;
    while i < n - 1
        invariant
            n == bytes@.len(),
            n > 0,
            i <= n - 1,
            forall|j: int| 0 <= j < i ==> bytes@[j] != 0,
        decreases n - 1 - i,
    {
        if bytes[i] == 0 {
            return false;
        }
        i = i + 1;
    }
    bytes[n - 1] == 0
}

/// The kind of exchange that `request` opens.
pub fn request_kind(request: &ds::Request) -> (r: Kind)
    ensures
        r == kind_of(*request),
{
    match request {
        ds::Request::Load(_) => Kind::Load,
        ds::Request::Store(_) => Kind::Store,
    }
}

/// Extending serialized traffic by the event whose turn it is keeps it serialized.
proof fn lemma_push_serialized(t: Seq<Traffic>, x: Traffic)
    requires
        serialized(t),
        t.len() % 2 == 0 ==> x is Sent,
        t.len() % 2 == 1 ==> x == reply_to(t.last()),
    ensures
        serialized(t.push(x)),
{
    let nt = t.push(x);
    assert forall|j: int| 0 <= j && 2 * j < nt.len() implies #[trigger] nt[2 * j] is Sent by {
        if 2 * j < t.len() {
            assert(nt[2 * j] == t[2 * j]);
        }
    }
    assert forall|j: int| 0 <= j && 2 * j + 1 < nt.len() implies #[trigger] nt[2 * j + 1]
        == reply_to(nt[2 * j]) by {
        assert(nt[2 * j] == t[2 * j]);
        if 2 * j + 1 < t.len() {
            assert(nt[2 * j + 1] == t[2 * j + 1]);
        }
    }
}

impl BackendLink {
    pub closed spec fn link_state(&self) -> LinkState {
        self.state
    }

    /// Everything that went over the connection, in order.
    pub closed spec fn traffic(&self) -> Seq<Traffic> {
        self.traffic@
    }

    pub open spec fn wf(&self) -> bool {
        &&& serialized(self.traffic())
        &&& match self.link_state() {
            LinkState::Idle => self.traffic().len() % 2 == 0,
            LinkState::Awaiting(k) => self.traffic().len() % 2 == 1 && self.traffic().last()
                == Traffic::Sent(k),
            LinkState::Broken => true,
        }
    }

    /// A freshly opened connection.
    pub fn new() -> (r: Self)
        ensures
            r.wf(),
            r.link_state() == LinkState::Idle,
            r.traffic() == Seq::<Traffic>::empty(),
    {
        BackendLink { state: LinkState::Idle, traffic: Ghost(Seq::empty()) }
    }

    pub fn state(&self) -> (r: LinkState)
        ensures
            r == self.link_state(),
    {
        self.state
    }

    /// Takes the turn to write `request`. Granted only while nothing waits; a
    /// request begun while another waits breaks the connection.
    pub fn begin(&mut self, request: &ds::Request) -> (r: Result<(), TransportError>)
        requires
            old(self).wf(),
        ensures
            final(self).wf(),
            match old(self).link_state() {
                LinkState::Idle => {
                    &&& r == Ok::<(), TransportError>(())
                    &&& final(self).link_state() == LinkState::Awaiting(kind_of(*request))
                    &&& final(self).traffic() == old(self).traffic().push(
                        Traffic::Sent(kind_of(*request)),
                    )
                },
                LinkState::Awaiting(_) => {
                    &&& r == Err::<(), TransportError>(TransportError::OutOfTurn)
                    &&& final(self).link_state() == LinkState::Broken
                    &&& final(self).traffic() == old(self).traffic()
                },
                LinkState::Broken => {
                    &&& r == Err::<(), TransportError>(TransportError::Broken)
                    &&& final(self).link_state() == LinkState::Broken
                    &&& final(self).traffic() == old(self).traffic()
                },
            },
    {
        match self.state {
            LinkState::Idle => {
                let kind = request_kind(request);
                let ghost t = self.traffic@;
                let ghost nt = t.push(Traffic::Sent(kind));
                proof {
                    lemma_push_serialized(t, Traffic::Sent(kind));
                }
                self.traffic = Ghost(nt);
                self.state = LinkState::Awaiting(kind);
                Ok(())
            },
            LinkState::Awaiting(_) => {
                self.state = LinkState::Broken;
                Err(TransportError::OutOfTurn)
            },
            LinkState::Broken => Err(TransportError::Broken),
        }
    }

    /// Takes `frame`, read back from the connection, as the reply to the
    /// request that waits, and gives that request's kind. Bytes that are not
    /// one whole frame, or a reply with no request waiting, break the
    /// connection.
    pub fn finish(&mut self, frame: &Vec<u8>) -> (r: Result<Kind, TransportError>)
        requires
            old(self).wf(),
        ensures
            final(self).wf(),
            match old(self).link_state() {
                LinkState::Awaiting(k) => if whole_frame(frame@) {
                    &&& r == Ok::<Kind, TransportError>(k)
                    &&& final(self).link_state() == LinkState::Idle
                    &&& final(self).traffic() == old(self).traffic().push(Traffic::Received(k))
                } else {
                    &&& r == Err::<Kind, TransportError>(TransportError::MalformedFrame)
                    &&& final(self).link_state() == LinkState::Broken
                    &&& final(self).traffic() == old(self).traffic()
                },
                LinkState::Idle => {
                    &&& r == Err::<Kind, TransportError>(TransportError::OutOfTurn)
                    &&& final(self).link_state() == LinkState::Broken
                    &&& final(self).traffic() == old(self).traffic()
                },
                LinkState::Broken => {
                    &&& r == Err::<Kind, TransportError>(TransportError::Broken)
                    &&& final(self).link_state() == LinkState::Broken
                    &&& final(self).traffic() == old(self).traffic()
                },
            },
    {
        match self.state {
            LinkState::Awaiting(kind) => {
                if is_whole_frame(frame) {
                    let ghost t = self.traffic@;
                    let ghost nt = t.push(Traffic::Received(kind));
                    proof {
                        lemma_push_serialized(t, Traffic::Received(kind));
                    }
                    self.traffic = Ghost(nt);
                    self.state = LinkState::Idle;
                    Ok(kind)
                } else {
                    self.state = LinkState::Broken;
                    Err(TransportError::MalformedFrame)
                }
            },
            LinkState::Idle => {
                self.state = LinkState::Broken;
                Err(TransportError::OutOfTurn)
            },
            LinkState::Broken => Err(TransportError::Broken),
        }
    }

    /// Records that an exchange was cut short by a failure of the connection.
    pub fn fail(&mut self)
        requires
            old(self).wf(),
        ensures
            final(self).wf(),
            final(self).link_state() == LinkState::Broken,
            final(self).traffic() == old(self).traffic(),
    {
        self.state = LinkState::Broken;
    }
}

/// Whatever the callers do with a well-formed link, the backend observes its
/// requests one at a time: every exchange opens with a request, its reply is
/// of the request's kind, and no request is ever written while another waits
/// for its reply.
pub proof fn lemma_backend_serialized(link: BackendLink)
    requires
        link.wf(),
    ensures
        forall|j: int|
            0 <= j && 2 * j < link.traffic().len() ==> #[trigger] link.traffic()[2 * j] is Sent,
        forall|j: int|
            0 <= j && 2 * j + 1 < link.traffic().len() ==> #[trigger] link.traffic()[2 * j + 1]
                == reply_to(link.traffic()[2 * j]),
        forall|i: int|
            0 <= i && i + 1 < link.traffic().len() ==> !(#[trigger] link.traffic()[i] is Sent
                && link.traffic()[i + 1] is Sent),
{
    let t = link.traffic();
    assert forall|i: int| 0 <= i && i + 1 < t.len() implies !(#[trigger] t[i] is Sent && t[i
        + 1] is Sent) by {
        let j = i / 2;
        if i % 2 == 0 {
            assert(i == 2 * j);
            assert(t[2 * j + 1] == reply_to(t[2 * j]));
        } else {
            assert(i == 2 * j + 1);
            assert(t[2 * j + 1] == reply_to(t[2 * j]));
        }
    }
}

} // verus!
