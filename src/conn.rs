use crate::error::LinkError;
use vstd::prelude::*;

verus! {

/// Number of discovery rounds tried before a connect fails.
pub const MAX_DISCOVERY_ROUNDS: u32 = 5;

/// The connection state as plain values.
pub struct ConnView {
    pub peer_name: Seq<char>,
    pub peer_address: Seq<char>,
    pub connecting: bool,
    pub connected: bool,
    pub disconnecting: bool,
    pub reconnect_enabled: bool,
}

/// The state at process start: all flags false, both strings empty.
pub open spec fn initial_view() -> ConnView {
    ConnView {
        peer_name: Seq::empty(),
        peer_address: Seq::empty(),
        connecting: false,
        connected: false,
        disconnecting: false,
        reconnect_enabled: false,
    }
}

/// A connect attempt is already running or the link is up.
pub open spec fn connect_guarded(v: ConnView) -> bool {
    v.connecting || v.connected
}

/// The state after a connect request for `name`.
pub open spec fn after_begin_connect(v: ConnView, name: Seq<char>) -> ConnView {
    if connect_guarded(v) {
        v
    } else {
        ConnView { connecting: true, peer_name: name, ..v }
    }
}

/// The state after an automatic reconnect request.
pub open spec fn after_begin_reconnect(v: ConnView) -> ConnView {
    if v.reconnect_enabled {
        after_begin_connect(v, v.peer_name)
    } else {
        v
    }
}

/// Discovery round `round` (counted from 0) has ended with `found`.
pub open spec fn after_discovery_round(v: ConnView, round: nat, found: Option<Seq<char>>) -> ConnView {
    match found {
        Some(a) => ConnView { peer_address: a, ..v },
        None => if round + 1 >= MAX_DISCOVERY_ROUNDS {
            ConnView { connecting: false, ..v }
        } else {
            v
        },
    }
}

/// The transport connect has returned, successfully or not.
pub open spec fn after_connect(v: ConnView, ok: bool) -> ConnView {
    if ok {
        ConnView { connecting: false, connected: true, reconnect_enabled: true, ..v }
    } else {
        ConnView { connecting: false, ..v }
    }
}

/// A disconnect has been requested; this is committed before the transport
/// is asked to disconnect.
pub open spec fn after_begin_disconnect(v: ConnView) -> ConnView {
    ConnView {
        disconnecting: true,
        connecting: false,
        connected: false,
        reconnect_enabled: false,
        ..v
    }
}

/// The transport disconnect has ended: completed, failed or timed out.
pub open spec fn after_finish_disconnect(v: ConnView) -> ConnView {
    ConnView { disconnecting: false, ..v }
}

/// The transport reports the link up (`up`) or down.
pub open spec fn after_notify(v: ConnView, up: bool) -> ConnView {
    if up {
        ConnView { connected: true, connecting: false, ..v }
    } else {
        ConnView { connected: false, ..v }
    }
}

/// A connectivity notification starts a reconnect: the link went down and
/// reconnecting is enabled.
pub open spec fn notify_reconnects(v: ConnView, up: bool) -> bool {
    !up && v.reconnect_enabled
}

/// Connect requests for `names`, one after another with nothing in between:
/// the state after them, and how many of them started a connect sequence.
pub open spec fn connect_requests(v: ConnView, names: Seq<Seq<char>>) -> (ConnView, nat)
    decreases names.len(),
{
    if names.len() == 0 {
        (v, 0)
    } else {
        let (w, n) = connect_requests(v, names.drop_last());
        (after_begin_connect(w, names.last()), if connect_guarded(w) {
            n
        } else {
            n + 1
        })
    }
}

/// Connectivity notifications `events`, one after another: the state after
/// them, and how many reconnects they started.
pub open spec fn notifications(v: ConnView, events: Seq<bool>) -> (ConnView, nat)
    decreases events.len(),
{
    if events.len() == 0 {
        (v, 0)
    } else {
        let (w, n) = notifications(v, events.drop_last());
        (after_notify(w, events.last()), if notify_reconnects(w, events.last()) {
            n + 1
        } else {
            n
        })
    }
}

/// Concurrent connect requests are deduplicated: of any run of requests at
/// most one starts a discovery and connect sequence, and none does while
/// one is in flight or the link is up; the others succeed at once and
/// change nothing.
pub proof fn lemma_connect_dedup(v: ConnView, names: Seq<Seq<char>>)
    ensures
        connect_requests(v, names).1 <= 1,
        connect_guarded(v) ==> connect_requests(v, names) == (v, 0nat),
        names.len() > 0 ==> connect_guarded(connect_requests(v, names).0),
    decreases names.len(),
{
    if names.len() > 0 {
        lemma_connect_dedup(v, names.drop_last());
    }
}

/// A disconnect leaves `connecting`, `connected` and `reconnect_enabled`
/// cleared whatever the transport disconnect did, and `disconnecting`
/// cleared once it has ended.
pub proof fn lemma_disconnect_clears(v: ConnView)
    ensures
        !after_begin_disconnect(v).connecting,
        !after_begin_disconnect(v).connected,
        !after_begin_disconnect(v).reconnect_enabled,
        (after_finish_disconnect(after_begin_disconnect(v)) == ConnView {
            connecting: false,
            connected: false,
            disconnecting: false,
            reconnect_enabled: false,
            ..v
        }),
{
}

/// A drop of the link while reconnecting is enabled starts exactly one
/// reconnect; after a disconnect no notification starts any, and a
/// reconnect scheduled before it is suppressed.
pub proof fn lemma_reconnect_policy(v: ConnView, events: Seq<bool>)
    ensures
        (v.reconnect_enabled ==> notifications(v, seq![false]).1 == 1),
        notifications(after_begin_disconnect(v), events).1 == 0,
        notifications(after_finish_disconnect(after_begin_disconnect(v)), events).1 == 0,
        after_begin_reconnect(notifications(after_begin_disconnect(v), events).0)
            == notifications(after_begin_disconnect(v), events).0,
{
    let drop = seq![false];
    assert(drop.drop_last() =~= Seq::<bool>::empty());
    assert(notifications(v, drop.drop_last()) == (v, 0nat));
    assert(drop.last() == false);
    lemma_notifications_keep_disabled(after_begin_disconnect(v), events);
    lemma_notifications_keep_disabled(after_finish_disconnect(after_begin_disconnect(v)), events);
}

/// Notifications never enable reconnecting.
proof fn lemma_notifications_keep_disabled(v: ConnView, events: Seq<bool>)
    requires
        !v.reconnect_enabled,
    ensures
        notifications(v, events).1 == 0,
        !notifications(v, events).0.reconnect_enabled,
    decreases events.len(),
{
    if events.len() > 0 {
        lemma_notifications_keep_disabled(v, events.drop_last());
    }
}

/// How a connect request goes on.
#[derive(Debug, PartialEq, Eq)]
pub enum ConnectStart {
    /// A connect is already running or the link is up: nothing to do.
    AlreadyActive,
    /// Reconnecting has been disabled since the reconnect was scheduled.
    Suppressed,
    /// No address is known: discover the peer first.
    Discover,
    /// Connect to the cached address.
    Connect(String),
}

/// What follows a discovery round.
#[derive(Debug, PartialEq, Eq)]
pub enum DiscoveryNext {
    /// Connect to this address.
    Connect(String),
    /// Run another round, the one numbered here.
    Retry(u32),
    /// Give up with this error.
    Failed(LinkError),
}

/// The connection state shared by the connection manager's operations and the
/// connectivity listener.
pub struct ConnState {
    peer_name: String,
    peer_address: String,
    connecting: bool,
    connected: bool,
    disconnecting: bool,
    reconnect_enabled: bool,
}

impl View for ConnState {
    type V = ConnView;

    closed spec fn view(&self) -> ConnView {
        ConnView {
            peer_name: self.peer_name@,
            peer_address: self.peer_address@,
            connecting: self.connecting,
            connected: self.connected,
            disconnecting: self.disconnecting,
            reconnect_enabled: self.reconnect_enabled,
        }
    }
}

impl ConnState {
    /// `connecting` and `connected` are never both true.
    pub open spec fn wf(&self) -> bool {
        !(self@.connecting && self@.connected)
    }

    pub fn new() -> (r: ConnState)
        ensures
            r@ == initial_view(),
            r.wf(),
    {
        let r = ConnState {
            peer_name: String::new(),
            peer_address: String::new(),
            connecting: false,
            connected: false,
            disconnecting: false,
            reconnect_enabled: false,
        };
        assert(r@.peer_name =~= Seq::<char>::empty());
        r
    }

    fn start(&mut self, name: &String) -> (r: ConnectStart)
        requires
            old(self).wf(),
        ensures
            final(self).wf(),
            final(self)@ == after_begin_connect(old(self)@, name@),
            connect_guarded(old(self)@) ==> r == ConnectStart::AlreadyActive,
            !connect_guarded(old(self)@) && old(self)@.peer_address.len() == 0 ==> r
                == ConnectStart::Discover,
            !connect_guarded(old(self)@) && old(self)@.peer_address.len() > 0 ==> (r matches ConnectStart::Connect(a) && a@ == old(self)@.peer_address),
    {
        if self.connecting || self.connected {
            return ConnectStart::AlreadyActive;
        }
        self.connecting = true;
        self.peer_name = name.clone();
        if self.peer_address.as_str().is_empty() {
            ConnectStart::Discover
        } else {
            ConnectStart::Connect(self.peer_address.clone())
        }
    }

    /// A connect request for the peer called `name` (empty: any peer). When a
    /// connect is already running, or the link is up, nothing changes and the
    /// request succeeds at once. Otherwise the request is recorded and the
    /// caller discovers the peer, or connects to the cached address.
    pub fn begin_connect(&mut self, name: &String) -> (r: ConnectStart)
        requires
            old(self).wf(),
        ensures
            final(self).wf(),
            final(self)@ == after_begin_connect(old(self)@, name@),
            connect_guarded(old(self)@) ==> r == ConnectStart::AlreadyActive,
            !connect_guarded(old(self)@) && old(self)@.peer_address.len() == 0 ==> r
                == ConnectStart::Discover,
            !connect_guarded(old(self)@) && old(self)@.peer_address.len() > 0 ==> (r matches ConnectStart::Connect(a) && a@ == old(self)@.peer_address),
    {
        self.start(name)
    }

    /// A reconnect scheduled after the link dropped. It runs as a connect for
    /// the last requested name, unless reconnecting has been disabled
    /// meanwhile.
    pub fn begin_reconnect(&mut self) -> (r: ConnectStart)
        requires
            old(self).wf(),
        ensures
            final(self).wf(),
            final(self)@ == after_begin_reconnect(old(self)@),
            !old(self)@.reconnect_enabled ==> r == ConnectStart::Suppressed,
            old(self)@.reconnect_enabled && connect_guarded(old(self)@) ==> r
                == ConnectStart::AlreadyActive,
            old(self)@.reconnect_enabled && !connect_guarded(old(self)@)
                && old(self)@.peer_address.len() == 0 ==> r == ConnectStart::Discover,
            old(self)@.reconnect_enabled && !connect_guarded(old(self)@)
                && old(self)@.peer_address.len() > 0 ==> (r matches ConnectStart::Connect(a) && a@ == old(self)@.peer_address),
    {
        if !self.reconnect_enabled {
            return ConnectStart::Suppressed;
        }
        let name = self.peer_name.clone();
        self.start(&name)
    }

    /// Discovery round `round` (from 0) has ended with `found`. A found
    /// address is cached and connected to; after the last round without one
    /// the connect fails and `connecting` is cleared.
    pub fn discovery_round(&mut self, round: u32, found: Option<String>) -> (r: DiscoveryNext)
        requires
            old(self).wf(),
            round < MAX_DISCOVERY_ROUNDS,
        ensures
            final(self).wf(),
            final(self)@ == after_discovery_round(
                old(self)@,
                round as nat,
                match found {
                    Some(a) => Some(a@),
                    None => None,
                },
            ),
            found is Some ==> (r matches DiscoveryNext::Connect(a) && a@ == found->Some_0@),
            found is None && round + 1 >= MAX_DISCOVERY_ROUNDS ==> r == DiscoveryNext::Failed(
                LinkError::DiscoveryFailed,
            ),
            found is None && round + 1 < MAX_DISCOVERY_ROUNDS ==> r == DiscoveryNext::Retry(
                (round + 1) as u32,
            ),
    {
        match found {
            Some(a) => {
                self.peer_address = a.clone();
                DiscoveryNext::Connect(a)
            },
            None => {
                if round + 1 >= MAX_DISCOVERY_ROUNDS {
                    self.connecting = false;
                    DiscoveryNext::Failed(LinkError::DiscoveryFailed)
                } else {
                    DiscoveryNext::Retry(round + 1)
                }
            },
        }
    }

    /// The transport connect has returned. On success the link is up and
    /// reconnecting is enabled; either way `connecting` is cleared.
    pub fn connect_finished(&mut self, outcome: Result<(), String>) -> (r: Result<(), LinkError>)
        requires
            old(self).wf(),
        ensures
            final(self).wf(),
            final(self)@ == after_connect(old(self)@, outcome is Ok),
            outcome is Ok ==> r is Ok,
            outcome is Err ==> r == Err::<(), LinkError>(LinkError::Transport(outcome->Err_0)),
    {
        self.connecting = false;
        match outcome {
            Ok(()) => {
                self.connected = true;
                self.reconnect_enabled = true;
                Ok(())
            },
            Err(m) => Err(LinkError::Transport(m)),
        }
    }

    /// A disconnect request: the link is marked down and reconnecting
    /// disabled before the transport is asked to disconnect.
    pub fn begin_disconnect(&mut self)
        requires
            old(self).wf(),
        ensures
            final(self).wf(),
            final(self)@ == after_begin_disconnect(old(self)@),
            final(self)@.disconnecting,
            !final(self)@.connecting,
            !final(self)@.connected,
            !final(self)@.reconnect_enabled,
    {
        self.disconnecting = true;
        self.connecting = false;
        self.connected = false;
        self.reconnect_enabled = false;
    }

    /// The transport disconnect has ended, whether it completed, failed or
    /// timed out.
    pub fn finish_disconnect(&mut self)
        requires
            old(self).wf(),
        ensures
            final(self).wf(),
            final(self)@ == after_finish_disconnect(old(self)@),
            !final(self)@.disconnecting,
    {
        self.disconnecting = false;
    }

    /// The transport reports the link up or down. Returns whether a reconnect
    /// is to be scheduled: the link went down while reconnecting is enabled.
    pub fn connectivity_changed(&mut self, up: bool) -> (r: bool)
        requires
            old(self).wf(),
        ensures
            final(self).wf(),
            final(self)@ == after_notify(old(self)@, up),
            r == notify_reconnects(old(self)@, up),
    {
        self.connected = up;
        if up {
            self.connecting = false;
        }
        !up && self.reconnect_enabled
    }

    pub fn is_disconnecting(&self) -> (r: bool)
        ensures
            r == self@.disconnecting,
    {
        self.disconnecting
    }

    pub fn is_connecting(&self) -> (r: bool)
        ensures
            r == self@.connecting,
    {
        self.connecting
    }

    pub fn is_connected(&self) -> (r: bool)
        ensures
            r == self@.connected,
    {
        self.connected
    }

    pub fn reconnect_enabled(&self) -> (r: bool)
        ensures
            r == self@.reconnect_enabled,
    {
        self.reconnect_enabled
    }

    /// The cached peer address; empty until a discovery succeeds.
    pub fn peer_address(&self) -> (r: String)
        ensures
            r@ == self@.peer_address,
    {
        self.peer_address.clone()
    }

    /// The last requested peer name.
    pub fn peer_name(&self) -> (r: String)
        ensures
            r@ == self@.peer_name,
    {
        self.peer_name.clone()
    }
}

} // verus!
