//! The decisions of the network service's event loop.
//!
//! The loop waits on two sources, the swarm's event stream and the command
//! channel, and handles exactly one item per turn. What it does with an item
//! is decided here, from the loop's state and the item alone; the caller
//! performs the returned action (forwards an event, hands a request to the
//! swarm, answers a listener query) and waits for the next item.
//!
//! Peer identifiers, request payloads and the single-use reply slots are type
//! parameters: `P` a peer id, `Q` a request payload, `R` the reply slot of an
//! outbound request, `S` the reply slot of a listener query.
use vstd::prelude::*;

verus! {

/// Events emitted by the service to the application.
#[derive(Debug)]
pub enum NetworkEvent<P, Q> {
    HelloRequest { request: Q, source: P },
    PeerConnected(P),
    PeerDisconnected(P),
}

/// Introspection queries answered from the swarm's state.
#[derive(Debug)]
pub enum NetRPCMethods<S> {
    /// Asks for the local peer id and the current listen addresses.
    NetAddrsListen(S),
}

/// Commands from the application for the service to handle.
#[derive(Debug)]
pub enum NetworkMessage<P, Q, R, S> {
    HelloRequest { peer_id: P, request: Q, response_channel: R },
    JSONRPCRequest { method: NetRPCMethods<S> },
}

/// Events reported by the swarm.
#[derive(Debug)]
pub enum SwarmEvent<P, Q> {
    PeerConnected(P),
    PeerDisconnected(P),
    HelloRequest { request: Q, peer: P },
}

/// One item taken from the two sources; `None` means that the source is
/// closed for good.
#[derive(Debug)]
pub enum LoopInput<P, Q, R, S> {
    Swarm(Option<SwarmEvent<P, Q>>),
    Command(Option<NetworkMessage<P, Q, R, S>>),
}

/// What the loop does with one item.
#[derive(Debug)]
pub enum Action<P, Q, R, S> {
    /// Forward an event to the application; a closed event channel is logged
    /// and the loop goes on.
    Emit(NetworkEvent<P, Q>),
    /// Hand a request to the swarm, whose outcome fills the reply slot.
    SendHello { peer_id: P, request: Q, response_channel: R },
    /// Fill the slot with the local peer id and the listen addresses; an
    /// abandoned slot is logged and the loop goes on.
    ReplyListeners(S),
    /// Leave the loop.
    Stop,
}

/// The loop's state: running until a source closes, then stopped for good.
#[derive(Clone, Copy, Debug, PartialEq, Eq)]
pub struct RunLoop {
    pub stopped: bool,
}

/// The action taken on an input by a running loop, or by a stopped one.
pub open spec fn step_action<P, Q, R, S>(stopped: bool, input: LoopInput<P, Q, R, S>) -> Action<P, Q, R, S> {
    if stopped {
        Action::Stop
    } else {
        match input {
            LoopInput::Swarm(None) => Action::Stop,
            LoopInput::Command(None) => Action::Stop,
            LoopInput::Swarm(Some(SwarmEvent::PeerConnected(p))) => Action::Emit(NetworkEvent::PeerConnected(p)),
            LoopInput::Swarm(Some(SwarmEvent::PeerDisconnected(p))) => Action::Emit(NetworkEvent::PeerDisconnected(p)),
            LoopInput::Swarm(Some(SwarmEvent::HelloRequest { request, peer })) =>
                Action::Emit(NetworkEvent::HelloRequest { request, source: peer }),
            LoopInput::Command(Some(NetworkMessage::HelloRequest { peer_id, request, response_channel })) =>
                Action::SendHello { peer_id, request, response_channel },
            LoopInput::Command(Some(NetworkMessage::JSONRPCRequest { method: NetRPCMethods::NetAddrsListen(s) })) =>
                Action::ReplyListeners(s),
        }
    }
}

/// Whether an input reports that its source is closed.
pub open spec fn is_closure<P, Q, R, S>(input: LoopInput<P, Q, R, S>) -> bool {
    match input {
        LoopInput::Swarm(None) => true,
        LoopInput::Command(None) => true,
        _ => false,
    }
}

/// The state after an input.
pub open spec fn step_stopped<P, Q, R, S>(stopped: bool, input: LoopInput<P, Q, R, S>) -> bool {
    stopped || is_closure(input)
}

/// The actions taken on a sequence of inputs, from a given state.
pub open spec fn run_actions<P, Q, R, S>(stopped: bool, inputs: Seq<LoopInput<P, Q, R, S>>) -> Seq<Action<P, Q, R, S>>
    decreases inputs.len(),
{
    if inputs.len() == 0 {
        Seq::empty()
    } else {
        seq![step_action(stopped, inputs[0])]
            + run_actions(step_stopped(stopped, inputs[0]), inputs.drop_first())
    }
}

/// The listener-query slots carried by a sequence of inputs, in order.
pub open spec fn query_slots<P, Q, R, S>(inputs: Seq<LoopInput<P, Q, R, S>>) -> Seq<S>
    decreases inputs.len(),
{
    if inputs.len() == 0 {
        Seq::empty()
    } else {
        let rest = query_slots(inputs.drop_first());
        match inputs[0] {
            LoopInput::Command(Some(NetworkMessage::JSONRPCRequest { method: NetRPCMethods::NetAddrsListen(s) })) =>
                seq![s] + rest,
            _ => rest,
        }
    }
}

/// The slots answered by a sequence of actions, in order.
pub open spec fn replied_slots<P, Q, R, S>(actions: Seq<Action<P, Q, R, S>>) -> Seq<S>
    decreases actions.len(),
{
    if actions.len() == 0 {
        Seq::empty()
    } else {
        let rest = replied_slots(actions.drop_first());
        match actions[0] {
            Action::ReplyListeners(s) => seq![s] + rest,
            _ => rest,
        }
    }
}

/// The request reply slots carried by a sequence of inputs, in order.
pub open spec fn request_slots<P, Q, R, S>(inputs: Seq<LoopInput<P, Q, R, S>>) -> Seq<R>
    decreases inputs.len(),
{
    if inputs.len() == 0 {
        Seq::empty()
    } else {
        let rest = request_slots(inputs.drop_first());
        match inputs[0] {
            LoopInput::Command(Some(NetworkMessage::HelloRequest { response_channel, .. })) =>
                seq![response_channel] + rest,
            _ => rest,
        }
    }
}

/// The request reply slots handed to the swarm by a sequence of actions.
pub open spec fn sent_slots<P, Q, R, S>(actions: Seq<Action<P, Q, R, S>>) -> Seq<R>
    decreases actions.len(),
{
    if actions.len() == 0 {
        Seq::empty()
    } else {
        let rest = sent_slots(actions.drop_first());
        match actions[0] {
            Action::SendHello { response_channel, .. } => seq![response_channel] + rest,
            _ => rest,
        }
    }
}

/// The event the application receives for a swarm event.
pub open spec fn translate<P, Q>(e: SwarmEvent<P, Q>) -> NetworkEvent<P, Q> {
    match e {
        SwarmEvent::PeerConnected(p) => NetworkEvent::PeerConnected(p),
        SwarmEvent::PeerDisconnected(p) => NetworkEvent::PeerDisconnected(p),
        SwarmEvent::HelloRequest { request, peer } => NetworkEvent::HelloRequest { request, source: peer },
    }
}

/// The swarm events carried by a sequence of inputs, in order.
pub open spec fn swarm_events<P, Q, R, S>(inputs: Seq<LoopInput<P, Q, R, S>>) -> Seq<SwarmEvent<P, Q>>
    decreases inputs.len(),
{
    if inputs.len() == 0 {
        Seq::empty()
    } else {
        let rest = swarm_events(inputs.drop_first());
        match inputs[0] {
            LoopInput::Swarm(Some(e)) => seq![e] + rest,
            _ => rest,
        }
    }
}

/// The events forwarded to the application by a sequence of actions.
pub open spec fn emitted_events<P, Q, R, S>(actions: Seq<Action<P, Q, R, S>>) -> Seq<NetworkEvent<P, Q>>
    decreases actions.len(),
{
    if actions.len() == 0 {
        Seq::empty()
    } else {
        let rest = emitted_events(actions.drop_first());
        match actions[0] {
            Action::Emit(e) => seq![e] + rest,
            _ => rest,
        }
    }
}

/// Whether no input of a sequence reports a closed source.
pub open spec fn all_open<P, Q, R, S>(inputs: Seq<LoopInput<P, Q, R, S>>) -> bool {
    forall|i: int| 0 <= i < inputs.len() ==> !is_closure(#[trigger] inputs[i])
}

impl RunLoop {
    /// A loop that has just started.
    pub fn new() -> (r: Self)
        ensures
            !r.stopped,
    {
        RunLoop { stopped: false }
    }

    /// Whether the loop has left.
    pub fn is_stopped(&self) -> (r: bool)
        ensures
            r == self.stopped,
    {
        self.stopped
    }

    /// Decides what to do with one item: a closed source stops the loop for
    /// good; a swarm event is translated and forwarded; an outbound request
    /// goes to the swarm with its reply slot; a listener query is answered.
    pub fn handle<P, Q, R, S>(&mut self, input: LoopInput<P, Q, R, S>) -> (r: Action<P, Q, R, S>)
        ensures
            r == step_action(old(self).stopped, input),
            final(self).stopped == step_stopped(old(self).stopped, input),
    {
        if self.stopped {
            return Action::Stop;
        }
        match input {
            LoopInput::Swarm(None) => {
                self.stopped = true;
                Action::Stop
            },
            LoopInput::Command(None) => {
                self.stopped = true;
                Action::Stop
            },
            LoopInput::Swarm(Some(event)) => match event {
                SwarmEvent::PeerConnected(p) => Action::Emit(NetworkEvent::PeerConnected(p)),
                SwarmEvent::PeerDisconnected(p) => Action::Emit(NetworkEvent::PeerDisconnected(p)),
                SwarmEvent::HelloRequest { request, peer } =>
                    Action::Emit(NetworkEvent::HelloRequest { request, source: peer }),
            },
            LoopInput::Command(Some(message)) => match message {
                NetworkMessage::HelloRequest { peer_id, request, response_channel } =>
                    Action::SendHello { peer_id, request, response_channel },
                NetworkMessage::JSONRPCRequest { method } => match method {
                    NetRPCMethods::NetAddrsListen(s) => Action::ReplyListeners(s),
                },
            },
        }
    }
}

/// A run takes one action per input.
pub proof fn lemma_run_len<P, Q, R, S>(stopped: bool, inputs: Seq<LoopInput<P, Q, R, S>>)
    ensures
        run_actions(stopped, inputs).len() == inputs.len(),
    decreases inputs.len(),
{
    if inputs.len() > 0 {
        lemma_run_len::<P, Q, R, S>(step_stopped(stopped, inputs[0]), inputs.drop_first());
    }
}

/// Once a source has closed, the loop stops at that item and every later
/// item is met with `Stop`: shutdown takes one turn and cannot be undone.
pub proof fn lemma_shutdown<P, Q, R, S>(stopped: bool, inputs: Seq<LoopInput<P, Q, R, S>>)
    requires
        inputs.len() > 0,
        stopped || is_closure(inputs[0]),
    ensures
        forall|i: int| 0 <= i < inputs.len() ==> #[trigger] run_actions(stopped, inputs)[i] == Action::<P, Q, R, S>::Stop,
    decreases inputs.len(),
{
    lemma_run_len::<P, Q, R, S>(stopped, inputs);
    lemma_run_len::<P, Q, R, S>(true, inputs.drop_first());
    assert(step_stopped(stopped, inputs[0]));
    if inputs.len() > 1 {
        lemma_shutdown::<P, Q, R, S>(true, inputs.drop_first());
    }
    assert forall|i: int| 0 <= i < inputs.len() implies #[trigger] run_actions(stopped, inputs)[i] == Action::<P, Q, R, S>::Stop by {
        if i > 0 {
            assert(run_actions(stopped, inputs)[i] == run_actions(true, inputs.drop_first())[i - 1]);
        }
    }
}

/// While the loop runs, every listener query is answered exactly once, in
/// the order of the queries, and every outbound request's reply slot reaches
/// the swarm exactly once: none is lost and none is answered twice.
pub proof fn lemma_replies_exactly_once<P, Q, R, S>(inputs: Seq<LoopInput<P, Q, R, S>>)
    requires
        all_open(inputs),
    ensures
        replied_slots(run_actions(false, inputs)) == query_slots(inputs),
        sent_slots(run_actions(false, inputs)) == request_slots(inputs),
        run_actions(false, inputs).len() == inputs.len(),
    decreases inputs.len(),
{
    if inputs.len() > 0 {
        let rest = inputs.drop_first();
        assert(!is_closure(inputs[0]));
        assert forall|i: int| 0 <= i < rest.len() implies !is_closure(#[trigger] rest[i]) by {
            assert(rest[i] == inputs[i + 1]);
        }
        lemma_replies_exactly_once::<P, Q, R, S>(rest);
        lemma_run_len::<P, Q, R, S>(false, inputs);
        let acts = run_actions(false, inputs);
        assert(acts.drop_first() =~= run_actions(false, rest));
    }
}

/// While the loop runs, each swarm event is forwarded to the application
/// exactly once, translated, and in the order in which the swarm reported it.
pub proof fn lemma_events_forwarded_in_order<P, Q, R, S>(inputs: Seq<LoopInput<P, Q, R, S>>)
    requires
        all_open(inputs),
    ensures
        emitted_events(run_actions(false, inputs)) == swarm_events(inputs).map_values(|e: SwarmEvent<P, Q>| translate(e)),
    decreases inputs.len(),
{
    if inputs.len() > 0 {
        let rest = inputs.drop_first();
        assert(!is_closure(inputs[0]));
        assert forall|i: int| 0 <= i < rest.len() implies !is_closure(#[trigger] rest[i]) by {
            assert(rest[i] == inputs[i + 1]);
        }
        lemma_events_forwarded_in_order::<P, Q, R, S>(rest);
        lemma_run_len::<P, Q, R, S>(false, inputs);
        let acts = run_actions(false, inputs);
        assert(acts.drop_first() =~= run_actions(false, rest));
        let f = |e: SwarmEvent<P, Q>| translate(e);
        match inputs[0] {
            LoopInput::Swarm(Some(e)) => {
                assert(swarm_events(inputs) == seq![e] + swarm_events(rest));
                assert((seq![e] + swarm_events(rest)).map_values(f) =~= seq![translate(e)] + swarm_events(rest).map_values(f));
            },
            _ => {
                assert(swarm_events(inputs) == swarm_events(rest));
            },
        }
    } else {
        assert(swarm_events(inputs).map_values(|e: SwarmEvent<P, Q>| translate(e)) =~= Seq::<NetworkEvent<P, Q>>::empty());
    }
}

} // verus!
