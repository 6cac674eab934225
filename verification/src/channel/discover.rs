//! The listeners that answer announcements.

use crate::channel::listener::{
    advance, answer, reply, step, subscription, wanted, Action, Event, ListenerState, ListenerView,
};
use crate::channel::messages::{
    encode_discover, encode_info, lemma_discover_round_trip, DiscoverMessage,
    DiscoverMessageView, InfoMessageView,
};
use crate::channel::{route, Error, OutboundView, Request, RequestView};
use crate::config::{topic_name, Channel, Config, ConfigView};
use vstd::prelude::*;

verus! {

/// Listens on the discover channel, where every node announces itself, and
/// announces this node there.
pub struct Discover {
    config: Config,
    state: ListenerState,
}

impl View for Discover {
    type V = ListenerView;

    closed spec fn view(&self) -> ListenerView {
        ListenerView { config: self.config@, state: self.state }
    }
}

impl Discover {
    /// A listener for the node that `config` configures. It holds no
    /// subscription yet.
    pub fn new(config: &Config) -> (listener: Discover)
        ensures
            listener@ == (ListenerView { config: config@, state: ListenerState::Created }),
    {
        Discover { config: config.clone(), state: ListenerState::Created }
    }

    /// Where the listener stands.
    pub fn state(&self) -> (state: ListenerState)
        ensures
            state == self@.state,
    {
        self.state
    }

    /// The topic to subscribe to, if the listener still needs its
    /// subscription. It needs one, and only one, until the bus has answered.
    pub fn subscription(&self) -> (topic: Option<String>)
        ensures
            match wanted(Channel::Discover, self@.config, self@.state) {
                Some(expected) => topic matches Some(found) && found@ == expected,
                None => topic is None,
            },
    {
        subscription(Channel::Discover, &self.config, self.state)
    }

    /// Takes one event of the subscription's life and says what to do next.
    pub fn listen(&mut self, event: Event) -> (action: Action)
        ensures
            final(self)@.config == old(self)@.config,
            final(self)@.state == step(
                Channel::Discover,
                old(self)@.config,
                old(self)@.state,
                event@,
            ).0,
            action@ == step(Channel::Discover, old(self)@.config, old(self)@.state, event@).1,
    {
        let (state, action) = advance(Channel::Discover, &self.config, self.state, event);
        self.state = state;
        action
    }

    /// Announces this node to every node. Building the announcement cannot
    /// fail.
    pub fn broadcast(&self) -> (request: Request)
        ensures
            request@ == (RequestView::ToChannel {
                channel: Channel::Discover,
                payload: encode_discover(DiscoverMessageView { sender: self@.config.node_id }),
            }),
    {
        let announcement = DiscoverMessage::new(self.config.node_id.as_str());
        Request::ToChannel { channel: Channel::Discover, payload: announcement.encode() }
    }

    /// Answers one announcement with one description of this node,
    /// addressed to the node that announced itself and to no other.
    pub fn handle_message(&self, payload: &[u8]) -> (request: Result<Request, Error>)
        ensures
            match answer(self@.config, payload@) {
                Ok(expected) => request matches Ok(found) && found@ == expected,
                Err(error) => request == Err::<Request, Error>(error),
            },
    {
        reply(&self.config, payload)
    }

    /// Whether the listener stops after `error`. It never does: an error
    /// inside a listener is reported and the listener goes on.
    pub fn error(&self, error: Error) -> (stop: bool)
        ensures
            !stop,
    {
        match error {
            Error::Decode(_) | Error::Subscribe | Error::Publish => false,
        }
    }
}

/// Every announcement is answered, and with exactly this: one description
/// of the answering node, published on the info topic scoped to the node
/// that announced itself.
pub proof fn lemma_announcement_is_answered(local: ConfigView, sender: Seq<char>)
    ensures
        answer(local, encode_discover(DiscoverMessageView { sender })) == Ok::<
            RequestView,
            Error,
        >(
            RequestView::ToTopic {
                topic: topic_name(local, Channel::Info, Some(sender)),
                payload: encode_info(InfoMessageView { node_id: local.node_id }),
            },
        ),
        route(local, answer(local, encode_discover(DiscoverMessageView { sender }))->Ok_0)
            == (OutboundView {
            topic: topic_name(local, Channel::Info, Some(sender)),
            payload: encode_info(InfoMessageView { node_id: local.node_id }),
        }),
{
    lemma_discover_round_trip(DiscoverMessageView { sender });
}

/// Listens on the channel for discovery requests addressed to this node
/// alone. Announcements usually go to the discover channel instead.
pub struct DiscoverTargeted {
    config: Config,
    state: ListenerState,
}

impl View for DiscoverTargeted {
    type V = ListenerView;

    closed spec fn view(&self) -> ListenerView {
        ListenerView { config: self.config@, state: self.state }
    }
}

impl DiscoverTargeted {
    /// A listener for the node that `config` configures. It holds no
    /// subscription yet.
    pub fn new(config: &Config) -> (listener: DiscoverTargeted)
        ensures
            listener@ == (ListenerView { config: config@, state: ListenerState::Created }),
    {
        DiscoverTargeted { config: config.clone(), state: ListenerState::Created }
    }

    /// Where the listener stands.
    pub fn state(&self) -> (state: ListenerState)
        ensures
            state == self@.state,
    {
        self.state
    }

    /// The topic to subscribe to, if the listener still needs its
    /// subscription. It needs one, and only one, until the bus has answered.
    pub fn subscription(&self) -> (topic: Option<String>)
        ensures
            match wanted(Channel::DiscoverTargeted, self@.config, self@.state) {
                Some(expected) => topic matches Some(found) && found@ == expected,
                None => topic is None,
            },
    {
        subscription(Channel::DiscoverTargeted, &self.config, self.state)
    }

    /// Takes one event of the subscription's life and says what to do next.
    pub fn listen(&mut self, event: Event) -> (action: Action)
        ensures
            final(self)@.config == old(self)@.config,
            final(self)@.state == step(
                Channel::DiscoverTargeted,
                old(self)@.config,
                old(self)@.state,
                event@,
            ).0,
            action@ == step(
                Channel::DiscoverTargeted,
                old(self)@.config,
                old(self)@.state,
                event@,
            ).1,
    {
        let (state, action) = advance(Channel::DiscoverTargeted, &self.config, self.state, event);
        self.state = state;
        action
    }

    /// Answers one request with one description of this node, addressed to
    /// the node that asked and to no other.
    pub fn handle_message(&self, payload: &[u8]) -> (request: Result<Request, Error>)
        ensures
            match answer(self@.config, payload@) {
                Ok(expected) => request matches Ok(found) && found@ == expected,
                Err(error) => request == Err::<Request, Error>(error),
            },
    {
        reply(&self.config, payload)
    }

    /// Whether the listener stops after `error`. It never does: an error
    /// inside a listener is reported and the listener goes on.
    pub fn error(&self, error: Error) -> (stop: bool)
        ensures
            !stop,
    {
        match error {
            Error::Decode(_) | Error::Subscribe | Error::Publish => false,
        }
    }
}

} // verus!
