//! The listeners that take in descriptions of other nodes.

use crate::channel::listener::{
    accept, advance, receive, step, subscription, wanted, Action, Event, ListenerState, ListenerView,
};
use crate::channel::discover::lemma_announcement_is_answered;
use crate::channel::listener::answer;
use crate::channel::messages::{
    encode_discover, encode_info, lemma_info_round_trip, DiscoverMessageView, InfoMessage,
    InfoMessageView,
};
use crate::channel::{route, Error, Request, RequestView};
use crate::config::{own_topic, Channel, Config, ConfigView};
use vstd::prelude::*;

verus! {

/// Listens on the info channel, where nodes describe themselves to every
/// node, and describes this node there.
pub struct Info {
    config: Config,
    state: ListenerState,
}

impl View for Info {
    type V = ListenerView;

    closed spec fn view(&self) -> ListenerView {
        ListenerView { config: self.config@, state: self.state }
    }
}

impl Info {
    /// A listener for the node that `config` configures. It holds no
    /// subscription yet.
    pub fn new(config: &Config) -> (listener: Info)
        ensures
            listener@ == (ListenerView { config: config@, state: ListenerState::Created }),
    {
        Info { config: config.clone(), state: ListenerState::Created }
    }

    /// Where the listener stands.
    pub fn state(&self) -> (state: ListenerState)
        ensures
            state == self@.state,
    {
        self.state
    }

    /// The topic to subscribe to, if the listener still needs its
    /// subscription. It needs one, and only one, until the bus has answered.
    pub fn subscription(&self) -> (topic: Option<String>)
        ensures
            match wanted(Channel::Info, self@.config, self@.state) {
                Some(expected) => topic matches Some(found) && found@ == expected,
                None => topic is None,
            },
    {
        subscription(Channel::Info, &self.config, self.state)
    }

    /// Takes one event of the subscription's life and says what to do next.
    pub fn listen(&mut self, event: Event) -> (action: Action)
        ensures
            final(self)@.config == old(self)@.config,
            final(self)@.state == step(
                Channel::Info,
                old(self)@.config,
                old(self)@.state,
                event@,
            ).0,
            action@ == step(Channel::Info, old(self)@.config, old(self)@.state, event@).1,
    {
        let (state, action) = advance(Channel::Info, &self.config, self.state, event);
        self.state = state;
        action
    }

    /// Describes this node to every node, whether or not anyone asked.
    /// Building the description cannot fail.
    pub fn broadcast_info(&self) -> (request: Request)
        ensures
            request@ == (RequestView::ToChannel {
                channel: Channel::Info,
                payload: encode_info(InfoMessageView { node_id: self@.config.node_id }),
            }),
    {
        let description = InfoMessage::new(&self.config);
        Request::ToChannel { channel: Channel::Info, payload: description.encode() }
    }

    /// Reads the description of a node, to be handed to the registry.
    pub fn handle_message(&self, payload: &[u8]) -> (description: Result<InfoMessage, Error>)
        ensures
            match accept(payload@) {
                Ok(expected) => description matches Ok(found) && found@ == expected,
                Err(error) => description == Err::<InfoMessage, Error>(error),
            },
    {
        receive(payload)
    }

    /// Whether the listener stops after `error`. It never does: an error
    /// inside a listener is reported and the listener goes on.
    pub fn error(&self, error: Error) -> (stop: bool)
        ensures
            !stop,
    {
        match error {
            Error::Decode(_) | Error::Subscribe | Error::Publish => false,
        }
    }
}

/// Listens on the info topic scoped to this node, where the answers to its
/// own announcements arrive.
pub struct InfoTargeted {
    config: Config,
    state: ListenerState,
}

impl View for InfoTargeted {
    type V = ListenerView;

    closed spec fn view(&self) -> ListenerView {
        ListenerView { config: self.config@, state: self.state }
    }
}

impl InfoTargeted {
    /// A listener for the node that `config` configures. It holds no
    /// subscription yet.
    pub fn new(config: &Config) -> (listener: InfoTargeted)
        ensures
            listener@ == (ListenerView { config: config@, state: ListenerState::Created }),
    {
        InfoTargeted { config: config.clone(), state: ListenerState::Created }
    }

    /// Where the listener stands.
    pub fn state(&self) -> (state: ListenerState)
        ensures
            state == self@.state,
    {
        self.state
    }

    /// The topic to subscribe to, if the listener still needs its
    /// subscription. It needs one, and only one, until the bus has answered.
    pub fn subscription(&self) -> (topic: Option<String>)
        ensures
            match wanted(Channel::InfoTargeted, self@.config, self@.state) {
                Some(expected) => topic matches Some(found) && found@ == expected,
                None => topic is None,
            },
    {
        subscription(Channel::InfoTargeted, &self.config, self.state)
    }

    /// Takes one event of the subscription's life and says what to do next.
    pub fn listen(&mut self, event: Event) -> (action: Action)
        ensures
            final(self)@.config == old(self)@.config,
            final(self)@.state == step(
                Channel::InfoTargeted,
                old(self)@.config,
                old(self)@.state,
                event@,
            ).0,
            action@ == step(Channel::InfoTargeted, old(self)@.config, old(self)@.state, event@).1,
    {
        let (state, action) = advance(Channel::InfoTargeted, &self.config, self.state, event);
        self.state = state;
        action
    }

    /// Reads the description of a node that answered this node's
    /// announcement, to be handed to the registry.
    pub fn handle_message(&self, payload: &[u8]) -> (description: Result<InfoMessage, Error>)
        ensures
            match accept(payload@) {
                Ok(expected) => description matches Ok(found) && found@ == expected,
                Err(error) => description == Err::<InfoMessage, Error>(error),
            },
    {
        receive(payload)
    }

    /// Whether the listener stops after `error`. It never does: an error
    /// inside a listener is reported and the listener goes on.
    pub fn error(&self, error: Error) -> (stop: bool)
        ensures
            !stop,
    {
        match error {
            Error::Decode(_) | Error::Subscribe | Error::Publish => false,
        }
    }
}

/// The answer to an announcement reaches the node that announced itself:
/// a node of the same deployment publishes it on the very topic to which
/// that node's targeted info listener is subscribed, and the listener reads
/// the description of the answering node there.
pub proof fn lemma_answer_reaches_requester(requester: ConfigView, responder: ConfigView)
    requires
        requester.prefix == responder.prefix,
        requester.separator == responder.separator,
    ensures
        ({
            let announcement = encode_discover(DiscoverMessageView { sender: requester.node_id });
            let published = route(responder, answer(responder, announcement)->Ok_0);
            &&& answer(responder, announcement) is Ok
            &&& published.topic == own_topic(requester, Channel::InfoTargeted)
            &&& accept(published.payload) == Ok::<InfoMessageView, Error>(
                InfoMessageView { node_id: responder.node_id },
            )
        }),
{
    lemma_announcement_is_answered(responder, requester.node_id);
    lemma_info_round_trip(InfoMessageView { node_id: responder.node_id });
}

/// A node that hears its own announcement answers itself, on the topic of
/// its own targeted info listener.
pub proof fn lemma_own_answer_comes_home(config: ConfigView)
    ensures
        ({
            let announcement = encode_discover(DiscoverMessageView { sender: config.node_id });
            let published = route(config, answer(config, announcement)->Ok_0);
            &&& answer(config, announcement) is Ok
            &&& published.topic == own_topic(config, Channel::InfoTargeted)
            &&& accept(published.payload) == Ok::<InfoMessageView, Error>(
                InfoMessageView { node_id: config.node_id },
            )
        }),
{
    lemma_answer_reaches_requester(config, config);
}

} // verus!
