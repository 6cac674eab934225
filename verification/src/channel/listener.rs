//! The life of a listener, as a function from state and event to next
//! state and action.
//!
//! A listener owns one subscription. The runtime subscribes on its behalf,
//! reports what the bus delivers, and carries out the action that the
//! listener answers with:
//!
//! ```text
//! Created --Subscribed--> Subscribed --Message--> Listening --Closed--> Stopped
//! ```

use crate::channel::messages::{
    decode_discover, decode_info, encode_discover, encode_info, lemma_discover_round_trip,
    lemma_info_round_trip, DiscoverMessage, DiscoverMessageView, InfoMessage, InfoMessageView,
};
use crate::channel::{Error, Request, RequestView};
use crate::config::{own_topic, topic, topic_name, Channel, Config, ConfigView};
use vstd::prelude::*;

verus! {

/// Where a listener stands in its life.
#[derive(Clone, Copy, Debug, PartialEq, Eq, Structural)]
pub enum ListenerState {
    /// Made, with no subscription yet.
    Created,
    /// The subscription is live and nothing has been received on it yet.
    Subscribed,
    /// In the receive loop.
    Listening,
    /// Over. A stopped listener never starts again.
    Stopped,
}

/// Mathematical model of a listener: what it was configured with and where
/// it stands.
pub struct ListenerView {
    pub config: ConfigView,
    pub state: ListenerState,
}

/// What the runtime reports to a listener.
#[derive(Debug, PartialEq, Eq)]
pub enum Event {
    /// The bus accepted the subscription.
    Subscribed,
    /// The bus refused the subscription.
    SubscribeFailed,
    /// A payload arrived on the subscription.
    Message(Vec<u8>),
    /// The subscription came to its end.
    Closed,
    /// The listener is being torn down.
    Teardown,
}

/// Mathematical model of an [`Event`].
pub enum EventView {
    Subscribed,
    SubscribeFailed,
    Message(Seq<u8>),
    Closed,
    Teardown,
}

impl View for Event {
    type V = EventView;

    open spec fn view(&self) -> EventView {
        match *self {
            Event::Subscribed => EventView::Subscribed,
            Event::SubscribeFailed => EventView::SubscribeFailed,
            Event::Message(payload) => EventView::Message(payload@),
            Event::Closed => EventView::Closed,
            Event::Teardown => EventView::Teardown,
        }
    }
}

/// What a listener asks of the runtime in answer to an event.
#[derive(Debug, PartialEq, Eq)]
pub enum Action {
    /// Enter the receive loop.
    Receive,
    /// Hand the request to the supervisor, then receive again.
    Publish(Request),
    /// Hand the description to the registry, then receive again.
    Deliver(InfoMessage),
    /// Log the error and drop the message, then receive again.
    Report(Error),
    /// Give up starting: the listener has no subscription and will have none.
    Abort(Error),
    /// Leave the receive loop and let go of the subscription.
    Halt,
    /// Nothing to do: the event has no meaning in the listener's state.
    Ignore,
}

/// Mathematical model of an [`Action`].
pub enum ActionView {
    Receive,
    Publish(RequestView),
    Deliver(InfoMessageView),
    Report(Error),
    Abort(Error),
    Halt,
    Ignore,
}

impl View for Action {
    type V = ActionView;

    open spec fn view(&self) -> ActionView {
        match *self {
            Action::Receive => ActionView::Receive,
            Action::Publish(request) => ActionView::Publish(request@),
            Action::Deliver(message) => ActionView::Deliver(message@),
            Action::Report(error) => ActionView::Report(error),
            Action::Abort(error) => ActionView::Abort(error),
            Action::Halt => ActionView::Halt,
            Action::Ignore => ActionView::Ignore,
        }
    }
}

/// What a discover listener on the node `config` asks to have published
/// when `payload` arrives: one description of the node, on the info topic
/// scoped to the node that announced itself.
pub open spec fn answer(config: ConfigView, payload: Seq<u8>) -> Result<RequestView, Error> {
    match decode_discover(payload) {
        Ok(announcement) => Ok(
            RequestView::ToTopic {
                topic: topic_name(config, Channel::Info, Some(announcement.sender)),
                payload: encode_info(InfoMessageView { node_id: config.node_id }),
            },
        ),
        Err(reason) => Err(Error::Decode(reason)),
    }
}

/// What an info listener hands on when `payload` arrives.
pub open spec fn accept(payload: Seq<u8>) -> Result<InfoMessageView, Error> {
    match decode_info(payload) {
        Ok(description) => Ok(description),
        Err(reason) => Err(Error::Decode(reason)),
    }
}

/// What a listener on `channel` does with an inbound `payload`.
pub open spec fn dispatch(channel: Channel, config: ConfigView, payload: Seq<u8>) -> ActionView {
    match channel {
        Channel::Discover | Channel::DiscoverTargeted => match answer(config, payload) {
            Ok(request) => ActionView::Publish(request),
            Err(error) => ActionView::Report(error),
        },
        Channel::Info | Channel::InfoTargeted => match accept(payload) {
            Ok(description) => ActionView::Deliver(description),
            Err(error) => ActionView::Report(error),
        },
    }
}

/// The topic that a listener on `channel` still has to be subscribed to: its
/// own topic as long as the bus has not answered, and none from then on.
pub open spec fn wanted(channel: Channel, config: ConfigView, state: ListenerState) -> Option<
    Seq<char>,
> {
    if state == ListenerState::Created {
        Some(own_topic(config, channel))
    } else {
        None
    }
}

/// The transition function of a listener on `channel`.
pub open spec fn step(
    channel: Channel,
    config: ConfigView,
    state: ListenerState,
    event: EventView,
) -> (ListenerState, ActionView) {
    match (state, event) {
        (ListenerState::Stopped, _) => (ListenerState::Stopped, ActionView::Ignore),
        (_, EventView::Teardown) => (ListenerState::Stopped, ActionView::Halt),
        (ListenerState::Created, EventView::Subscribed) => (
            ListenerState::Subscribed,
            ActionView::Receive,
        ),
        (ListenerState::Created, EventView::SubscribeFailed) => (
            ListenerState::Stopped,
            ActionView::Abort(Error::Subscribe),
        ),
        (ListenerState::Created, _) => (ListenerState::Created, ActionView::Ignore),
        (_, EventView::Message(payload)) => (
            ListenerState::Listening,
            dispatch(channel, config, payload),
        ),
        (_, EventView::Closed) => (ListenerState::Stopped, ActionView::Halt),
        (_, _) => (state, ActionView::Ignore),
    }
}

/// Says which topic to subscribe to for a listener on `channel`, if it
/// still needs its subscription.
pub fn subscription(channel: Channel, config: &Config, state: ListenerState) -> (topic: Option<
    String,
>)
    ensures
        match wanted(channel, config@, state) {
            Some(expected) => topic matches Some(found) && found@ == expected,
            None => topic is None,
        },
{
    match state {
        ListenerState::Created => Some(channel.channel_to_string(config)),
        _ => None,
    }
}

/// Answers an announcement that arrived on a discover channel.
pub fn reply(config: &Config, payload: &[u8]) -> (request: Result<Request, Error>)
    ensures
        match answer(config@, payload@) {
            Ok(expected) => request matches Ok(found) && found@ == expected,
            Err(error) => request == Err::<Request, Error>(error),
        },
{
    match DiscoverMessage::decode(payload) {
        Ok(announcement) => {
            let description = InfoMessage::new(config);
            Ok(
                Request::ToTopic {
                    topic: topic(Channel::Info, Some(announcement.sender.as_str()), config),
                    payload: description.encode(),
                },
            )
        },
        Err(reason) => Err(Error::Decode(reason)),
    }
}

/// Reads a description that arrived on an info channel.
pub fn receive(payload: &[u8]) -> (description: Result<InfoMessage, Error>)
    ensures
        match accept(payload@) {
            Ok(expected) => description matches Ok(found) && found@ == expected,
            Err(error) => description == Err::<InfoMessage, Error>(error),
        },
{
    match InfoMessage::decode(payload) {
        Ok(description) => Ok(description),
        Err(reason) => Err(Error::Decode(reason)),
    }
}

/// Advances a listener on `channel` by one event.
pub fn advance(channel: Channel, config: &Config, state: ListenerState, event: Event) -> (next: (
    ListenerState,
    Action,
))
    ensures
        next.0 == step(channel, config@, state, event@).0,
        next.1@ == step(channel, config@, state, event@).1,
{
    match state {
        ListenerState::Stopped => (ListenerState::Stopped, Action::Ignore),
        ListenerState::Created => match event {
            Event::Teardown => (ListenerState::Stopped, Action::Halt),
            Event::Subscribed => (ListenerState::Subscribed, Action::Receive),
            Event::SubscribeFailed => (ListenerState::Stopped, Action::Abort(Error::Subscribe)),
            _ => (ListenerState::Created, Action::Ignore),
        },
        _ => match event {
            Event::Teardown | Event::Closed => (ListenerState::Stopped, Action::Halt),
            Event::Message(payload) => {
                let action = match channel {
                    Channel::Discover | Channel::DiscoverTargeted => match reply(
                        config,
                        payload.as_slice(),
                    ) {
                        Ok(request) => Action::Publish(request),
                        Err(error) => Action::Report(error),
                    },
                    Channel::Info | Channel::InfoTargeted => match receive(payload.as_slice()) {
                        Ok(description) => Action::Deliver(description),
                        Err(error) => Action::Report(error),
                    },
                };
                (ListenerState::Listening, action)
            },
            _ => (state, Action::Ignore),
        },
    }
}

/// Whether `payload` is not the message that `channel` carries.
pub open spec fn malformed(channel: Channel, payload: Seq<u8>) -> bool {
    match channel {
        Channel::Discover | Channel::DiscoverTargeted => decode_discover(payload) is Err,
        Channel::Info | Channel::InfoTargeted => decode_info(payload) is Err,
    }
}

/// The payload of the message that `channel` carries, made by the node
/// `node_id`.
pub open spec fn well_formed(channel: Channel, node_id: Seq<char>) -> Seq<u8> {
    match channel {
        Channel::Discover | Channel::DiscoverTargeted => encode_discover(
            DiscoverMessageView { sender: node_id },
        ),
        Channel::Info | Channel::InfoTargeted => encode_info(InfoMessageView { node_id }),
    }
}

/// What a listener on `channel` does with the message of the node
/// `node_id`: a discover listener answers that node, an info listener hands
/// the description on.
pub open spec fn handled(channel: Channel, config: ConfigView, node_id: Seq<char>) -> ActionView {
    match channel {
        Channel::Discover | Channel::DiscoverTargeted => ActionView::Publish(
            RequestView::ToTopic {
                topic: topic_name(config, Channel::Info, Some(node_id)),
                payload: encode_info(InfoMessageView { node_id: config.node_id }),
            },
        ),
        Channel::Info | Channel::InfoTargeted => ActionView::Deliver(InfoMessageView { node_id }),
    }
}

/// A listener with a live subscription handles every well-formed message,
/// whoever sent it, and is in its receive loop afterwards.
pub proof fn lemma_well_formed_is_handled(
    channel: Channel,
    config: ConfigView,
    state: ListenerState,
    node_id: Seq<char>,
)
    requires
        state == ListenerState::Subscribed || state == ListenerState::Listening,
    ensures
        step(channel, config, state, EventView::Message(well_formed(channel, node_id))) == (
            ListenerState::Listening,
            handled(channel, config, node_id),
        ),
{
    lemma_discover_round_trip(DiscoverMessageView { sender: node_id });
    lemma_info_round_trip(InfoMessageView { node_id });
}

/// A payload that cannot be decoded is reported and dropped, and nothing
/// else comes of it: the listener stays in its receive loop and handles the
/// well-formed message that follows.
pub proof fn lemma_malformed_is_dropped(
    channel: Channel,
    config: ConfigView,
    state: ListenerState,
    payload: Seq<u8>,
    node_id: Seq<char>,
)
    requires
        state == ListenerState::Subscribed || state == ListenerState::Listening,
        malformed(channel, payload),
    ensures
        ({
            let dropped = step(channel, config, state, EventView::Message(payload));
            &&& dropped.0 == ListenerState::Listening
            &&& dropped.1 is Report
            &&& dropped.1->Report_0 is Decode
            &&& step(
                channel,
                config,
                dropped.0,
                EventView::Message(well_formed(channel, node_id)),
            ) == (ListenerState::Listening, handled(channel, config, node_id))
        }),
{
    lemma_well_formed_is_handled(channel, config, ListenerState::Listening, node_id);
}

/// A stopped listener stays stopped and asks for nothing, whatever is
/// reported to it.
pub proof fn lemma_stopped_is_final(channel: Channel, config: ConfigView, event: EventView)
    ensures
        step(channel, config, ListenerState::Stopped, event) == (
            ListenerState::Stopped,
            ActionView::Ignore,
        ),
{
}

/// A listener stops only when its subscription ends, when it is torn down,
/// or when it could not subscribe in the first place. No message stops it.
pub proof fn lemma_stops_only_when_told(
    channel: Channel,
    config: ConfigView,
    state: ListenerState,
    event: EventView,
)
    requires
        state != ListenerState::Stopped,
        step(channel, config, state, event).0 == ListenerState::Stopped,
    ensures
        event is Closed || event is Teardown || (state == ListenerState::Created
            && event is SubscribeFailed),
{
}

/// A listener takes one subscription in its life: it enters the receive
/// loop only from its first state, never returns to that state, and wants
/// no subscription once it has left it.
pub proof fn lemma_subscribes_once(
    channel: Channel,
    config: ConfigView,
    state: ListenerState,
    event: EventView,
)
    ensures
        step(channel, config, state, event).1 is Receive ==> state == ListenerState::Created
            && event is Subscribed,
        step(channel, config, state, event).0 == ListenerState::Subscribed ==> state
            == ListenerState::Created || state == ListenerState::Subscribed,
        step(channel, config, state, event).0 == ListenerState::Created ==> state
            == ListenerState::Created,
        wanted(channel, config, state) is None ==> wanted(
            channel,
            config,
            step(channel, config, state, event).0,
        ) is None,
{
}

} // verus!
