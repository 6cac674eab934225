//! The discovery channels: messages, listeners and their supervisor.

pub mod discover;
pub mod info;
pub mod listener;
pub mod messages;

use crate::channel::discover::Discover;
use crate::channel::messages::{encode_discover, DecodeError, DiscoverMessageView};
use crate::config::{own_topic, Channel, Config, ConfigView};
use vstd::prelude::*;

verus! {

/// What can go wrong on a channel.
#[derive(Clone, Copy, Debug, PartialEq, Eq, Structural)]
pub enum Error {
    /// An inbound payload is not the message that the channel carries.
    Decode(DecodeError),
    /// The bus refused the subscription a listener needs.
    Subscribe,
    /// The bus refused or failed a publication.
    Publish,
}

/// What a listener asks the supervisor to publish. Listeners never publish
/// by themselves.
#[derive(Debug, PartialEq, Eq)]
pub enum Request {
    /// Publish on the topic of a channel.
    ToChannel { channel: Channel, payload: Vec<u8> },
    /// Publish on a topic given by name.
    ToTopic { topic: String, payload: Vec<u8> },
}

/// Mathematical model of a [`Request`].
pub enum RequestView {
    ToChannel { channel: Channel, payload: Seq<u8> },
    ToTopic { topic: Seq<char>, payload: Seq<u8> },
}

impl View for Request {
    type V = RequestView;

    open spec fn view(&self) -> RequestView {
        match *self {
            Request::ToChannel { channel, payload } => RequestView::ToChannel {
                channel,
                payload: payload@,
            },
            Request::ToTopic { topic, payload } => RequestView::ToTopic {
                topic: topic@,
                payload: payload@,
            },
        }
    }
}

/// One publication as the bus takes it.
#[derive(Debug, PartialEq, Eq)]
pub struct Outbound {
    /// Where to publish.
    pub topic: String,
    /// What to publish.
    pub payload: Vec<u8>,
}

/// Mathematical model of an [`Outbound`].
pub struct OutboundView {
    pub topic: Seq<char>,
    pub payload: Seq<u8>,
}

impl View for Outbound {
    type V = OutboundView;

    open spec fn view(&self) -> OutboundView {
        OutboundView { topic: self.topic@, payload: self.payload@ }
    }
}

/// The publication that answers `request` on a node configured by `config`.
pub open spec fn route(config: ConfigView, request: RequestView) -> OutboundView {
    match request {
        RequestView::ToChannel { channel, payload } => OutboundView {
            topic: own_topic(config, channel),
            payload,
        },
        RequestView::ToTopic { topic, payload } => OutboundView { topic, payload },
    }
}

/// The only gateway to the bus for what the listeners of a node want
/// published: it decides the topic of every publication.
pub struct ChannelSupervisor {
    config: Config,
}

impl View for ChannelSupervisor {
    type V = ConfigView;

    closed spec fn view(&self) -> ConfigView {
        self.config@
    }
}

impl ChannelSupervisor {
    /// The supervisor of the node that `config` configures.
    pub fn new(config: &Config) -> (supervisor: ChannelSupervisor)
        ensures
            supervisor@ == config@,
    {
        ChannelSupervisor { config: config.clone() }
    }

    /// The configuration the supervisor was made with.
    pub fn config(&self) -> (config: &Config)
        ensures
            config@ == self@,
    {
        &self.config
    }

    /// Publishes `payload` on the topic of `channel`.
    pub fn publish(&self, channel: Channel, payload: Vec<u8>) -> (outbound: Outbound)
        ensures
            outbound@ == route(self@, (RequestView::ToChannel { channel, payload: payload@ })),
    {
        Outbound { topic: channel.channel_to_string(&self.config), payload }
    }

    /// Publishes `payload` on the topic named `topic`.
    pub fn publish_to_channel(&self, topic: String, payload: Vec<u8>) -> (outbound: Outbound)
        ensures
            outbound@ == route(self@, (RequestView::ToTopic { topic: topic@, payload: payload@ })),
    {
        Outbound { topic, payload }
    }

    /// What to publish when the node starts: its announcement if `announce`
    /// is set, so that a node that has just joined is known at once, and
    /// nothing otherwise.
    pub fn start(&self, announce: bool) -> (outbound: Option<Outbound>)
        ensures
            match outbound {
                Some(publication) => announce && publication@ == route(
                    self@,
                    (RequestView::ToChannel {
                        channel: Channel::Discover,
                        payload: encode_discover(DiscoverMessageView { sender: self@.node_id }),
                    }),
                ),
                None => !announce,
            },
    {
        if announce {
            Some(self.forward(Discover::new(&self.config).broadcast()))
        } else {
            None
        }
    }

    /// Turns what a listener asked for into the publication for the bus.
    pub fn forward(&self, request: Request) -> (outbound: Outbound)
        ensures
            outbound@ == route(self@, request@),
    {
        match request {
            Request::ToChannel { channel, payload } => self.publish(channel, payload),
            Request::ToTopic { topic, payload } => self.publish_to_channel(topic, payload),
        }
    }
}

} // verus!
