//! Node configuration and topic naming.

use vstd::prelude::*;
use vstd::string::*;

verus! {

/// What a node is configured with: its identity and how topics are spelled.
#[derive(Debug, PartialEq, Eq)]
pub struct Config {
    /// Identifier of this node, stable for the lifetime of the process.
    pub node_id: String,
    /// Leading part shared by every topic of the deployment.
    pub prefix: String,
    /// Text placed between the parts of a topic.
    pub separator: String,
}

/// Mathematical model of a [`Config`].
pub struct ConfigView {
    pub node_id: Seq<char>,
    pub prefix: Seq<char>,
    pub separator: Seq<char>,
}

impl View for Config {
    type V = ConfigView;

    open spec fn view(&self) -> ConfigView {
        ConfigView { node_id: self.node_id@, prefix: self.prefix@, separator: self.separator@ }
    }
}

impl Config {
    /// Builds a configuration from its three parts.
    pub fn new(node_id: &str, prefix: &str, separator: &str) -> (config: Config)
        ensures
            config@.node_id == node_id@,
            config@.prefix == prefix@,
            config@.separator == separator@,
    {
        Config {
            node_id: String::from_str(node_id),
            prefix: String::from_str(prefix),
            separator: String::from_str(separator),
        }
    }
}

impl Clone for Config {
    fn clone(&self) -> (copy: Config)
        ensures
            copy@ == self@,
    {
        Config {
            node_id: self.node_id.clone(),
            prefix: self.prefix.clone(),
            separator: self.separator.clone(),
        }
    }
}

/// The four logical channels of the protocol.
#[derive(Clone, Copy, Debug, PartialEq, Eq, Structural)]
pub enum Channel {
    /// Announcements addressed to every node.
    Discover,
    /// Discovery requests addressed to one node only.
    DiscoverTargeted,
    /// Node information addressed to every node.
    Info,
    /// Node information addressed to the node that asked for it.
    InfoTargeted,
}

/// Name of a channel without any node suffix. The two info channels share
/// one name: they differ only in the suffix that scopes a topic to a node.
pub open spec fn channel_name(config: ConfigView, channel: Channel) -> Seq<char> {
    match channel {
        Channel::Discover => config.prefix + config.separator + "discover"@,
        Channel::DiscoverTargeted => config.prefix + config.separator + "discover"@
            + config.separator + "targeted"@,
        Channel::Info | Channel::InfoTargeted => config.prefix + config.separator + "info"@,
    }
}

/// Topic of a channel, scoped to the node `suffix` when one is given.
pub open spec fn topic_name(config: ConfigView, channel: Channel, suffix: Option<Seq<char>>) -> Seq<
    char,
> {
    match suffix {
        Some(node_id) => channel_name(config, channel) + config.separator + node_id,
        None => channel_name(config, channel),
    }
}

/// Topic on which a node listens for a channel: the channel's own name, and
/// for targeted info the name scoped to the node itself.
pub open spec fn own_topic(config: ConfigView, channel: Channel) -> Seq<char> {
    match channel {
        Channel::InfoTargeted => topic_name(config, channel, Some(config.node_id)),
        _ => topic_name(config, channel, None),
    }
}

/// Computes the topic of `channel`, scoped to `suffix` when one is given.
pub fn topic(channel: Channel, suffix: Option<&str>, config: &Config) -> (name: String)
    ensures
        name@ == topic_name(
            config@,
            channel,
            match suffix {
                Some(node_id) => Some(node_id@),
                None => None,
            },
        ),
{
    let mut name = config.prefix.clone();
    name.append(config.separator.as_str());
    match channel {
        Channel::Discover => {
            name.append("discover");
        },
        Channel::DiscoverTargeted => {
            name.append("discover");
            name.append(config.separator.as_str());
            name.append("targeted");
        },
        Channel::Info | Channel::InfoTargeted => {
            name.append("info");
        },
    }
    match suffix {
        Some(node_id) => {
            name.append(config.separator.as_str());
            name.append(node_id);
        },
        None => {},
    }
    name
}

/// Two nodes never share a scoped topic: what differs in the node
/// identifier differs in the topic.
pub proof fn lemma_topic_injective(
    config: ConfigView,
    channel: Channel,
    a: Seq<char>,
    b: Seq<char>,
)
    requires
        a != b,
    ensures
        topic_name(config, channel, Some(a)) != topic_name(config, channel, Some(b)),
{
    let stem = channel_name(config, channel) + config.separator;
    let len = stem.len() as int;
    assert((stem + a).subrange(len, len + a.len()) =~= a);
    assert((stem + b).subrange(len, len + b.len()) =~= b);
    if stem + a == stem + b {
        assert(a.len() == b.len());
        assert(a =~= b);
    }
}

/// Two nodes of one deployment never listen for targeted info on the same
/// topic.
pub proof fn lemma_reply_topics_differ(a: ConfigView, b: ConfigView)
    requires
        a.prefix == b.prefix,
        a.separator == b.separator,
        a.node_id != b.node_id,
    ensures
        own_topic(a, Channel::InfoTargeted) != own_topic(b, Channel::InfoTargeted),
{
    lemma_topic_injective(a, Channel::InfoTargeted, a.node_id, b.node_id);
}

/// On one node no two listeners share a topic, as long as the separator
/// and the node identifier are not both empty.
pub proof fn lemma_own_topics_differ(config: ConfigView, a: Channel, b: Channel)
    requires
        a != b,
        config.separator.len() + config.node_id.len() > 0,
    ensures
        own_topic(config, a) != own_topic(config, b),
{
    reveal_strlit("discover");
    reveal_strlit("targeted");
    reveal_strlit("info");
    let at = (config.prefix + config.separator).len() as int;
    assert(own_topic(config, Channel::Discover)[at] == 'd');
    assert(own_topic(config, Channel::DiscoverTargeted)[at] == 'd');
    assert(own_topic(config, Channel::Info)[at] == 'i');
    assert(own_topic(config, Channel::InfoTargeted)[at] == 'i');
}

impl Channel {
    /// Computes the topic on which the node configured by `config` listens
    /// for this channel.
    pub fn channel_to_string(&self, config: &Config) -> (name: String)
        ensures
            name@ == own_topic(config@, *self),
    {
        match self {
            Channel::InfoTargeted => topic(*self, Some(config.node_id.as_str()), config),
            _ => topic(*self, None, config),
        }
    }
}

} // verus!
