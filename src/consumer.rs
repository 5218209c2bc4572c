//! Publishing targets and consumer configuration for nsqd.

use vstd::prelude::*;
use std::sync::Arc;
use tokio_nsq::{NSQChannel, NSQConsumerConfig, NSQConsumerConfigSources, NSQTopic};
use crate::err::EventfulError;
use crate::nsq::Daemon;
use crate::text::views;

verus! {

/// Declares tokio-nsq's validated topic name, carried into a consumer configuration.
#[verifier::external_type_specification]
#[verifier::external_body]
pub struct ExNSQTopic(NSQTopic);

/// Declares tokio-nsq's validated channel name, carried into a consumer configuration.
#[verifier::external_type_specification]
#[verifier::external_body]
pub struct ExNSQChannel(NSQChannel);

/// Declares tokio-nsq's consumer configuration, which the caller builds into a consumer.
#[verifier::external_type_specification]
#[verifier::external_body]
pub struct ExNSQConsumerConfig(NSQConsumerConfig);

/// Declares tokio-nsq's list of places where a consumer finds daemons.
#[verifier::external_type_specification]
#[verifier::external_body]
pub struct ExNSQConsumerConfigSources(NSQConsumerConfigSources);

/// A type whose values are published as events to one nsqd topic.
pub trait EventNSQ {
    /// The topic, fixed for the type.
    fn topic() -> &'static str;
}

pub open spec fn pub_path() -> Seq<char> {
    seq!['/', 'p', 'u', 'b', '?', 't', 'o', 'p', 'i', 'c', '=']
}

/// The URL at which a daemon whose publish URL is `url` takes events for `topic`.
pub open spec fn topic_url_of(url: Seq<char>, topic: Seq<char>) -> Seq<char> {
    url + pub_path() + topic
}

/// Writes `<url>/pub?topic=<topic>`, where an event is posted as a JSON body.
pub fn topic_url(url: &str, topic: &str) -> (r: String)
    ensures
        r@ == topic_url_of(url@, topic@),
{
    proof { reveal_strlit("/pub?topic="); }
    let mut r = String::from_str(url);
    r.append("/pub?topic=");
    r.append(topic);
    r
}

/// A character that nsqd accepts in a topic or channel name.
pub open spec fn name_char(c: char) -> bool {
    c == '.' || c == '_' || c == '-' || ('a' <= c && c <= 'z') || ('A' <= c && c <= 'Z')
        || ('0' <= c && c <= '9')
}

pub open spec fn name_chars(s: Seq<char>) -> bool {
    s.len() > 0 && forall|i: int| 0 <= i < s.len() ==> #[trigger] name_char(s[i])
}

pub open spec fn ephemeral_suffix() -> Seq<char> {
    seq!['#', 'e', 'p', 'h', 'e', 'm', 'e', 'r', 'a', 'l']
}

/// A valid topic or channel name: 1 to 64 name characters, optionally
/// followed by `#ephemeral`, 64 characters in all at most.
pub open spec fn nsq_name_ok(s: Seq<char>) -> bool {
    &&& s.len() <= 64
    &&& {
        ||| name_chars(s)
        ||| s.len() > 10 && s.subrange(s.len() - 10, s.len() as int) == ephemeral_suffix()
            && name_chars(s.subrange(0, s.len() - 10))
    }
}

/// The name that a validated topic holds.
pub uninterp spec fn topic_text(t: NSQTopic) -> Seq<char>;

/// The name that a validated channel holds.
pub uninterp spec fn channel_text(c: NSQChannel) -> Seq<char>;

/// The daemon addresses that a list of consumer sources names, when it is
/// an explicit list of daemons.
pub uninterp spec fn daemon_list(s: NSQConsumerConfigSources) -> Option<Seq<Seq<char>>>;

/// The topic that a consumer configuration reads.
pub uninterp spec fn config_topic(c: NSQConsumerConfig) -> Seq<char>;

/// The channel that a consumer configuration joins.
pub uninterp spec fn config_channel(c: NSQConsumerConfig) -> Seq<char>;

/// How many unacknowledged messages a consumer configuration allows.
pub uninterp spec fn config_max_in_flight(c: NSQConsumerConfig) -> u32;

/// The daemon addresses that a consumer configuration reads from, when its
/// sources are an explicit list of daemons.
pub uninterp spec fn config_daemons(c: NSQConsumerConfig) -> Option<Seq<Seq<char>>>;

/// Relies on tokio_nsq::NSQTopic::new: `Some` exactly when the name matches
/// `^[\.a-zA-Z0-9_-]+(#ephemeral)?$` and is 1 to 64 bytes long; the topic
/// then holds the name as given.
#[verifier::external_body]
fn topic_name(s: &str) -> (r: Option<Arc<NSQTopic>>)
    ensures
        r is Some <==> nsq_name_ok(s@),
        r matches Some(t) ==> topic_text(*t) == s@,
{
    NSQTopic::new(s)
}

/// Relies on tokio_nsq::NSQChannel::new: the same rule as for topics; the
/// channel then holds the name as given.
#[verifier::external_body]
fn channel_name(s: &str) -> (r: Option<Arc<NSQChannel>>)
    ensures
        r is Some <==> nsq_name_ok(s@),
        r matches Some(c) ==> channel_text(*c) == s@,
{
    NSQChannel::new(s)
}

/// Relies on tokio_nsq::NSQConsumerConfig::new: a configuration for the
/// topic and channel, one message in flight, and an empty list of daemons.
#[verifier::external_body]
fn new_config(topic: Arc<NSQTopic>, channel: Arc<NSQChannel>) -> (r: NSQConsumerConfig)
    ensures
        config_topic(r) == topic_text(*topic),
        config_channel(r) == channel_text(*channel),
        config_max_in_flight(r) == 1,
        config_daemons(r) == Some(Seq::<Seq<char>>::empty()),
{
    NSQConsumerConfig::new(topic, channel)
}

/// Relies on tokio_nsq::NSQConsumerConfig::set_max_in_flight: it sets the
/// bound and changes nothing else.
#[verifier::external_body]
fn set_max_in_flight(config: NSQConsumerConfig, n: u32) -> (r: NSQConsumerConfig)
    ensures
        config_max_in_flight(r) == n,
        config_topic(r) == config_topic(config),
        config_channel(r) == config_channel(config),
        config_daemons(r) == config_daemons(config),
{
    config.set_max_in_flight(n)
}

/// Relies on tokio_nsq::NSQConsumerConfig::set_sources: it replaces the
/// sources and changes nothing else.
#[verifier::external_body]
fn set_sources(config: NSQConsumerConfig, sources: NSQConsumerConfigSources) -> (r: NSQConsumerConfig)
    ensures
        config_daemons(r) == daemon_list(sources),
        config_topic(r) == config_topic(config),
        config_channel(r) == config_channel(config),
        config_max_in_flight(r) == config_max_in_flight(config),
{
    config.set_sources(sources)
}

/// Relies on tokio_nsq::NSQConsumerConfigSources::Daemons: an explicit list
/// of daemon addresses, kept as given.
#[verifier::external_body]
fn daemon_sources(addresses: Vec<String>) -> (r: NSQConsumerConfigSources)
    ensures
        daemon_list(r) == Some(views(addresses@)),
{
    NSQConsumerConfigSources::Daemons(addresses)
}

/// The maximum number of unacknowledged messages for correctness-first use:
/// one at a time, so that messages complete in the order delivered.
pub const DEFAULT_MAX_IN_FLIGHT: u32 = 1;

/// The maximum number of unacknowledged messages for throughput-oriented use;
/// messages may then complete out of order.
pub const THROUGHPUT_MAX_IN_FLIGHT: u32 = 15;

/// How a consumer session reads one topic: the channel (consumer group) it
/// joins and how many messages may be in flight at once.
pub struct ChannelConsumer {
    pub channel: String,
    pub max_in_flight: u32,
}

/// What a consumer configuration is refused for, if anything: the topic
/// first, then the channel.
pub open spec fn consumer_problem(topic: Seq<char>, channel: Seq<char>) -> Option<Seq<char>> {
    if !nsq_name_ok(topic) {
        Some(topic)
    } else if !nsq_name_ok(channel) {
        Some(channel)
    } else {
        None
    }
}

impl ChannelConsumer {
    /// A consumer on `channel` with one message in flight at a time.
    pub fn new(channel: &str) -> (r: ChannelConsumer)
        ensures
            r.channel@ == channel@,
            r.max_in_flight == DEFAULT_MAX_IN_FLIGHT,
    {
        ChannelConsumer { channel: String::from_str(channel), max_in_flight: DEFAULT_MAX_IN_FLIGHT }
    }

    /// A consumer on `channel` tuned for throughput.
    pub fn for_throughput(channel: &str) -> (r: ChannelConsumer)
        ensures
            r.channel@ == channel@,
            r.max_in_flight == THROUGHPUT_MAX_IN_FLIGHT,
    {
        ChannelConsumer { channel: String::from_str(channel), max_in_flight: THROUGHPUT_MAX_IN_FLIGHT }
    }

    /// The same consumer with `n` messages in flight at most.
    pub fn with_max_in_flight(self, n: u32) -> (r: ChannelConsumer)
        ensures
            r.channel == self.channel,
            r.max_in_flight == n,
    {
        ChannelConsumer { channel: self.channel, max_in_flight: n }
    }

    /// The consume addresses of `daemons`, in order.
    pub fn addresses(&self, daemons: &[&Daemon]) -> (r: Vec<String>)
        ensures
            views(r@) == daemons@.map_values(|d: &Daemon| d.cons_address@),
    {
        let mut r: Vec<String> = Vec::new();
        let mut i: usize = 0;
        while i < daemons.len()
            invariant
                i <= daemons@.len(),
                views(r@) == daemons@.take(i as int).map_values(|d: &Daemon| d.cons_address@),
            decreases daemons@.len() - i,
        {
            let ghost before = r@;
            r.push(daemons[i].cons_address.clone());
            assert(views(r@) =~= views(before).push(daemons@[i as int].cons_address@));
            assert(daemons@.take(i as int + 1).map_values(|d: &Daemon| d.cons_address@)
                =~= daemons@.take(i as int).map_values(|d: &Daemon| d.cons_address@).push(daemons@[i as int].cons_address@));
            i = i + 1;
        }
        assert(daemons@.take(i as int) =~= daemons@);
        r
    }

    /// Where the consumer finds its daemons: each of `daemons`, by its consume address.
    pub fn config_source(&self, daemons: &[&Daemon]) -> (r: NSQConsumerConfigSources)
        ensures
            daemon_list(r) == Some(daemons@.map_values(|d: &Daemon| d.cons_address@)),
    {
        daemon_sources(self.addresses(daemons))
    }

    /// The configuration of a consumer session on `topic` that joins this
    /// channel, allows this many messages in flight and reads from the
    /// consume address of each of `daemons`, in order. Nothing is connected
    /// yet. Fails with a configuration error naming the topic
    /// or the channel, whichever comes first, when it is not a valid name.
    pub fn consumer_config(&self, topic: &str, daemons: &[&Daemon]) -> (r: Result<NSQConsumerConfig, EventfulError>)
        ensures
            r is Ok <==> consumer_problem(topic@, self.channel@) is None,
            r matches Err(e) ==> e.config_text() == consumer_problem(topic@, self.channel@),
            r matches Ok(c) ==> {
                &&& config_topic(c) == topic@
                &&& config_channel(c) == self.channel@
                &&& config_max_in_flight(c) == self.max_in_flight
                &&& config_daemons(c) == Some(daemons@.map_values(|d: &Daemon| d.cons_address@))
            },
    {
        let t = match topic_name(topic) {
            Some(t) => t,
            None => return Err(EventfulError::Config(String::from_str(topic))),
        };
        let c = match channel_name(self.channel.as_str()) {
            Some(c) => c,
            None => return Err(EventfulError::Config(self.channel.clone())),
        };
        let config = new_config(t, c);
        let config = set_max_in_flight(config, self.max_in_flight);
        Ok(set_sources(config, self.config_source(daemons)))
    }
}

} // verus!
