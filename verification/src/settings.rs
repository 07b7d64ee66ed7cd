//! The settings of the broker's clients, for a plain local broker and for a
//! hosted one that asks for SASL over TLS.

use vstd::prelude::*;

verus! {

/// Where the process runs.
#[derive(Clone, Copy, Debug, PartialEq, Eq, Structural)]
pub enum Profile {
    /// A local broker without authentication.
    Local,
    /// A hosted broker with SASL over TLS.
    Hosted,
}

/// One setting of a client: a key and its value.
#[derive(Debug)]
pub struct Setting {
    pub key: String,
    pub value: String,
}

impl View for Setting {
    type V = (Seq<char>, Seq<char>);

    open spec fn view(&self) -> (Seq<char>, Seq<char>) {
        (self.key@, self.value@)
    }
}

/// The settings of a list, each as a pair of texts.
pub open spec fn pairs(list: Seq<Setting>) -> Seq<(Seq<char>, Seq<char>)> {
    Seq::new(list.len(), |i: int| list[i]@)
}

/// The three settings of SASL over TLS that producer and consumer share,
/// behind the address.
pub open spec fn hosted_head(url: Seq<char>, user: Seq<char>, password: Seq<char>) -> Seq<
    (Seq<char>, Seq<char>),
> {
    seq![
        ("bootstrap.servers"@, url),
        ("sasl.mechanism"@, "SCRAM-SHA-256"@),
        ("security.protocol"@, "SASL_SSL"@),
        ("sasl.username"@, user),
        ("sasl.password"@, password),
    ]
}

/// The settings of the producer for a local broker.
pub open spec fn local_producer(url: Seq<char>) -> Seq<(Seq<char>, Seq<char>)> {
    seq![
        ("bootstrap.servers"@, url),
        ("message.timeout.ms"@, "5000"@),
        ("allow.auto.create.topics"@, "true"@),
    ]
}

/// The settings of the producer for a hosted broker.
pub open spec fn hosted_producer(url: Seq<char>, user: Seq<char>, password: Seq<char>) -> Seq<
    (Seq<char>, Seq<char>),
> {
    hosted_head(url, user, password).push(("message.timeout.ms"@, "5000"@))
}

/// The settings of the consumer for a local broker. Offsets are committed by
/// the client on its own schedule, but stored only when the consumer says
/// so.
pub open spec fn local_consumer(url: Seq<char>) -> Seq<(Seq<char>, Seq<char>)> {
    seq![
        ("group.id"@, "ngao-lim"@),
        ("bootstrap.servers"@, url),
        ("enable.partition.eof"@, "false"@),
        ("session.timeout.ms"@, "6000"@),
        ("enable.auto.commit"@, "true"@),
        ("enable.auto.offset.store"@, "false"@),
    ]
}

/// The settings of the consumer for a hosted broker. As for a local one,
/// offsets are stored only when the consumer says so.
pub open spec fn hosted_consumer(url: Seq<char>, user: Seq<char>, password: Seq<char>) -> Seq<
    (Seq<char>, Seq<char>),
> {
    hosted_head(url, user, password).push(("group.id"@, "hello"@)).push(
        ("enable.partition.eof"@, "false"@),
    ).push(("session.timeout.ms"@, "6000"@)).push(("enable.auto.commit"@, "true"@)).push(
        ("enable.auto.offset.store"@, "false"@),
    )
}

fn put(list: &mut Vec<Setting>, key: &str, value: &str)
    ensures
        final(list)@.len() == old(list)@.len() + 1,
        pairs(final(list)@) == pairs(old(list)@).push((key@, value@)),
{
    list.push(Setting { key: key.to_owned(), value: value.to_owned() });
    assert(pairs(list@) =~= pairs(old(list)@).push((key@, value@)));
}

fn hosted_start(url: &str, user: &str, password: &str) -> (r: Vec<Setting>)
    ensures
        pairs(r@) == hosted_head(url@, user@, password@),
{
    let mut list: Vec<Setting> = Vec::new();
    assert(pairs(list@) =~= Seq::empty());
    put(&mut list, "bootstrap.servers", url);
    put(&mut list, "sasl.mechanism", "SCRAM-SHA-256");
    put(&mut list, "security.protocol", "SASL_SSL");
    put(&mut list, "sasl.username", user);
    put(&mut list, "sasl.password", password);
    assert(pairs(list@) =~= hosted_head(url@, user@, password@));
    list
}

/// The producer's settings for a local broker at `url`.
pub fn producer_settings(url: &str) -> (r: Vec<Setting>)
    ensures
        pairs(r@) == local_producer(url@),
{
    let mut list: Vec<Setting> = Vec::new();
    assert(pairs(list@) =~= Seq::empty());
    put(&mut list, "bootstrap.servers", url);
    put(&mut list, "message.timeout.ms", "5000");
    put(&mut list, "allow.auto.create.topics", "true");
    assert(pairs(list@) =~= local_producer(url@));
    list
}

/// The producer's settings for a hosted broker at `url`.
pub fn producer_settings_hosted(url: &str, user: &str, password: &str) -> (r: Vec<Setting>)
    ensures
        pairs(r@) == hosted_producer(url@, user@, password@),
{
    let mut list = hosted_start(url, user, password);
    put(&mut list, "message.timeout.ms", "5000");
    list
}

/// The consumer's settings for a local broker at `url`.
pub fn consumer_settings(url: &str) -> (r: Vec<Setting>)
    ensures
        pairs(r@) == local_consumer(url@),
{
    let mut list: Vec<Setting> = Vec::new();
    assert(pairs(list@) =~= Seq::empty());
    put(&mut list, "group.id", "ngao-lim");
    put(&mut list, "bootstrap.servers", url);
    put(&mut list, "enable.partition.eof", "false");
    put(&mut list, "session.timeout.ms", "6000");
    put(&mut list, "enable.auto.commit", "true");
    put(&mut list, "enable.auto.offset.store", "false");
    assert(pairs(list@) =~= local_consumer(url@));
    list
}

/// The consumer's settings for a hosted broker at `url`.
pub fn consumer_settings_hosted(url: &str, user: &str, password: &str) -> (r: Vec<Setting>)
    ensures
        pairs(r@) == hosted_consumer(url@, user@, password@),
{
    let mut list = hosted_start(url, user, password);
    put(&mut list, "group.id", "hello");
    put(&mut list, "enable.partition.eof", "false");
    put(&mut list, "session.timeout.ms", "6000");
    put(&mut list, "enable.auto.commit", "true");
    put(&mut list, "enable.auto.offset.store", "false");
    list
}

/// The producer's settings for a profile: the local list for a local
/// broker; the hosted list for a hosted broker that has both credentials;
/// none for a hosted broker that lacks one.
pub fn producer_settings_for(
    profile: Profile,
    url: &str,
    user: Option<&str>,
    password: Option<&str>,
) -> (r: Option<Vec<Setting>>)
    ensures
        match profile {
            Profile::Local => r matches Some(x) && pairs(x@) == local_producer(url@),
            Profile::Hosted => match (user, password) {
                (Some(u), Some(p)) => r matches Some(x) && pairs(x@) == hosted_producer(
                    url@,
                    u@,
                    p@,
                ),
                _ => r is None,
            },
        },
{
    match profile {
        Profile::Local => Some(producer_settings(url)),
        Profile::Hosted => match (user, password) {
            (Some(u), Some(p)) => Some(producer_settings_hosted(url, u, p)),
            _ => None,
        },
    }
}

/// The consumer's settings for a profile: the local list for a local
/// broker; the hosted list for a hosted broker that has both credentials;
/// none for a hosted broker that lacks one.
pub fn consumer_settings_for(
    profile: Profile,
    url: &str,
    user: Option<&str>,
    password: Option<&str>,
) -> (r: Option<Vec<Setting>>)
    ensures
        match profile {
            Profile::Local => r matches Some(x) && pairs(x@) == local_consumer(url@),
            Profile::Hosted => match (user, password) {
                (Some(u), Some(p)) => r matches Some(x) && pairs(x@) == hosted_consumer(
                    url@,
                    u@,
                    p@,
                ),
                _ => r is None,
            },
        },
{
    match profile {
        Profile::Local => Some(consumer_settings(url)),
        Profile::Hosted => match (user, password) {
            (Some(u), Some(p)) => Some(consumer_settings_hosted(url, u, p)),
            _ => None,
        },
    }
}

} // verus!
