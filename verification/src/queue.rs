//! The message and the settings of the durable queue that carries it.

use vstd::prelude::*;
use vstd::string::{StrSliceExecFns, StringExecFns};

use crate::config::Config;
use crate::decimal::{parse_u8, parse_u8_spec};
use crate::message::{Claim, Payload, PayloadView};
use crate::poller::PollerSettings;
use crate::trace_context::PropertiesView;

verus! {

/// Seconds for which a polled message stays hidden from further polls, unless
/// configured otherwise.
pub const DEFAULT_TIME_TO_PROCESS: u64 = 300;

/// Seconds by which the visibility timeout of a message is extended after
/// its handler failed.
pub const RETRY_DELAY: u64 = 10;

/// Seconds between two polls of the store.
pub const POLL_INTERVAL: u64 = 1;

/// The number of workers, and the capacity of the channel that feeds them,
/// unless configured otherwise.
pub const DEFAULT_PARALLEL_MESSAGES: usize = 2;

/// The port of a Redis server, unless the data source name gives one.
pub const DEFAULT_PORT: u16 = 6379;

/// The unit of work.
///
/// The queue never looks into `payload` or `claim` and never changes any
/// field: what a worker receives is what the producer sent.
#[derive(Debug, PartialEq, Eq)]
pub struct Message {
    pub id: u128,
    pub properties: Vec<(String, String)>,
    pub payload: Payload,
    pub claim: Claim,
}

/// The mathematical value of a [`Message`].
pub struct MessageView {
    pub id: u128,
    pub properties: PropertiesView,
    pub payload: PayloadView,
    pub claim: Claim,
}

impl View for Message {
    type V = MessageView;

    open spec fn view(&self) -> MessageView {
        MessageView {
            id: self.id,
            properties: self.properties.deep_view(),
            payload: self.payload@,
            claim: self.claim,
        }
    }
}

impl Clone for Message {
    fn clone(&self) -> (copy: Message)
        ensures
            copy@ == self@,
    {
        let mut properties: Vec<(String, String)> = Vec::new();
        let mut i: usize = 0;
        while i < self.properties.len()
            invariant
                i <= self.properties.len(),
                properties@.len() == i,
                properties.deep_view() == self.properties.deep_view().take(i as int),
            decreases self.properties.len() - i,
        {
            let ghost before = properties@;
            properties.push((self.properties[i].0.clone(), self.properties[i].1.clone()));
            proof {
                let wanted = self.properties.deep_view().take(i as int + 1);
                assert forall|j: int| 0 <= j < wanted.len() implies properties.deep_view()[j]
                    == wanted[j] by {
                    if j < i {
                        assert(properties@[j] == before[j]);
                        assert(self.properties.deep_view().take(i as int)[j] == wanted[j]);
                    }
                }
                assert(properties.deep_view() =~= wanted);
            }
            i += 1;
        }
        proof {
            assert(self.properties.deep_view().take(i as int) =~= self.properties.deep_view());
        }
        Message { id: self.id, properties, payload: self.payload.clone(), claim: self.claim }
    }
}

/// One delivery of a message: the message together with the receipt handle
/// that the store gave to this delivery. The handle is what a worker needs
/// to delete the message or to extend its visibility timeout.
#[derive(Debug, PartialEq, Eq)]
pub struct Delivery<R> {
    pub receipt: R,
    pub message: Message,
}

/// How to reach the Redis server that holds the queue.
#[derive(Debug, PartialEq, Eq)]
pub struct StoreOptions {
    pub host: String,
    pub port: u16,
    /// The number of the database on the server.
    pub db: u8,
    /// Whether the store announces new messages to its clients.
    pub realtime: bool,
    pub username: Option<String>,
    pub password: Option<String>,
    /// The namespace that separates this service's queues from others.
    pub ns: String,
    /// The largest number of connections kept open at a time.
    pub max_connections: u32,
}

/// The configuration does not describe a queue.
#[derive(Debug, PartialEq, Eq)]
pub enum ConfigError {
    /// The path of the data source name is not the number of a database.
    InvalidDatabase(String),
}

/// The queue in Redis: where it is and how it is worked.
#[derive(Debug, PartialEq, Eq)]
pub struct Redis {
    pub options: StoreOptions,
    pub queue_name: String,
    /// Seconds for which a polled message stays hidden from further polls.
    pub time_to_process: u64,
    /// The number of workers, and the capacity of the channel before them.
    pub maximum_parallel_messages: usize,
}

/// The text after the first character of `path`: the name of the database
/// in the path of a data source name.
pub open spec fn database_name(path: Seq<char>) -> Seq<char> {
    if path.len() == 0 {
        path
    } else {
        path.skip(1)
    }
}

impl Redis {
    /// Whether `self` is the queue that `config` describes.
    pub open spec fn describes(&self, config: &Config) -> bool {
        &&& config.redis_dsn.host matches Some(host) && self.options.host@ == host@
        &&& self.options.port == match config.redis_dsn.port {
            Some(port) => port,
            None => DEFAULT_PORT,
        }
        &&& parse_u8_spec(database_name(config.redis_dsn.path@)) == Some(self.options.db)
        &&& self.options.realtime
        &&& self.options.username.deep_view() == if config.redis_dsn.username@.len() == 0 {
            None
        } else {
            Some(config.redis_dsn.username@)
        }
        &&& self.options.password.deep_view() == config.redis_dsn.password.deep_view()
        &&& self.options.ns@ == "drive-ocr-local"@
        &&& self.options.max_connections == DEFAULT_PARALLEL_MESSAGES + 1
        &&& self.queue_name@ == "pending-ocr-documents"@
        &&& self.time_to_process == DEFAULT_TIME_TO_PROCESS
        &&& self.maximum_parallel_messages == DEFAULT_PARALLEL_MESSAGES
    }

    /// Works out from `config` where the queue is and how it is worked.
    ///
    /// The server is the host of the data source name, on its port or on
    /// 6379; the database is the number in its path; user name and password
    /// are taken over, an empty user name as none. One connection more than
    /// there are workers is kept, so that the poller never waits for one.
    ///
    /// A path that is not a slash followed by a number below 256 is refused,
    /// and the error carries what followed the slash. A data source name
    /// without a host is not a queue's address: callers rule it out.
    pub fn new(config: &Config) -> (queue: Result<Redis, ConfigError>)
        requires
            config.redis_dsn.host is Some,
        ensures
            match queue {
                Ok(redis) => redis.describes(config),
                Err(ConfigError::InvalidDatabase(name)) => parse_u8_spec(
                    database_name(config.redis_dsn.path@),
                ) is None && name@ == database_name(config.redis_dsn.path@),
            },
    {
        let host = match &config.redis_dsn.host {
            Some(host) => host.clone(),
            None => String::new(),
        };
        let port = match config.redis_dsn.port {
            Some(port) => port,
            None => DEFAULT_PORT,
        };
        let path = config.redis_dsn.path.as_str();
        let length = path.unicode_len();
        let db_path = if length == 0 {
            path
        } else {
            path.substring_char(1, length)
        };
        let db = match parse_u8(db_path) {
            Some(db) => db,
            None => {
                return Err(ConfigError::InvalidDatabase(String::from_str(db_path)));
            },
        };
        let username = if config.redis_dsn.username.as_str().unicode_len() == 0 {
            None
        } else {
            Some(config.redis_dsn.username.clone())
        };
        let password = match &config.redis_dsn.password {
            Some(password) => Some(password.clone()),
            None => None,
        };
        let maximum_parallel_messages: u32 = 2;
        Ok(
            Redis {
                options: StoreOptions {
                    host,
                    port,
                    db,
                    realtime: true,
                    username,
                    password,
                    ns: String::from_str("drive-ocr-local"),
                    max_connections: maximum_parallel_messages + 1,
                },
                queue_name: String::from_str("pending-ocr-documents"),
                time_to_process: DEFAULT_TIME_TO_PROCESS,
                maximum_parallel_messages: DEFAULT_PARALLEL_MESSAGES,
            },
        )
    }

    /// The durations that the poller of this queue works with.
    pub fn poller_settings(&self) -> (settings: PollerSettings)
        ensures
            settings == (PollerSettings {
                visibility_timeout: self.time_to_process,
                tick: POLL_INTERVAL,
            }),
    {
        PollerSettings { visibility_timeout: self.time_to_process, tick: POLL_INTERVAL }
    }
}

/// The store could not be reached, or refused the write.
#[derive(Debug, Clone, Copy, PartialEq, Eq, Structural)]
pub struct QueueUnavailable;

/// One entry of a store, as a mathematical value: the message, the receipt
/// handle under which it is deleted or extended, and the time from which on
/// a poll may return it.
pub struct Stored<R> {
    pub receipt: R,
    pub message: MessageView,
    pub visible_at: nat,
}

/// A store as a mathematical value: its entries, oldest first, its clock in
/// seconds, and whether it can be reached.
pub struct Store<R> {
    pub entries: Seq<Stored<R>>,
    pub now: nat,
    pub reachable: bool,
}

impl<R> Store<R> {
    /// Whether some entry has the handle `receipt`.
    pub open spec fn holds(self, receipt: R) -> bool {
        exists|i: int| 0 <= i < self.entries.len() && (#[trigger] self.entries[i]).receipt == receipt
    }

    /// No two entries share a receipt handle.
    pub open spec fn distinct(self) -> bool {
        forall|i: int, j: int|
            0 <= i < j < self.entries.len() ==> (#[trigger] self.entries[i]).receipt != (
            #[trigger] self.entries[j]).receipt
    }

    /// Whether the entry at `index` may be returned by a poll now.
    pub open spec fn ready(self, index: int) -> bool {
        0 <= index < self.entries.len() && self.entries[index].visible_at <= self.now
    }

    /// Whether `index` is the entry that a poll returns: the oldest entry
    /// that is ready.
    pub open spec fn next_ready(self, index: int) -> bool {
        self.ready(index) && forall|j: int| 0 <= j < index ==> !self.ready(j)
    }

    /// Whether no entry is ready.
    pub open spec fn none_ready(self) -> bool {
        forall|j: int| 0 <= j < self.entries.len() ==> !self.ready(j)
    }

    /// The store with one more entry, visible at once.
    pub open spec fn enqueued(self, receipt: R, message: MessageView) -> Store<R> {
        Store {
            entries: self.entries.push(Stored { receipt, message, visible_at: self.now }),
            ..self
        }
    }

    /// Whether `index` is the entry that the handle `receipt` stands for:
    /// the oldest entry that has it.
    pub open spec fn held_at(self, index: int, receipt: R) -> bool {
        &&& 0 <= index < self.entries.len()
        &&& self.entries[index].receipt == receipt
        &&& forall|j: int| 0 <= j < index ==> (#[trigger] self.entries[j]).receipt != receipt
    }

    /// The store without the entry at `index`.
    pub open spec fn removed(self, index: int) -> Store<R> {
        Store { entries: self.entries.remove(index), ..self }
    }

    /// The store in which the entry at `index` is hidden for `seconds`
    /// seconds from now.
    pub open spec fn hidden(self, index: int, seconds: nat) -> Store<R> {
        Store {
            entries: self.entries.update(
                index,
                Stored { visible_at: self.now + seconds, ..self.entries[index] },
            ),
            ..self
        }
    }

    /// The store `seconds` seconds later.
    pub open spec fn later(self, seconds: nat) -> Store<R> {
        Store { now: self.now + seconds, ..self }
    }
}

/// Visibility is respected: a message that a poll returned and hid for
/// `visibility_timeout` seconds is not ready, and so is returned by no poll,
/// as long as less than that time has passed. Once the time has passed the
/// message is ready again.
pub proof fn lemma_polled_message_stays_hidden<R>(
    store: Store<R>,
    index: int,
    visibility_timeout: nat,
    elapsed: nat,
    next: int,
)
    requires
        store.distinct(),
        store.next_ready(index),
    ensures
        elapsed < visibility_timeout ==> !store.hidden(index, visibility_timeout).later(
            elapsed,
        ).ready(index),
        elapsed < visibility_timeout && store.hidden(index, visibility_timeout).later(
            elapsed,
        ).next_ready(next) ==> store.hidden(index, visibility_timeout).later(
            elapsed,
        ).entries[next].receipt != store.entries[index].receipt,
        elapsed >= visibility_timeout ==> store.hidden(index, visibility_timeout).later(
            elapsed,
        ).ready(index),
{
    let after = store.hidden(index, visibility_timeout).later(elapsed);
    if elapsed < visibility_timeout && after.next_ready(next) {
        assert(next != index);
        if next < index {
            assert(store.entries[next].receipt != store.entries[index].receipt);
        } else {
            assert(store.entries[index].receipt != store.entries[next].receipt);
        }
    }
}

/// A message leaves the store only when it is deleted: enqueueing, polling,
/// extending and the passing of time keep every entry, and a delete takes
/// away the one entry that the receipt handle stands for.
pub proof fn lemma_only_delete_removes<R>(
    store: Store<R>,
    receipt: R,
    other: R,
    message: MessageView,
    index: int,
    seconds: nat,
)
    requires
        store.distinct(),
        store.holds(receipt),
        0 <= index < store.entries.len(),
    ensures
        store.enqueued(other, message).holds(receipt),
        store.hidden(index, seconds).holds(receipt),
        store.later(seconds).holds(receipt),
        store.entries[index].receipt != receipt ==> store.removed(index).holds(receipt),
        store.entries[index].receipt == receipt ==> !store.removed(index).holds(receipt),
        store.removed(index).distinct(),
        store.hidden(index, seconds).distinct(),
{
    let at = choose|i: int| 0 <= i < store.entries.len() && (#[trigger] store.entries[i]).receipt
        == receipt;
    assert(store.enqueued(other, message).entries[at].receipt == receipt);
    assert(store.hidden(index, seconds).entries[at].receipt == receipt);
    assert(store.later(seconds).entries[at].receipt == receipt);
    let removed = store.removed(index);
    if store.entries[index].receipt != receipt {
        if at < index {
            assert(removed.entries[at].receipt == receipt);
        } else {
            assert(removed.entries[at - 1].receipt == receipt);
        }
    } else {
        assert forall|i: int| 0 <= i < removed.entries.len() implies (
        #[trigger] removed.entries[i]).receipt != receipt by {
            if i < index {
                assert(store.entries[i].receipt != store.entries[index].receipt);
            } else {
                assert(store.entries[index].receipt != store.entries[i + 1].receipt);
            }
        }
    }
    assert forall|i: int, j: int| 0 <= i < j < removed.entries.len() implies (
    #[trigger] removed.entries[i]).receipt != (#[trigger] removed.entries[j]).receipt by {
        let a = if i < index { i } else { i + 1 };
        let b = if j < index { j } else { j + 1 };
        assert(store.entries[a].receipt != store.entries[b].receipt);
    }
    let hidden = store.hidden(index, seconds);
    assert forall|i: int, j: int| 0 <= i < j < hidden.entries.len() implies (
    #[trigger] hidden.entries[i]).receipt != (#[trigger] hidden.entries[j]).receipt by {
        assert(store.entries[i].receipt != store.entries[j].receipt);
    }
}

/// Whether `queue` would accept a message now: it can be reached and has
/// room.
pub open spec fn accepts<Q: Queue>(queue: &Q) -> bool {
    queue.model().reachable && queue.room() > 0
}

/// A durable queue with visibility timeouts, reduced to the four operations
/// that the producer, the poller and the workers need.
pub trait Queue: Sized {
    /// The handle that identifies one delivery.
    type Receipt;

    /// The store as a mathematical value.
    spec fn model(&self) -> Store<Self::Receipt>;

    /// The invariant of the implementation.
    spec fn well_formed(&self) -> bool;

    /// The number of messages that the store can still take in.
    spec fn room(&self) -> nat;

    /// A well-formed store gives each entry a receipt handle of its own.
    proof fn lemma_receipts_are_distinct(&self)
        requires
            self.well_formed(),
        ensures
            self.model().distinct(),
    ;

    /// Adds `message` to the store, visible at once, under a fresh receipt
    /// handle. The store accepts the message when it can be reached and has
    /// room, which is then one less; otherwise it stays as it was.
    fn enqueue(&mut self, message: Message) -> (outcome: Result<(), QueueUnavailable>)
        requires
            old(self).well_formed(),
        ensures
            final(self).well_formed(),
            outcome is Ok <==> old(self).model().reachable && old(self).room() > 0,
            outcome is Ok ==> final(self).room() == old(self).room() - 1,
            outcome is Err ==> final(self).model() == old(self).model() && final(self).room()
                == old(self).room(),
            outcome is Ok ==> exists|receipt: Self::Receipt|
                !old(self).model().holds(receipt) && final(self).model() == old(
                    self).model().enqueued(receipt, message@),
    ;

    /// Returns the oldest ready message, if there is one, and hides it for
    /// `visibility_timeout` seconds.
    fn poll(&mut self, visibility_timeout: u64) -> (outcome: Result<
        Option<Delivery<Self::Receipt>>,
        QueueUnavailable,
    >)
        requires
            old(self).well_formed(),
        ensures
            final(self).well_formed(),
            final(self).room() == old(self).room(),
            outcome is Ok <==> old(self).model().reachable,
            outcome is Err ==> final(self).model() == old(self).model(),
            outcome matches Ok(None) ==> old(self).model().none_ready() && final(self).model()
                == old(self).model(),
            outcome matches Ok(Some(delivery)) ==> exists|index: int|
                {
                    &&& old(self).model().next_ready(index)
                    &&& delivery.receipt == old(self).model().entries[index].receipt
                    &&& delivery.message@ == old(self).model().entries[index].message
                    &&& final(self).model() == old(self).model().hidden(
                        index,
                        visibility_timeout as nat,
                    )
                },
    ;

    /// Removes the message of the delivery `receipt` for good, and tells
    /// whether it was there.
    fn delete(&mut self, receipt: &Self::Receipt) -> (outcome: Result<bool, QueueUnavailable>)
        requires
            old(self).well_formed(),
        ensures
            final(self).well_formed(),
            final(self).room() == old(self).room(),
            outcome is Ok <==> old(self).model().reachable,
            outcome is Err ==> final(self).model() == old(self).model(),
            outcome matches Ok(false) ==> !old(self).model().holds(*receipt) && final(self).model()
                == old(self).model(),
            outcome matches Ok(true) ==> exists|index: int|
                old(self).model().held_at(index, *receipt) && final(self).model() == old(
                    self).model().removed(index),
    ;

    /// Hides the message of the delivery `receipt` for `seconds` seconds
    /// from now, and tells whether it was there.
    fn extend_visibility(&mut self, receipt: &Self::Receipt, seconds: u64) -> (outcome: Result<
        bool,
        QueueUnavailable,
    >)
        requires
            old(self).well_formed(),
        ensures
            final(self).well_formed(),
            final(self).room() == old(self).room(),
            outcome is Ok <==> old(self).model().reachable,
            outcome is Err ==> final(self).model() == old(self).model(),
            outcome matches Ok(false) ==> !old(self).model().holds(*receipt) && final(self).model()
                == old(self).model(),
            outcome matches Ok(true) ==> exists|index: int|
                old(self).model().held_at(index, *receipt) && final(self).model() == old(
                    self).model().hidden(index, seconds as nat),
    ;
}

} // verus!
