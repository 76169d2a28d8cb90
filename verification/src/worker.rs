//! What a worker is named and what its events carry, by the kind of worker.

use vstd::pervasive::cloned;
use vstd::prelude::*;
use vstd::string::StringExecFns;

verus! {

/// The options of a user worker. `P` and `E` are the senders of the channels
/// to the pool and for the events.
#[derive(Debug)]
pub struct UserWorkerRuntimeOpts<P, E> {
    pub service_path: Option<String>,
    /// The key of the worker: the 128 bits of its UUID.
    pub key: Option<u128>,
    pub pool_msg_tx: Option<P>,
    pub events_msg_tx: Option<E>,
}

/// The options of a worker, by its kind.
#[derive(Debug)]
pub enum WorkerRuntimeOpts<P, E> {
    UserWorker(UserWorkerRuntimeOpts<P, E>),
    MainWorker,
    EventsWorker,
}

/// What the events of a worker carry.
#[derive(Debug)]
pub struct EventMetadata {
    pub service_path: Option<String>,
    pub execution_id: Option<u128>,
}

/// The UUID with the 128 bits `key` as `uuid` writes it: in lower case
/// hexadecimal digits, in five groups parted by hyphens.
pub uninterp spec fn uuid_text(key: u128) -> Seq<char>;

/// `Uuid::from_u128` of `uuid`, and the UUID as `Debug` writes it.
#[verifier::external_body]
fn key_text(key: u128) -> (s: String)
    ensures
        s@ == uuid_text(key),
{
    format!("{:?}", uuid::Uuid::from_u128(key))
}

/// The name of the worker with the key `key`.
pub open spec fn user_worker_name(key: Option<u128>) -> Seq<char> {
    match key {
        Some(key) => "sb-iso-"@ + uuid_text(key),
        None => "isolate-worker-unknown"@,
    }
}

impl<P, E> WorkerRuntimeOpts<P, E> {
    /// The key of the worker, where it is a user worker that has one.
    pub open spec fn key(self) -> Option<u128> {
        match self {
            WorkerRuntimeOpts::UserWorker(opts) => opts.key,
            _ => None,
        }
    }

    /// The service path of the worker, where it is a user worker that has one.
    pub open spec fn service_path(self) -> Option<String> {
        match self {
            WorkerRuntimeOpts::UserWorker(opts) => opts.service_path,
            _ => None,
        }
    }

    /// The sender to the pool, where the worker is a user worker that has one.
    pub open spec fn pool_msg_tx(self) -> Option<P> {
        match self {
            WorkerRuntimeOpts::UserWorker(opts) => opts.pool_msg_tx,
            _ => None,
        }
    }

    /// The sender for the events, where the worker is a user worker that has
    /// one.
    pub open spec fn events_msg_tx(self) -> Option<E> {
        match self {
            WorkerRuntimeOpts::UserWorker(opts) => opts.events_msg_tx,
            _ => None,
        }
    }

    /// The name of the worker.
    pub open spec fn name(self) -> Seq<char> {
        match self {
            WorkerRuntimeOpts::UserWorker(opts) => user_worker_name(opts.key),
            WorkerRuntimeOpts::MainWorker => "main-worker"@,
            WorkerRuntimeOpts::EventsWorker => "events-worker"@,
        }
    }
}

/// Whether `copy` is a clone of `value`, or both are absent.
pub open spec fn cloned_option<T: Clone>(value: Option<T>, copy: Option<T>) -> bool {
    match (value, copy) {
        (Some(a), Some(b)) => cloned(a, b),
        (None, None) => true,
        _ => false,
    }
}

/// The key, clones of the two senders and the name of a worker.
pub fn parse_worker_conf<P: Clone, E: Clone>(conf: &WorkerRuntimeOpts<P, E>) -> (r: (
    Option<u128>,
    Option<P>,
    Option<E>,
    String,
))
    ensures
        r.0 == conf.key(),
        cloned_option(conf.pool_msg_tx(), r.1),
        cloned_option(conf.events_msg_tx(), r.2),
        r.3@ == conf.name(),
{
    match conf {
        WorkerRuntimeOpts::UserWorker(worker_opts) => {
            let pool_msg_tx = match &worker_opts.pool_msg_tx {
                Some(tx) => Some(tx.clone()),
                None => None,
            };
            let events_msg_tx = match &worker_opts.events_msg_tx {
                Some(tx) => Some(tx.clone()),
                None => None,
            };
            let name = match worker_opts.key {
                Some(key) => String::from_str("sb-iso-").concat(key_text(key).as_str()),
                None => String::from_str("isolate-worker-unknown"),
            };
            (worker_opts.key, pool_msg_tx, events_msg_tx, name)
        },
        WorkerRuntimeOpts::MainWorker => (None, None, None, String::from_str("main-worker")),
        WorkerRuntimeOpts::EventsWorker => (None, None, None, String::from_str("events-worker")),
    }
}

/// What the events of a worker carry: the service path and the key of a user
/// worker, and nothing for any other.
pub fn get_event_metadata<P, E>(conf: &WorkerRuntimeOpts<P, E>) -> (r: EventMetadata)
    ensures
        r.service_path == conf.service_path(),
        r.execution_id == conf.key(),
{
    match conf {
        WorkerRuntimeOpts::UserWorker(worker_opts) => {
            let service_path = match &worker_opts.service_path {
                Some(path) => Some(path.clone()),
                None => None,
            };
            EventMetadata { service_path, execution_id: worker_opts.key }
        },
        _ => EventMetadata { service_path: None, execution_id: None },
    }
}

} // verus!
