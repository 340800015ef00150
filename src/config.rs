//! Where a component listens and where it reaches the host.
use vstd::prelude::*;

use std::path::PathBuf;

verus! {

/// Relies on `std::path::PathBuf::from`, which copies a string into a path.
#[verifier::external_body]
fn path_of(s: &str) -> PathBuf {
    PathBuf::from(s)
}

/// The default number of events that one poll takes in.
pub const DEFAULT_EVENTS_CAPACITY: usize = 1024;

/// A component's socket locations and event buffer size.
pub struct ClientConfig {
    /// The component's own listener socket.
    pub listener_socket: PathBuf,
    /// The host's request socket.
    pub request_socket: PathBuf,
    /// How many events one poll takes in.
    pub events_capacity: usize,
}

impl ClientConfig {
    /// Listens at `listening`, with the default request socket and capacity.
    pub fn new(listening: PathBuf) -> (r: Self)
        ensures
            r.listener_socket == listening,
            r.events_capacity == DEFAULT_EVENTS_CAPACITY,
    {
        ClientConfig {
            listener_socket: listening,
            request_socket: path_of("requests.sock"),
            events_capacity: DEFAULT_EVENTS_CAPACITY,
        }
    }

    /// Listens at `listening`, taking in up to `events_capacity` events a poll.
    pub fn with_capacity(listening: PathBuf, events_capacity: usize) -> (r: Self)
        ensures
            r.listener_socket == listening,
            r.events_capacity == events_capacity,
    {
        ClientConfig {
            listener_socket: listening,
            request_socket: path_of("requests.sock"),
            events_capacity,
        }
    }

    /// The listener socket.
    pub fn listening(&self) -> (r: &PathBuf)
        ensures
            *r == self.listener_socket,
    {
        &self.listener_socket
    }

    /// How many events one poll takes in.
    pub fn get_capacity(&self) -> (r: usize)
        ensures
            r == self.events_capacity,
    {
        self.events_capacity
    }
}

impl Default for ClientConfig {
    fn default() -> (r: Self)
        ensures
            r.events_capacity == DEFAULT_EVENTS_CAPACITY,
    {
        ClientConfig {
            listener_socket: path_of("listen.sock"),
            request_socket: path_of("requests.sock"),
            events_capacity: DEFAULT_EVENTS_CAPACITY,
        }
    }
}

} // verus!
