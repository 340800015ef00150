//! Responses from the host: replies to requests and pushed events.
use vstd::prelude::*;

use crate::discriminator::Discriminator;
use crate::event::EventVariant;

verus! {

/// A message from the host.
#[derive(Clone, PartialEq, Debug)]
pub struct Response {
    /// What it says.
    pub content: ResponseContent,
    /// For an event, the token that acknowledges it.
    pub id: u32,
    /// For a reply, the identifier of the request it answers.
    pub request: Option<u32>,
}

/// What a response says.
#[derive(Clone, PartialEq, Debug)]
pub enum ResponseContent {
    /// The target component could not be reached.
    Undelivered,
    /// An event on a subscribed channel.
    Event { content: EventVariant },
    /// The request failed.
    Error { content: ResponseError },
    /// The request succeeded.
    Success { content: ResponseSuccess },
}

/// Why a request failed.
#[derive(Clone, Copy, PartialEq, Eq, Structural, Debug)]
pub enum ResponseError {
    ComponentNotFound,
    SpawnFailed,
    EntryNotFound,
}

/// What a successful request produced.
#[derive(Clone, PartialEq, Debug)]
pub enum ResponseSuccess {
    SubscribeAdded,
    SubscribeRemoved,
    /// The listener socket is registered; the component's identity.
    ListenerSet { discrim: Discriminator },
    Dropped,
    Rendered,
    /// A process was spawned; its identity.
    Spawned { discrim: Discriminator },
    MessageDelivered,
    /// A space was created; its identity.
    SpaceCreated { discrim: Discriminator },
    FocusChanged,
    /// A value that was asked for.
    Value { value: serde_json::Value },
    ValueSet,
    RemovedValue,
    Watching,
    Unwatched,
    /// A channel was suppressed; the suppression's identifier.
    Suppressed { id: u32 },
    Unsuppressed,
}

impl ResponseContent {
    /// A successful acknowledgement of a render.
    pub fn rendered() -> (r: Self)
        ensures
            r == (ResponseContent::Success { content: ResponseSuccess::Rendered }),
    {
        ResponseContent::Success { content: ResponseSuccess::Rendered }
    }

    /// A successful acknowledgement of a subscription.
    pub fn subscribe_added() -> (r: Self)
        ensures
            r == (ResponseContent::Success { content: ResponseSuccess::SubscribeAdded }),
    {
        ResponseContent::Success { content: ResponseSuccess::SubscribeAdded }
    }

    pub fn is_undelivered(&self) -> (r: bool)
        ensures
            r == (*self is Undelivered),
    {
        matches!(self, ResponseContent::Undelivered)
    }

    pub fn is_delivered(&self) -> (r: bool)
        ensures
            r == !(*self is Undelivered),
    {
        !self.is_undelivered()
    }

    /// The identity of a spawned process.
    pub fn as_spawned(&self) -> (r: Option<&Discriminator>)
        ensures
            match *self {
                ResponseContent::Success { content: ResponseSuccess::Spawned { discrim } } => r
                    == Some(&discrim),
                _ => r is None,
            },
    {
        match self {
            ResponseContent::Success { content: ResponseSuccess::Spawned { discrim } } => Some(
                discrim,
            ),
            _ => None,
        }
    }

    /// The identity of a spawned process.
    pub fn into_spawned(self) -> (r: Option<Discriminator>)
        ensures
            match self {
                ResponseContent::Success { content: ResponseSuccess::Spawned { discrim } } => r
                    == Some(discrim),
                _ => r is None,
            },
    {
        match self {
            ResponseContent::Success { content: ResponseSuccess::Spawned { discrim } } => Some(
                discrim,
            ),
            _ => None,
        }
    }

    /// The identity that the host assigned when the listener was registered.
    pub fn into_listener_set(self) -> (r: Option<Discriminator>)
        ensures
            match self {
                ResponseContent::Success { content: ResponseSuccess::ListenerSet { discrim } } => r
                    == Some(discrim),
                _ => r is None,
            },
    {
        match self {
            ResponseContent::Success { content: ResponseSuccess::ListenerSet { discrim } } => Some(
                discrim,
            ),
            _ => None,
        }
    }

    /// The identity of a created space.
    pub fn into_space_created(self) -> (r: Option<Discriminator>)
        ensures
            match self {
                ResponseContent::Success { content: ResponseSuccess::SpaceCreated { discrim } } => r
                    == Some(discrim),
                _ => r is None,
            },
    {
        match self {
            ResponseContent::Success { content: ResponseSuccess::SpaceCreated { discrim } } => Some(
                discrim,
            ),
            _ => None,
        }
    }

    /// A value that was asked for.
    pub fn as_value(&self) -> (r: Option<&serde_json::Value>)
        ensures
            match *self {
                ResponseContent::Success { content: ResponseSuccess::Value { value } } => r == Some(
                    &value,
                ),
                _ => r is None,
            },
    {
        match self {
            ResponseContent::Success { content: ResponseSuccess::Value { value } } => Some(value),
            _ => None,
        }
    }

    /// A value that was asked for.
    pub fn into_value(self) -> (r: Option<serde_json::Value>)
        ensures
            match self {
                ResponseContent::Success { content: ResponseSuccess::Value { value } } => r == Some(
                    value,
                ),
                _ => r is None,
            },
    {
        match self {
            ResponseContent::Success { content: ResponseSuccess::Value { value } } => Some(value),
            _ => None,
        }
    }

    /// The identifier of a suppression.
    pub fn as_suppressed(&self) -> (r: Option<u32>)
        ensures
            match *self {
                ResponseContent::Success { content: ResponseSuccess::Suppressed { id } } => r == Some(
                    id,
                ),
                _ => r is None,
            },
    {
        match self {
            ResponseContent::Success { content: ResponseSuccess::Suppressed { id } } => Some(*id),
            _ => None,
        }
    }
}

} // verus!
