//! Events pushed by the host, and their one-shot acknowledgement.
use vstd::prelude::*;

use crate::common::Rect;
use crate::discriminator::Discriminator;
use crate::keys::{KeyEvent, MouseEvent};
use crate::pipeline::LAYOUT_CONFIRM;
use crate::request::{Request, RequestContent, RequestIds};

verus! {

/// What happened.
#[derive(Clone, PartialEq, Debug)]
pub enum EventVariant {
    /// A key press.
    Key(KeyEvent),
    /// A mouse event.
    Mouse(MouseEvent),
    /// The screen, or the component's assigned area, was resized.
    Resize { width: u32, height: u32 },
    /// A message from a component.
    Message {
        sender: Discriminator,
        target: Discriminator,
        content: serde_json::Value,
        tag: String,
    },
    /// The parent space gained focus.
    Focused,
    /// The parent space lost focus.
    Unfocused,
    /// A watched entry changed.
    ValueUpdated { label: String, new: serde_json::Value, discrim: Discriminator },
    /// A watched entry was removed.
    ValueRemoved { label: String, discrim: Discriminator },
}

/// The resize event that reports a newly assigned rectangle.
pub fn resize_for(rect: Rect) -> (r: EventVariant)
    ensures
        r == (EventVariant::Resize { width: rect.width, height: rect.height }),
{
    EventVariant::Resize { width: rect.width, height: rect.height }
}

/// Relies on `serde_json::Value::Null`: the JSON null value.
#[verifier::external_body]
fn json_null() -> serde_json::Value {
    serde_json::Value::Null
}

/// An event received from the host, with its acknowledgement token.
///
/// Every event is resolved exactly once: by an explicit `done`, or by
/// `release` when it is discarded, which lets the event pass on. The first
/// resolution sends the acknowledgement and, where a layout service manages
/// the component, the confirmation that the frame was handled; later
/// attempts send nothing.
pub struct Event {
    content: EventVariant,
    token: u32,
    resolved: bool,
    confirm_to: Option<Discriminator>,
}

/// The acknowledgement of the event with `token`.
pub open spec fn acknowledgement(token: u32, pass: bool) -> RequestContent {
    RequestContent::ConfirmRecieve { id: token, pass }
}

/// A request that confirms to a layout service that a frame was handled.
pub open spec fn is_layout_confirmation(req: Request, to: Discriminator) -> bool {
    &&& req.content matches RequestContent::SetEntry { label, .. }
    &&& label@ == LAYOUT_CONFIRM@
    &&& req.target@ == to@
}

/// One resolution of an event, from `before` to `after`: the first sends the
/// acknowledgement with `pass`, and the layout confirmation where one is
/// owed; any later one sends nothing.
pub open spec fn resolution(
    before: Event,
    pass: bool,
    after: Event,
    sent: (Option<Request>, Option<Request>),
) -> bool {
    &&& after.resolved()
    &&& after.token() == before.token()
    &&& after.content() == before.content()
    &&& after.confirm_to() == before.confirm_to()
    &&& match sent.0 {
        Some(req) => !before.resolved() && req.content == acknowledgement(before.token(), pass)
            && req.target@ == Seq::<u32>::empty(),
        None => before.resolved(),
    }
    &&& match sent.1 {
        Some(req) => !before.resolved() && (before.confirm_to() matches Some(to)
            && is_layout_confirmation(req, to)),
        None => before.resolved() || before.confirm_to() is None,
    }
}

/// The requests of a resolution took fresh identifiers from `before`,
/// leaving `after`; none where nothing was sent.
pub open spec fn took_ids(
    before: RequestIds,
    after: RequestIds,
    sent: (Option<Request>, Option<Request>),
) -> bool {
    match sent {
        (None, None) => after == before,
        (Some(a), None) => !before.issued().contains(a.id) && after.issued() == before.issued().insert(
            a.id,
        ),
        (None, Some(b)) => !before.issued().contains(b.id) && after.issued() == before.issued().insert(
            b.id,
        ),
        (Some(a), Some(b)) => !before.issued().contains(a.id) && !before.issued().contains(b.id)
            && a.id != b.id && after.issued() == before.issued().insert(a.id).insert(b.id),
    }
}

impl Event {
    /// What happened.
    pub closed spec fn content(self) -> EventVariant {
        self.content
    }

    /// The token that acknowledges the event.
    pub closed spec fn token(self) -> u32 {
        self.token
    }

    /// Whether the event has been resolved.
    pub closed spec fn resolved(self) -> bool {
        self.resolved
    }

    /// The component whose layout service is told that the event was
    /// handled, if any.
    pub closed spec fn confirm_to(self) -> Option<Discriminator> {
        self.confirm_to
    }

    /// How many request identifiers resolving the event takes.
    pub open spec fn ids_needed(self) -> nat {
        if self.resolved() {
            0
        } else if self.confirm_to() is Some {
            2
        } else {
            1
        }
    }

    /// A received event, not yet acknowledged. Nothing is sent.
    pub fn new(content: EventVariant, token: u32) -> (r: Self)
        ensures
            r.content() == content,
            r.token() == token,
            !r.resolved(),
            r.confirm_to() is None,
    {
        Event { content, token, resolved: false, confirm_to: None }
    }

    /// A received event for a component whose area a layout service
    /// manages; resolving it also confirms to `confirm_to`. Nothing is sent.
    pub fn layouted(content: EventVariant, token: u32, confirm_to: Discriminator) -> (r: Self)
        ensures
            r.content() == content,
            r.token() == token,
            !r.resolved(),
            r.confirm_to() == Some(confirm_to),
    {
        Event { content, token, resolved: false, confirm_to: Some(confirm_to) }
    }

    /// The same event, reporting `content` instead.
    pub fn with_content(self, content: EventVariant) -> (r: Self)
        ensures
            r.content() == content,
            r.token() == self.token(),
            r.resolved() == self.resolved(),
            r.confirm_to() == self.confirm_to(),
    {
        Event { content, token: self.token, resolved: self.resolved, confirm_to: self.confirm_to }
    }

    /// What happened.
    pub fn get(&self) -> (r: &EventVariant)
        ensures
            *r == self.content(),
    {
        &self.content
    }

    /// The token that acknowledges the event.
    pub fn ack_token(&self) -> (r: u32)
        ensures
            r == self.token(),
    {
        self.token
    }

    /// Whether the event has been resolved.
    pub fn is_resolved(&self) -> (r: bool)
        ensures
            r == self.resolved(),
    {
        self.resolved
    }

    /// How many request identifiers resolving the event takes.
    pub fn ids_to_resolve(&self) -> (r: u32)
        ensures
            r == self.ids_needed(),
    {
        if self.resolved {
            0
        } else if self.confirm_to.is_some() {
            2
        } else {
            1
        }
    }

    /// Marks the event done: `pass` lets lower-priority subscribers also
    /// receive it, otherwise it is captured. Returns, the first time, the
    /// acknowledgement and the layout confirmation (where one is owed) to
    /// send; nothing afterwards.
    pub fn done(&mut self, pass: bool, ids: &mut RequestIds) -> (r: (Option<Request>, Option<Request>))
        requires
            old(ids).last_issued() + old(self).ids_needed() <= u32::MAX,
        ensures
            resolution(*old(self), pass, *final(self), r),
            took_ids(*old(ids), *final(ids), r),
    {
        if self.resolved {
            return (None, None);
        }
        self.resolved = true;
        let ack = Request::new(
            Discriminator::empty(),
            RequestContent::ConfirmRecieve { id: self.token, pass },
            ids,
        );
        let confirm = match &self.confirm_to {
            Some(to) => {
                let label = LAYOUT_CONFIRM.to_owned();
                Some(
                    Request::new(
                        to.clone(),
                        RequestContent::SetEntry { label, value: json_null() },
                        ids,
                    ),
                )
            },
            None => None,
        };
        (Some(ack), confirm)
    }

    /// What discarding the event does: `done(true)`.
    pub fn release(&mut self, ids: &mut RequestIds) -> (r: (Option<Request>, Option<Request>))
        requires
            old(ids).last_issued() + old(self).ids_needed() <= u32::MAX,
        ensures
            resolution(*old(self), true, *final(self), r),
            took_ids(*old(ids), *final(ids), r),
    {
        self.done(true, ids)
    }
}

/// Resolving an event twice, in any way, sends at most one acknowledgement
/// and at most one layout confirmation: the second resolution sends nothing.
pub proof fn lemma_resolved_at_most_once(
    e0: Event,
    p1: bool,
    e1: Event,
    r1: (Option<Request>, Option<Request>),
    p2: bool,
    e2: Event,
    r2: (Option<Request>, Option<Request>),
)
    requires
        resolution(e0, p1, e1, r1),
        resolution(e1, p2, e2, r2),
    ensures
        r2.0 is None,
        r2.1 is None,
{
}

/// An event that was never explicitly resolved sends exactly one
/// acknowledgement when it is discarded, and that one lets the event pass;
/// discarding it again sends nothing.
pub proof fn lemma_discarded_event_passes_once(
    e0: Event,
    e1: Event,
    r1: (Option<Request>, Option<Request>),
    e2: Event,
    r2: (Option<Request>, Option<Request>),
)
    requires
        !e0.resolved(),
        resolution(e0, true, e1, r1),
        resolution(e1, true, e2, r2),
    ensures
        r1.0 matches Some(req) && req.content == acknowledgement(e0.token(), true),
        r2.0 is None,
        r2.1 is None,
{
}

} // verus!
