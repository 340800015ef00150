//! Requests that the client decides to send, or to answer itself.
use vstd::prelude::*;

use crate::common::Rect;
use crate::discriminator::Discriminator;
use crate::request::{Request, RequestContent, RequestIds};
use crate::subscription::{batch_channels, batch_subscription, Subscription};

verus! {

/// The subscribe request for one channel; `None` where the client answers
/// itself, which it does for screen resizes when a layout service reports
/// the component's size instead.
pub fn subscribe_request(
    channel: Subscription,
    priority: Option<u32>,
    layouted: bool,
    ids: &mut RequestIds,
) -> (r: Option<Request>)
    requires
        old(ids).last_issued() < u32::MAX,
    ensures
        match r {
            None => layouted && channel is ScreenResize && *final(ids) == *old(ids),
            Some(req) => {
                &&& !(layouted && channel is ScreenResize)
                &&& req.content == (RequestContent::Subscribe {
                    channel,
                    priority,
                    component: None,
                })
                &&& req.target@ == Seq::<u32>::empty()
                &&& !old(ids).issued().contains(req.id)
                &&& final(ids).issued() == old(ids).issued().insert(req.id)
            },
        },
{
    if layouted && channel.is_screen_resize() {
        return None;
    }
    Some(
        Request::new(
            Discriminator::empty(),
            RequestContent::Subscribe { channel, priority, component: None },
            ids,
        ),
    )
}

/// The one request that subscribes to many channels; `None`, answered by
/// the client itself, where no channel is left to send (see
/// `batch_channels`).
pub fn subscribe_multiple_request(
    subs: Vec<(Subscription, Option<u32>)>,
    layouted: bool,
    ids: &mut RequestIds,
) -> (r: Option<Request>)
    requires
        old(ids).last_issued() < u32::MAX,
    ensures
        match r {
            None => batch_channels(subs@, layouted).len() == 0 && *final(ids) == *old(ids),
            Some(req) => {
                &&& batch_channels(subs@, layouted).len() > 0
                &&& req.content matches RequestContent::Subscribe {
                    channel: Subscription::Multiple { subs: sent },
                    priority: None,
                    component: None,
                }
                &&& sent@ == batch_channels(subs@, layouted)
                &&& req.target@ == Seq::<u32>::empty()
                &&& !old(ids).issued().contains(req.id)
                &&& final(ids).issued() == old(ids).issued().insert(req.id)
            },
        },
{
    let sent = batch_subscription(subs, layouted);
    if sent.len() == 0 {
        return None;
    }
    Some(
        Request::new(
            Discriminator::empty(),
            RequestContent::Subscribe {
                channel: Subscription::Multiple { subs: sent },
                priority: None,
                component: None,
            },
            ids,
        ),
    )
}

/// The terminal size that a client reports: nothing where the host did not
/// answer with a value; the assigned rectangle's size where a layout
/// service assigns the component's area; else the size the host reported.
pub fn term_size_for(answered: bool, assigned: Option<Rect>, reported: (u32, u32)) -> (r: (
    u32,
    u32,
))
    ensures
        r == (if !answered {
            (0u32, 0u32)
        } else {
            match assigned {
                Some(rect) => (rect.width, rect.height),
                None => reported,
            }
        }),
{
    if !answered {
        return (0, 0);
    }
    match assigned {
        Some(rect) => (rect.width, rect.height),
        None => reported,
    }
}

} // verus!
