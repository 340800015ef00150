use libccanvas::discriminator::Discriminator;
use libccanvas::event::{resize_for, Event, EventVariant};
use libccanvas::keys::{KeyCode, KeyCodeBetterSerde, KeyEvent, KeyEventBetterSerde, KeyModifier, MouseType};
use libccanvas::pipeline::{intake, route, settle, Admission, EventQueue, Intake, PendingTable, Routed, LAYOUT_ALLOCATED, LAYOUT_CONFIRM, SCROLL_RES};
use libccanvas::common::{Dimension, Rect};
use libccanvas::request::{Colour, Request, RequestContent, RequestIds};
use libccanvas::response::{Response, ResponseContent, ResponseError, ResponseSuccess};
use libccanvas::session::{subscribe_multiple_request, subscribe_request};
use libccanvas::subscription::{batch_subscription, Subscription};
use libccanvas::suppressor::LifetimeSuppressor;

#[test]
fn request_ids_never_repeat() {
    let mut ids = RequestIds::new();
    let mut seen = Vec::new();
    for _ in 0..100 {
        let id = ids.next();
        assert!(!seen.contains(&id));
        seen.push(id);
    }
    assert_eq!(seen[0], 1);
    assert_eq!(seen[99], 100);
    assert!(!ids.exhausted());
}

#[test]
fn request_new_takes_next_id() {
    let mut ids = RequestIds::new();
    let a = Request::new(Discriminator::empty(), RequestContent::FocusAt, &mut ids);
    let b = Request::new(Discriminator::master(), RequestContent::FocusAt, &mut ids);
    assert_eq!(a.id(), 1);
    assert_eq!(b.id(), 2);
    assert_eq!(b.target, Discriminator::master());
}

#[test]
fn discriminators() {
    assert_eq!(Discriminator::master().path(), &vec![1]);
    assert_eq!(Discriminator::default(), Discriminator::new(vec![]));
    let d = Discriminator::new(vec![1, 4, 2]);
    assert_eq!(d.clone(), d);
    assert_ne!(d, Discriminator::new(vec![1, 4]));
}

#[test]
fn event_done_acknowledges_once() {
    let mut ids = RequestIds::new();
    let mut e = Event::new(EventVariant::Focused, 42);
    assert_eq!(e.ack_token(), 42);
    let (first, confirm) = e.done(false, &mut ids);
    assert_eq!(first.unwrap().content, RequestContent::ConfirmRecieve { id: 42, pass: false });
    assert!(confirm.is_none());
    assert!(e.is_resolved());
    assert_eq!(e.ids_to_resolve(), 0);
    assert_eq!(e.done(true, &mut ids), (None, None));
    assert_eq!(e.release(&mut ids), (None, None));
}

#[test]
fn discarded_event_passes() {
    let mut ids = RequestIds::new();
    let mut e = Event::new(EventVariant::Resize { width: 3, height: 4 }, 7);
    assert!(!e.is_resolved());
    let ack = e.release(&mut ids).0.unwrap();
    assert_eq!(ack.content, RequestContent::ConfirmRecieve { id: 7, pass: true });
    assert!(ack.target.path().is_empty());
    assert_eq!(e.release(&mut ids), (None, None));
}

#[test]
fn layouted_event_confirms_once() {
    let mut ids = RequestIds::new();
    let mut e = Event::layouted(EventVariant::Focused, 8, Discriminator::new(vec![1, 5]));
    assert_eq!(e.ids_to_resolve(), 2);
    let (ack, confirm) = e.done(true, &mut ids);
    let ack = ack.unwrap();
    let confirm = confirm.unwrap();
    assert_eq!(ack.content, RequestContent::ConfirmRecieve { id: 8, pass: true });
    assert_eq!(
        confirm.content,
        RequestContent::SetEntry { label: LAYOUT_CONFIRM.to_string(), value: serde_json::Value::Null }
    );
    assert_eq!(confirm.target, Discriminator::new(vec![1, 5]));
    assert_ne!(ack.id, confirm.id);
    assert_eq!(e.release(&mut ids), (None, None));
}

#[test]
fn suppressor_lifts_once() {
    let mut ids = RequestIds::new();
    let content = ResponseContent::Success { content: ResponseSuccess::Suppressed { id: 9 } };
    let mut s = LifetimeSuppressor::from_response(&content, Subscription::AllKeyPresses, Discriminator::master())
        .unwrap();
    assert!(s.is_live());
    let req = s.release(&mut ids).unwrap();
    assert_eq!(req.content, RequestContent::Unsuppress { channel: Subscription::AllKeyPresses, id: 9 });
    assert_eq!(req.target, Discriminator::master());
    assert!(s.release(&mut ids).is_none());
    assert!(!s.is_live());
}

#[test]
fn suppressor_needs_a_suppressed_reply() {
    let content = ResponseContent::Error { content: ResponseError::ComponentNotFound };
    assert!(LifetimeSuppressor::from_response(&content, Subscription::Everything, Discriminator::empty()).is_none());
}

#[test]
fn deconstructed_suppressor_is_spent() {
    let mut ids = RequestIds::new();
    let mut s = LifetimeSuppressor::new(3, Subscription::ScreenResize, Discriminator::new(vec![1, 2]));
    let (id, channel, target) = s.deconstruct().unwrap();
    assert_eq!(id, 3);
    assert_eq!(channel, Subscription::ScreenResize);
    assert_eq!(target, Discriminator::new(vec![1, 2]));
    assert!(s.deconstruct().is_none());
    assert!(s.release(&mut ids).is_none());
}

#[test]
fn routing_events_and_replies() {
    let ev = Response {
        content: ResponseContent::Event { content: EventVariant::Focused },
        id: 11,
        request: None,
    };
    match route(ev, None) {
        Routed::Event(e) => {
            assert_eq!(e.ack_token(), 11);
            assert_eq!(e.get(), &EventVariant::Focused);
        }
        _ => panic!("expected an event"),
    }
    let reply = Response { content: ResponseContent::Undelivered, id: 0, request: Some(5) };
    match route(reply, None) {
        Routed::Reply { request, content } => {
            assert_eq!(request, 5);
            assert!(content.is_undelivered());
        }
        _ => panic!("expected a reply"),
    }
    let stray = Response { content: ResponseContent::rendered(), id: 0, request: None };
    assert!(matches!(route(stray, None), Routed::Unroutable));
}

#[test]
fn pending_table_resolves_by_id() {
    let mut t: PendingTable<&str> = PendingTable::new();
    assert!(t.register(4, "four").is_none());
    assert!(t.register(6, "six").is_none());
    assert!(t.is_pending(4));
    assert_eq!(t.resolve(6), Some("six"));
    assert_eq!(t.resolve(6), None);
    assert_eq!(t.resolve(99), None);
    assert_eq!(t.len(), 1);
}

#[test]
fn event_queue_is_fifo() {
    let mut q = EventQueue::new();
    q.push(1);
    q.push(2);
    q.push(3);
    assert_eq!(q.pop(), Some(1));
    q.push(4);
    assert_eq!(q.pop(), Some(2));
    assert_eq!(q.pop(), Some(3));
    assert_eq!(q.pop(), Some(4));
    assert_eq!(q.pop(), None);
    assert!(q.is_empty());
}

#[test]
fn intake_decisions() {
    let resize = EventVariant::Resize { width: 1, height: 1 };
    assert_eq!(intake(&resize, true), Intake::Skip);
    assert_eq!(intake(&resize, false), Intake::Deliver);
    let alloc = EventVariant::ValueUpdated {
        label: LAYOUT_ALLOCATED.to_string(),
        new: serde_json::Value::Null,
        discrim: Discriminator::master(),
    };
    assert_eq!(intake(&alloc, true), Intake::Allocation);
    assert_eq!(intake(&alloc, false), Intake::Deliver);
    let scroll = EventVariant::Message {
        sender: Discriminator::master(),
        target: Discriminator::master(),
        content: serde_json::Value::Null,
        tag: SCROLL_RES.to_string(),
    };
    assert_eq!(intake(&scroll, false), Intake::ScrollReply);
    assert_eq!(resize_for(Rect::new(1, 2, 30, 40)), EventVariant::Resize { width: 30, height: 40 });
}

#[test]
fn subscriptions_under_layout() {
    let mut ids = RequestIds::new();
    assert!(subscribe_request(Subscription::ScreenResize, None, true, &mut ids).is_none());
    let req = subscribe_request(Subscription::ScreenResize, Some(2), false, &mut ids).unwrap();
    assert_eq!(
        req.content,
        RequestContent::Subscribe { channel: Subscription::ScreenResize, priority: Some(2), component: None }
    );
    let only_resize = vec![Subscription::ScreenResize.without_priority()];
    assert!(subscribe_multiple_request(only_resize, true, &mut ids).is_none());
    let subs = vec![
        Subscription::AllKeyPresses.with_priority(1),
        Subscription::ScreenResize.without_priority(),
        Subscription::specific_message_tag("t".to_string()).without_priority(),
    ];
    let kept = batch_subscription(subs, true);
    assert_eq!(
        kept,
        vec![
            (Subscription::AllKeyPresses, Some(1)),
            (Subscription::SpecificMessageTag { tag: "t".to_string() }, None),
        ]
    );
}

#[test]
fn response_accessors() {
    let spawned = ResponseContent::Success { content: ResponseSuccess::Spawned { discrim: Discriminator::new(vec![1, 3]) } };
    assert_eq!(spawned.as_spawned(), Some(&Discriminator::new(vec![1, 3])));
    assert!(spawned.is_delivered());
    assert_eq!(spawned.into_spawned(), Some(Discriminator::new(vec![1, 3])));
    let value = ResponseContent::Success { content: ResponseSuccess::Value { value: serde_json::Value::Bool(true) } };
    assert_eq!(value.as_value(), Some(&serde_json::Value::Bool(true)));
    assert_eq!(value.as_suppressed(), None);
    let listener = ResponseContent::Success { content: ResponseSuccess::ListenerSet { discrim: Discriminator::new(vec![1, 1]) } };
    assert_eq!(listener.into_listener_set(), Some(Discriminator::new(vec![1, 1])));
    let err = ResponseContent::Error { content: ResponseError::EntryNotFound };
    assert_eq!(err.into_value(), None);
}

#[test]
fn key_record_conversions() {
    let k = KeyEvent::new(KeyCode::F(5), KeyModifier::Ctrl);
    let rec = KeyEventBetterSerde::from(k);
    assert_eq!(rec.code, KeyCodeBetterSerde::F { value: 5 });
    assert_eq!(KeyEvent::from(rec), k);
    assert_eq!(KeyCode::from(KeyCodeBetterSerde::Char { value: 'q' }), KeyCode::Char('q'));
    assert_eq!(Subscription::specific_mouse(MouseType::Hold), Subscription::SpecificMouseEvent { mouse: MouseType::Hold });
    assert_eq!(Colour::rgb(1, 2, 3), Colour::Rgb { red: 1, green: 2, blue: 3 });
    assert_eq!(Rect::from(Dimension::new(3, 4)), Rect::new(0, 0, 3, 4));
    assert_eq!(Dimension::from((7, 8)), Dimension { width: 7, height: 8 });
}

#[test]
fn settling_events() {
    let rect = Rect::new(2, 3, 40, 10);
    let alloc = Event::new(EventVariant::Focused, 5);
    match settle(alloc, Intake::Allocation, Some(rect), false) {
        (Admission::Deliver(e), Some(r)) => {
            assert_eq!(r, rect);
            assert_eq!(e.get(), &EventVariant::Resize { width: 40, height: 10 });
            assert_eq!(e.ack_token(), 5);
        }
        _ => panic!("expected a delivered resize"),
    }
    assert!(matches!(settle(Event::new(EventVariant::Focused, 1), Intake::Allocation, None, false), (Admission::Release(_), None)));
    assert!(matches!(settle(Event::new(EventVariant::Focused, 1), Intake::Skip, None, true), (Admission::Release(_), None)));
    assert!(matches!(settle(Event::new(EventVariant::Focused, 1), Intake::ScrollReply, None, true), (Admission::Deliver(_), None)));
    assert!(matches!(settle(Event::new(EventVariant::Focused, 1), Intake::ScrollReply, None, false), (Admission::Release(_), None)));
    assert!(matches!(settle(Event::new(EventVariant::Focused, 1), Intake::Deliver, None, false), (Admission::Deliver(_), None)));
}

#[test]
fn routed_events_carry_layout_confirmation() {
    let ev = Response { content: ResponseContent::Event { content: EventVariant::Unfocused }, id: 3, request: None };
    match route(ev, Some(Discriminator::master())) {
        Routed::Event(e) => assert_eq!(e.ids_to_resolve(), 2),
        _ => panic!("expected an event"),
    }
}

#[test]
fn clones_keep_values() {
    let s = Subscription::Multiple {
        subs: vec![(Subscription::specific_message_tag("a".to_string()), Some(1)), (Subscription::Focused, None)],
    };
    assert_eq!(s.clone(), s);
    let r = libccanvas::request::RenderRequest::RenderMultiple {
        tasks: vec![libccanvas::request::RenderRequest::setchar(1, 2, 'c'), libccanvas::request::RenderRequest::ClearAll],
    };
    assert_eq!(r.clone(), r);
    let ids_left = RequestIds::new().remaining();
    assert_eq!(ids_left, u32::MAX);
}
