use libccanvas::common::Rect;
use libccanvas::render::{clip, RenderQueue};
use libccanvas::request::{Colour, CursorStyle, RenderRequest, RequestContent, RequestIds};

fn tasks_of(r: &RenderRequest) -> &Vec<RenderRequest> {
    match r {
        RenderRequest::RenderMultiple { tasks } => tasks,
        _ => panic!("not a composite"),
    }
}

#[test]
fn batch_keeps_queue_order() {
    let mut q = RenderQueue::new();
    q.setchar(1, 2, 'a');
    q.showcursor();
    q.clear_area(0, 0, 3, 3);
    assert_eq!(q.len(), 3);
    let batch = q.take_batch(None).unwrap();
    assert_eq!(
        tasks_of(&batch),
        &vec![
            RenderRequest::SetChar { x: 1, y: 2, c: 'a' },
            RenderRequest::ShowCursor,
            RenderRequest::ClearArea { x: 0, y: 0, width: 3, height: 3 },
        ]
    );
    assert!(q.is_empty());
}

#[test]
fn empty_queue_flushes_nothing() {
    let mut q = RenderQueue::new();
    let mut ids = RequestIds::new();
    assert!(q.flush(None, &mut ids).is_none());
    // no identifier was used
    let mut q2 = RenderQueue::new();
    q2.hidecursor();
    let req = q2.flush(None, &mut ids).unwrap();
    assert_eq!(req.id, 1);
}

#[test]
fn flush_builds_one_render_request() {
    let mut q = RenderQueue::new();
    let mut ids = RequestIds::new();
    q.setcharcoloured(0, 0, 'x', Colour::Red, Colour::ansi(3));
    q.setcursorstyle(CursorStyle::SteadyBar);
    let req = q.flush(None, &mut ids).unwrap();
    assert!(req.target.path().is_empty());
    match &req.content {
        RequestContent::Render { content, flush } => {
            assert!(*flush);
            assert_eq!(tasks_of(content).len(), 2);
            assert_eq!(
                tasks_of(content)[1],
                RenderRequest::SetCursorStyle { style: CursorStyle::SteadyBar }
            );
        }
        _ => panic!("not a render request"),
    }
    assert!(q.is_empty());
}

#[test]
fn clip_drops_outside_and_offsets_inside() {
    let rect = Rect::new(5, 2, 10, 4);
    assert_eq!(clip(rect, &RenderRequest::setchar(12, 1, 'x')), None);
    assert_eq!(
        clip(rect, &RenderRequest::setchar(2, 1, 'x')),
        Some(RenderRequest::SetChar { x: 7, y: 3, c: 'x' })
    );
    assert_eq!(clip(rect, &RenderRequest::setchar(2, 4, 'x')), None);
    assert_eq!(clip(rect, &RenderRequest::setchar(9, 3, 'x')), Some(RenderRequest::setchar(14, 5, 'x')));
}

#[test]
fn clip_cuts_clear_area_to_fit() {
    let rect = Rect::new(5, 2, 10, 4);
    assert_eq!(
        clip(rect, &RenderRequest::ClearArea { x: 8, y: 1, width: 5, height: 10 }),
        Some(RenderRequest::ClearArea { x: 13, y: 3, width: 2, height: 3 })
    );
    assert_eq!(clip(rect, &RenderRequest::ClearArea { x: 11, y: 0, width: 1, height: 1 }), None);
    assert_eq!(clip(rect, &RenderRequest::ClearArea { x: 10, y: 1, width: 3, height: 1 }), None);
    assert_eq!(clip(rect, &RenderRequest::ClearArea { x: 0, y: 4, width: 3, height: 1 }), None);
    assert_eq!(
        clip(rect, &RenderRequest::ClearArea { x: 9, y: 3, width: 3, height: 3 }),
        Some(RenderRequest::ClearArea { x: 14, y: 5, width: 1, height: 1 })
    );
    assert_eq!(clip(rect, &RenderRequest::ClearAll), Some(RenderRequest::ClearAll));
}

#[test]
fn clip_omits_emptied_composites() {
    let rect = Rect::new(5, 2, 10, 4);
    let inner = RenderRequest::RenderMultiple { tasks: vec![RenderRequest::setchar(20, 0, 'a')] };
    let outer = RenderRequest::RenderMultiple {
        tasks: vec![inner, RenderRequest::setchar(1, 1, 'b')],
    };
    assert_eq!(
        clip(rect, &outer),
        Some(RenderRequest::RenderMultiple { tasks: vec![RenderRequest::setchar(6, 3, 'b')] })
    );
    let all_out = RenderRequest::RenderMultiple {
        tasks: vec![
            RenderRequest::setchar(10, 0, 'a'),
            RenderRequest::RenderMultiple { tasks: vec![] },
        ],
    };
    assert_eq!(clip(rect, &all_out), None);
}

#[test]
fn clipped_batch_fully_outside_sends_nothing() {
    let mut q = RenderQueue::new();
    let mut ids = RequestIds::new();
    q.setchar(50, 50, 'z');
    assert!(q.flush(Some(Rect::new(0, 0, 4, 4)), &mut ids).is_none());
    assert!(q.is_empty());
}

#[test]
fn clear_all_in_assigned_area_clears_that_area() {
    let mut q = RenderQueue::new();
    q.clear_all(Some(Rect::new(3, 4, 5, 6)));
    let batch = q.take_batch(Some(Rect::new(3, 4, 5, 6))).unwrap();
    assert_eq!(
        tasks_of(&batch),
        &vec![RenderRequest::ClearArea { x: 3, y: 4, width: 5, height: 6 }]
    );
    let mut q2 = RenderQueue::new();
    q2.clear_all(None);
    assert_eq!(tasks_of(&q2.take_batch(None).unwrap()), &vec![RenderRequest::ClearAll]);
}
