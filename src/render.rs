//! The render batch and clip pipeline: primitives are queued locally and
//! sent as one composite request, moved into an assigned rectangle first
//! where the component owns only part of the canvas.
use vstd::prelude::*;

use crate::common::Rect;
use crate::discriminator::Discriminator;
use crate::request::{
    models_upto, CursorStyle, Colour, RenderModel, RenderRequest, Request, RequestContent,
    RequestIds,
};

verus! {

/// The model of an optional request.
pub open spec fn model_of(o: Option<RenderRequest>) -> Option<RenderModel> {
    match o {
        Some(r) => Some(r.model()),
        None => None,
    }
}

/// A primitive moved into `rect`, or `None` where it is dropped.
///
/// Cells outside `[0, width) x [0, height)` are dropped and the rest are
/// offset by the rectangle's origin. A cleared area whose origin lies
/// outside `[0, width) x [0, height)` is dropped; the rest are cut to fit
/// and offset.
/// A composite keeps the clipped children that survive, in order, and is
/// dropped where none does. Everything else passes unchanged.
pub open spec fn clip_model(rect: Rect, m: RenderModel) -> Option<RenderModel>
    decreases m,
{
    match m {
        RenderModel::SetChar { x, y, c } => if x >= rect.width || y >= rect.height {
            None
        } else {
            Some(RenderModel::SetChar { x: (x + rect.x) as u32, y: (y + rect.y) as u32, c })
        },
        RenderModel::SetCharColoured { x, y, c, fg, bg } => if x >= rect.width || y
            >= rect.height {
            None
        } else {
            Some(
                RenderModel::SetCharColoured {
                    x: (x + rect.x) as u32,
                    y: (y + rect.y) as u32,
                    c,
                    fg,
                    bg,
                },
            )
        },
        RenderModel::ClearArea { x, y, width, height } => if x >= rect.width || y >= rect.height {
            None
        } else {
            Some(
                RenderModel::ClearArea {
                    x: (x + rect.x) as u32,
                    y: (y + rect.y) as u32,
                    width: if width + x > rect.width {
                        (rect.width - x) as u32
                    } else {
                        width
                    },
                    height: if height + y > rect.height {
                        (rect.height - y) as u32
                    } else {
                        height
                    },
                },
            )
        },
        RenderModel::RenderMultiple { tasks } => {
            let kept = clip_models(rect, tasks, tasks.len());
            if kept.len() == 0 {
                None
            } else {
                Some(RenderModel::RenderMultiple { tasks: kept })
            }
        },
        _ => Some(m),
    }
}

/// The surviving clipped forms of the first `n` of `s`, in order.
pub open spec fn clip_models(rect: Rect, s: Seq<RenderModel>, n: nat) -> Seq<RenderModel>
    decreases s, n,
{
    if n == 0 || n > s.len() {
        Seq::empty()
    } else {
        let prefix = clip_models(rect, s, (n - 1) as nat);
        match clip_model(rect, s[n - 1]) {
            Some(m) => prefix.push(m),
            None => prefix,
        }
    }
}

/// No composite anywhere in the request is empty.
pub open spec fn no_empty_composite(m: RenderModel) -> bool
    decreases m,
{
    match m {
        RenderModel::RenderMultiple { tasks } => tasks.len() > 0 && all_no_empty_composite(
            tasks,
            tasks.len(),
        ),
        _ => true,
    }
}

/// No composite anywhere in the first `n` requests of `s` is empty.
pub open spec fn all_no_empty_composite(s: Seq<RenderModel>, n: nat) -> bool
    decreases s, n,
{
    if n == 0 || n > s.len() {
        true
    } else {
        all_no_empty_composite(s, (n - 1) as nat) && no_empty_composite(s[n - 1])
    }
}

proof fn lemma_all_no_empty_push(p: Seq<RenderModel>, m: RenderModel, k: nat)
    requires
        k <= p.len(),
    ensures
        all_no_empty_composite(p.push(m), k) == all_no_empty_composite(p, k),
    decreases k,
{
    if k > 0 {
        lemma_all_no_empty_push(p, m, (k - 1) as nat);
        assert(p.push(m)[k - 1] == p[k - 1]);
    }
}

/// The models of a vector's requests are those of its elements, in order.
pub proof fn lemma_models_upto(v: Vec<RenderRequest>, n: nat)
    requires
        n <= v@.len(),
    ensures
        models_upto(v, n) == Seq::new(n, |j: int| v@[j].model()),
    decreases n,
{
    if n > 0 {
        lemma_models_upto(v, (n - 1) as nat);
    }
    assert(models_upto(v, n) =~= Seq::new(n, |j: int| v@[j].model()));
}

/// Clipping never produces an empty composite: a composite all of whose
/// children are clipped away is itself dropped, at every depth.
pub proof fn lemma_clip_drops_empty_composites(rect: Rect, m: RenderModel)
    ensures
        clip_model(rect, m) matches Some(o) ==> no_empty_composite(o),
    decreases m,
{
    if let RenderModel::RenderMultiple { tasks } = m {
        lemma_clip_models_no_empty(rect, tasks, tasks.len());
    }
}

proof fn lemma_clip_models_no_empty(rect: Rect, s: Seq<RenderModel>, n: nat)
    ensures
        all_no_empty_composite(clip_models(rect, s, n), clip_models(rect, s, n).len()),
    decreases s, n,
{
    if n == 0 || n > s.len() {
    } else {
        lemma_clip_models_no_empty(rect, s, (n - 1) as nat);
        lemma_clip_drops_empty_composites(rect, s[n - 1]);
        let prefix = clip_models(rect, s, (n - 1) as nat);
        match clip_model(rect, s[n - 1]) {
            Some(m) => {
                lemma_all_no_empty_push(prefix, m, prefix.len());
                assert(prefix.push(m)[prefix.len() as int] == m);
            },
            None => {},
        }
    }
}

/// Moves one request into `rect`; `None` where clipping drops it.
pub fn clip(rect: Rect, req: &RenderRequest) -> (r: Option<RenderRequest>)
    requires
        rect.fits(),
    ensures
        model_of(r) == clip_model(rect, req.model()),
    decreases req,
{
    match req {
        RenderRequest::SetChar { x, y, c } => {
            if *x >= rect.width || *y >= rect.height {
                None
            } else {
                Some(RenderRequest::SetChar { x: *x + rect.x, y: *y + rect.y, c: *c })
            }
        },
        RenderRequest::SetCharColoured { x, y, c, fg, bg } => {
            if *x >= rect.width || *y >= rect.height {
                None
            } else {
                Some(
                    RenderRequest::SetCharColoured {
                        x: *x + rect.x,
                        y: *y + rect.y,
                        c: *c,
                        fg: *fg,
                        bg: *bg,
                    },
                )
            }
        },
        RenderRequest::ClearArea { x, y, width, height } => {
            if *x >= rect.width || *y >= rect.height {
                None
            } else {
                let w = if *width > rect.width - *x {
                    rect.width - *x
                } else {
                    *width
                };
                let h = if *height > rect.height - *y {
                    rect.height - *y
                } else {
                    *height
                };
                Some(RenderRequest::ClearArea { x: *x + rect.x, y: *y + rect.y, width: w, height: h })
            }
        },
        RenderRequest::RenderMultiple { tasks } => {
            let ghost s = models_upto(*tasks, tasks@.len());
            proof {
                lemma_models_upto(*tasks, tasks@.len());
            }
            proof {
                assert(decreases_to!(*req => *tasks));
            }
            let mut kept: Vec<RenderRequest> = Vec::new();
            let mut i: usize = 0;
            while i < tasks.len()
                invariant
                    i <= tasks@.len(),
                    s == Seq::new(tasks@.len(), |j: int| tasks@[j].model()),
                    rect.fits(),
                    decreases_to!(*req => *tasks),
                    models_upto(kept, kept@.len()) == clip_models(rect, s, i as nat),
                decreases tasks@.len() - i,
            {
                proof {
                    broadcast use vstd::std_specs::vec::axiom_vec_index_decreases;
                    assert(decreases_to!(*tasks => tasks[i as int]));
                    assert(decreases_to!(*req => tasks[i as int]));
                }
                let c = clip(rect, &tasks[i]);
                proof {
                    lemma_models_upto(kept, kept@.len());
                }
                match c {
                    Some(q) => {
                        kept.push(q);
                        proof {
                            lemma_models_upto(kept, kept@.len());
                            assert(models_upto(kept, kept@.len()) =~= clip_models(
                                rect,
                                s,
                                (i + 1) as nat,
                            ));
                        }
                    },
                    None => {},
                }
                i += 1;
            }
            proof {
                lemma_models_upto(kept, kept@.len());
            }
            if kept.len() == 0 {
                None
            } else {
                Some(RenderRequest::RenderMultiple { tasks: kept })
            }
        },
        RenderRequest::Flush => Some(RenderRequest::Flush),
        RenderRequest::SetCursorStyle { style } => Some(
            RenderRequest::SetCursorStyle { style: *style },
        ),
        RenderRequest::HideCursor => Some(RenderRequest::HideCursor),
        RenderRequest::ShowCursor => Some(RenderRequest::ShowCursor),
        RenderRequest::ClearAll => Some(RenderRequest::ClearAll),
    }
}

impl RenderRequest {
    /// A copy of the request.
    pub fn duplicate(&self) -> (r: Self)
        ensures
            r.model() == self.model(),
        decreases self,
    {
        match self {
            RenderRequest::RenderMultiple { tasks } => {
                proof {
                    lemma_models_upto(*tasks, tasks@.len());
                    assert(decreases_to!(*self => *tasks));
                }
                let mut copy: Vec<RenderRequest> = Vec::new();
                let mut i: usize = 0;
                while i < tasks.len()
                    invariant
                        i <= tasks@.len(),
                        decreases_to!(*self => *tasks),
                        models_upto(copy, copy@.len()) == models_upto(*tasks, i as nat),
                        copy@.len() == i,
                        models_upto(*tasks, tasks@.len()) == Seq::new(
                            tasks@.len(),
                            |j: int| tasks@[j].model(),
                        ),
                    decreases tasks@.len() - i,
                {
                    proof {
                        broadcast use vstd::std_specs::vec::axiom_vec_index_decreases;
                        assert(decreases_to!(*tasks => tasks[i as int]));
                        assert(decreases_to!(*self => tasks[i as int]));
                    }
                    let c = tasks[i].duplicate();
                    proof {
                        lemma_models_upto(copy, copy@.len());
                        lemma_models_upto(*tasks, i as nat);
                    }
                    copy.push(c);
                    proof {
                        lemma_models_upto(copy, copy@.len());
                        lemma_models_upto(*tasks, (i + 1) as nat);
                        assert(models_upto(copy, copy@.len()) =~= models_upto(*tasks, (i + 1) as nat));
                    }
                    i += 1;
                }
                RenderRequest::RenderMultiple { tasks: copy }
            },
            RenderRequest::SetChar { x, y, c } => RenderRequest::SetChar { x: *x, y: *y, c: *c },
            RenderRequest::SetCharColoured { x, y, c, fg, bg } => RenderRequest::SetCharColoured {
                x: *x,
                y: *y,
                c: *c,
                fg: *fg,
                bg: *bg,
            },
            RenderRequest::Flush => RenderRequest::Flush,
            RenderRequest::SetCursorStyle { style } => RenderRequest::SetCursorStyle { style: *style },
            RenderRequest::HideCursor => RenderRequest::HideCursor,
            RenderRequest::ShowCursor => RenderRequest::ShowCursor,
            RenderRequest::ClearAll => RenderRequest::ClearAll,
            RenderRequest::ClearArea { x, y, width, height } => RenderRequest::ClearArea {
                x: *x,
                y: *y,
                width: *width,
                height: *height,
            },
        }
    }
}

impl Clone for RenderRequest {
    fn clone(&self) -> (r: Self) {
        self.duplicate()
    }
}

/// The request that carries a batch of queued primitives: nothing for an
/// empty batch, else one composite of them in the order queued, clipped
/// into the rectangle where one is assigned.
pub open spec fn batch_model(queued: Seq<RenderModel>, clip_to: Option<Rect>) -> Option<
    RenderModel,
> {
    if queued.len() == 0 {
        None
    } else {
        match clip_to {
            None => Some(RenderModel::RenderMultiple { tasks: queued }),
            Some(rect) => clip_model(rect, RenderModel::RenderMultiple { tasks: queued }),
        }
    }
}

/// The render primitive and the flush flag of a render request's content.
pub open spec fn render_content(c: RequestContent) -> Option<(RenderModel, bool)> {
    match c {
        RequestContent::Render { content, flush } => Some((content.model(), flush)),
        _ => None,
    }
}

/// Render primitives waiting to be sent, in the order they were queued.
pub struct RenderQueue {
    tasks: Vec<RenderRequest>,
}

impl View for RenderQueue {
    type V = Seq<RenderModel>;

    closed spec fn view(&self) -> Seq<RenderModel> {
        models_upto(self.tasks, self.tasks@.len())
    }
}

impl RenderQueue {
    pub fn new() -> (r: Self)
        ensures
            r@ == Seq::<RenderModel>::empty(),
    {
        RenderQueue { tasks: Vec::new() }
    }

    /// The number of queued primitives.
    pub fn len(&self) -> (r: usize)
        ensures
            r == self@.len(),
    {
        proof {
            lemma_models_upto(self.tasks, self.tasks@.len());
        }
        self.tasks.len()
    }

    pub fn is_empty(&self) -> (r: bool)
        ensures
            r == (self@.len() == 0),
    {
        proof {
            lemma_models_upto(self.tasks, self.tasks@.len());
        }
        self.tasks.len() == 0
    }

    /// Queues a request behind those already queued.
    pub fn push(&mut self, req: RenderRequest)
        ensures
            final(self)@ == old(self)@.push(req.model()),
    {
        proof {
            lemma_models_upto(self.tasks, self.tasks@.len());
        }
        self.tasks.push(req);
        proof {
            lemma_models_upto(self.tasks, self.tasks@.len());
            assert(self@ =~= old(self)@.push(req.model()));
        }
    }

    /// Queues setting one cell.
    pub fn setchar(&mut self, x: u32, y: u32, c: char)
        ensures
            final(self)@ == old(self)@.push(RenderModel::SetChar { x, y, c }),
    {
        self.push(RenderRequest::setchar(x, y, c));
    }

    /// Queues setting one cell with colours.
    pub fn setcharcoloured(&mut self, x: u32, y: u32, c: char, fg: Colour, bg: Colour)
        ensures
            final(self)@ == old(self)@.push(RenderModel::SetCharColoured { x, y, c, fg, bg }),
    {
        self.push(RenderRequest::setchar_coloured(x, y, c, fg, bg));
    }

    /// Queues a change of the cursor's look.
    pub fn setcursorstyle(&mut self, style: CursorStyle)
        ensures
            final(self)@ == old(self)@.push(RenderModel::SetCursorStyle { style }),
    {
        self.push(RenderRequest::setcursor(style));
    }

    /// Queues showing the cursor.
    pub fn showcursor(&mut self)
        ensures
            final(self)@ == old(self)@.push(RenderModel::ShowCursor),
    {
        self.push(RenderRequest::ShowCursor);
    }

    /// Queues hiding the cursor.
    pub fn hidecursor(&mut self)
        ensures
            final(self)@ == old(self)@.push(RenderModel::HideCursor),
    {
        self.push(RenderRequest::HideCursor);
    }

    /// Queues clearing a rectangle.
    pub fn clear_area(&mut self, x: u32, y: u32, width: u32, height: u32)
        ensures
            final(self)@ == old(self)@.push(RenderModel::ClearArea { x, y, width, height }),
    {
        self.push(RenderRequest::ClearArea { x, y, width, height });
    }

    /// Queues clearing everything the component owns: the whole canvas, or,
    /// where a rectangle is assigned, all of that rectangle.
    pub fn clear_all(&mut self, assigned: Option<Rect>)
        ensures
            final(self)@ == old(self)@.push(
                match assigned {
                    None => RenderModel::ClearAll,
                    Some(rect) => RenderModel::ClearArea {
                        x: 0,
                        y: 0,
                        width: rect.width,
                        height: rect.height,
                    },
                },
            ),
    {
        match assigned {
            None => self.push(RenderRequest::ClearAll),
            Some(rect) => self.clear_area(0, 0, rect.width, rect.height),
        }
    }

    /// Takes everything queued, leaving the queue empty, and returns the
    /// composite request that carries it, clipped into the assigned
    /// rectangle if there is one; `None` where nothing is left to send.
    pub fn take_batch(&mut self, clip_to: Option<Rect>) -> (r: Option<RenderRequest>)
        requires
            clip_to matches Some(rect) ==> rect.fits(),
        ensures
            final(self)@ == Seq::<RenderModel>::empty(),
            model_of(r) == batch_model(old(self)@, clip_to),
    {
        let mut tasks: Vec<RenderRequest> = Vec::new();
        core::mem::swap(&mut self.tasks, &mut tasks);
        proof {
            lemma_models_upto(tasks, tasks@.len());
            lemma_models_upto(self.tasks, self.tasks@.len());
            assert(self@ =~= Seq::<RenderModel>::empty());
        }
        if tasks.len() == 0 {
            return None;
        }
        let batch = RenderRequest::RenderMultiple { tasks };
        match clip_to {
            None => Some(batch),
            Some(rect) => clip(rect, &batch),
        }
    }

    /// Takes everything queued and builds the one render request that sends
    /// it, with the next identifier of `ids`; `None`, with no identifier
    /// used, where nothing is left to send.
    pub fn flush(&mut self, clip_to: Option<Rect>, ids: &mut RequestIds) -> (r: Option<Request>)
        requires
            clip_to matches Some(rect) ==> rect.fits(),
            old(ids).last_issued() < u32::MAX,
        ensures
            final(self)@ == Seq::<RenderModel>::empty(),
            match r {
                None => batch_model(old(self)@, clip_to) is None && *final(ids) == *old(ids),
                Some(req) => {
                    &&& batch_model(old(self)@, clip_to) matches Some(m)
                    &&& render_content(req.content) == Some((m, true))
                    &&& req.target@ == Seq::<u32>::empty()
                    &&& req.id == old(ids).last_issued() + 1
                    &&& !old(ids).issued().contains(req.id)
                    &&& final(ids).issued() == old(ids).issued().insert(req.id)
                    &&& final(ids).last_issued() == req.id
                },
            },
    {
        match self.take_batch(clip_to) {
            None => None,
            Some(batch) => Some(
                Request::new(
                    Discriminator::empty(),
                    RequestContent::Render { content: batch, flush: true },
                    ids,
                ),
            ),
        }
    }
}

} // verus!
