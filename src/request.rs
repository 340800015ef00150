//! Outbound requests: the protocol's verbs, render primitives, and the
//! process-wide request identifiers.
use vstd::prelude::*;

use crate::discriminator::Discriminator;
use crate::subscription::Subscription;

verus! {

/// A cursor style.
#[derive(Clone, Copy, PartialEq, Eq, Structural, Debug)]
pub enum CursorStyle {
    BlinkingBar,
    BlinkingBlock,
    BlinkingUnderline,
    SteadyBar,
    SteadyBlock,
    SteadyUnderline,
}

/// A terminal colour.
#[derive(Clone, Copy, PartialEq, Eq, Structural, Debug)]
pub enum Colour {
    Black,
    Blue,
    Cyan,
    Green,
    Magenta,
    Red,
    White,
    Yellow,
    LightBlack,
    LightBlue,
    LightCyan,
    LightGreen,
    LightMagenta,
    LightRed,
    LightWhite,
    LightYellow,
    Reset,
    Ansi { value: u8 },
    Rgb { red: u8, green: u8, blue: u8 },
}

impl Colour {
    pub fn ansi(value: u8) -> (r: Self)
        ensures
            r == (Colour::Ansi { value }),
    {
        Colour::Ansi { value }
    }

    pub fn rgb(r: u8, g: u8, b: u8) -> (c: Self)
        ensures
            c == (Colour::Rgb { red: r, green: g, blue: b }),
    {
        Colour::Rgb { red: r, green: g, blue: b }
    }
}

/// A state value intrinsic to the canvas, readable but not writable.
#[derive(Clone, Copy, PartialEq, Eq, Structural, Debug)]
pub enum StateValue {
    Focused,
    IsFocused,
    TermSize,
    WorkingDir,
}

/// A render primitive, or a composite of them that the host applies at once.
#[derive(PartialEq, Eq, Debug)]
pub enum RenderRequest {
    /// Set one cell.
    SetChar { x: u32, y: u32, c: char },
    /// Set one cell with colours.
    SetCharColoured { x: u32, y: u32, c: char, fg: Colour, bg: Colour },
    /// Flush all changes.
    Flush,
    /// Set the cursor's look.
    SetCursorStyle { style: CursorStyle },
    HideCursor,
    ShowCursor,
    /// Clear the whole canvas.
    ClearAll,
    /// Clear a rectangle.
    ClearArea { x: u32, y: u32, width: u32, height: u32 },
    /// Several requests applied together.
    RenderMultiple { tasks: Vec<RenderRequest> },
}

/// The mathematical shape of a render request: composites hold sequences.
pub enum RenderModel {
    SetChar { x: u32, y: u32, c: char },
    SetCharColoured { x: u32, y: u32, c: char, fg: Colour, bg: Colour },
    Flush,
    SetCursorStyle { style: CursorStyle },
    HideCursor,
    ShowCursor,
    ClearAll,
    ClearArea { x: u32, y: u32, width: u32, height: u32 },
    RenderMultiple { tasks: Seq<RenderModel> },
}

impl RenderRequest {
    /// The request as a mathematical value.
    pub open spec fn model(self) -> RenderModel
        decreases self,
    {
        match self {
            RenderRequest::SetChar { x, y, c } => RenderModel::SetChar { x, y, c },
            RenderRequest::SetCharColoured { x, y, c, fg, bg } => RenderModel::SetCharColoured {
                x,
                y,
                c,
                fg,
                bg,
            },
            RenderRequest::Flush => RenderModel::Flush,
            RenderRequest::SetCursorStyle { style } => RenderModel::SetCursorStyle { style },
            RenderRequest::HideCursor => RenderModel::HideCursor,
            RenderRequest::ShowCursor => RenderModel::ShowCursor,
            RenderRequest::ClearAll => RenderModel::ClearAll,
            RenderRequest::ClearArea { x, y, width, height } => RenderModel::ClearArea {
                x,
                y,
                width,
                height,
            },
            RenderRequest::RenderMultiple { tasks } => RenderModel::RenderMultiple {
                tasks: models_upto(tasks, tasks@.len()),
            },
        }
    }

    /// A request that sets one cell.
    pub fn setchar(x: u32, y: u32, c: char) -> (r: Self)
        ensures
            r.model() == (RenderModel::SetChar { x, y, c }),
    {
        RenderRequest::SetChar { x, y, c }
    }

    /// A request that sets one cell with colours.
    pub fn setchar_coloured(x: u32, y: u32, c: char, fg: Colour, bg: Colour) -> (r: Self)
        ensures
            r.model() == (RenderModel::SetCharColoured { x, y, c, fg, bg }),
    {
        RenderRequest::SetCharColoured { x, y, c, fg, bg }
    }

    /// A request that sets the cursor's look.
    pub fn setcursor(style: CursorStyle) -> (r: Self)
        ensures
            r.model() == (RenderModel::SetCursorStyle { style }),
    {
        RenderRequest::SetCursorStyle { style }
    }
}

/// The models of the first `n` requests of `tasks`, in order.
pub open spec fn models_upto(tasks: Vec<RenderRequest>, n: nat) -> Seq<RenderModel>
    decreases tasks, n,
{
    if n == 0 || n > tasks@.len() {
        Seq::empty()
    } else {
        proof {
            broadcast use vstd::std_specs::vec::axiom_vec_index_decreases;
        }
        models_upto(tasks, (n - 1) as nat).push(tasks@[n - 1].model())
    }
}

} // verus!

verus! {

/// What a request asks of the host.
#[derive(Clone, PartialEq, Debug)]
pub enum RequestContent {
    /// Acknowledge an event: `pass` lets lower-priority subscribers see it,
    /// otherwise the event is captured.
    ConfirmRecieve { id: u32, pass: bool },
    /// Subscribe to a channel with a priority (lower is served first).
    Subscribe {
        channel: Subscription,
        priority: Option<u32>,
        component: Option<Discriminator>,
    },
    /// Remove a subscription.
    Unsubscribe { channel: Subscription, component: Option<Discriminator> },
    /// Register the component's listener socket.
    SetSocket { path: std::path::PathBuf },
    /// Remove a component (this one where `discrim` is `None`).
    Drop { discrim: Option<Discriminator> },
    /// Render to the terminal.
    Render { content: RenderRequest, flush: bool },
    /// Spawn a process.
    Spawn {
        command: String,
        args: Vec<String>,
        env: std::collections::BTreeMap<String, String>,
        label: String,
    },
    /// Send a message to a component, or to every member of a space.
    Message {
        content: serde_json::Value,
        sender: Discriminator,
        target: Discriminator,
        tag: String,
    },
    /// Create a space.
    NewSpace { label: String },
    /// Focus the target space.
    FocusAt,
    /// Read an intrinsic state value.
    GetState { label: StateValue },
    /// Read an entry.
    GetEntry { label: String },
    /// Remove an entry.
    RemoveEntry { label: String },
    /// Set an entry, creating it where it does not exist.
    SetEntry { label: String, value: serde_json::Value },
    /// Watch an entry for changes.
    Watch { label: String },
    /// Stop watching an entry.
    Unwatch { label: String, watcher: Discriminator },
    /// Suppress a channel for subscribers at or below a priority.
    Suppress { channel: Subscription, priority: u32 },
    /// Lift a suppression.
    Unsuppress { channel: Subscription, id: u32 },
}

/// A request to the host.
#[derive(Clone, PartialEq, Debug)]
pub struct Request {
    /// The recipient; empty for the host itself or the invoking component.
    pub target: Discriminator,
    /// What is asked.
    pub content: RequestContent,
    /// The identifier that the response carries back.
    pub id: u32,
}

/// The source of request identifiers: each one issued is greater than every
/// one issued before it, so none is issued twice.
pub struct RequestIds {
    last: u32,
    issued: Ghost<Set<u32>>,
}

impl RequestIds {
    #[verifier::type_invariant]
    spec fn inv(self) -> bool {
        forall|i: u32| self.issued@.contains(i) ==> i <= self.last
    }

    /// The last identifier issued, or 0 before the first.
    pub closed spec fn last_issued(self) -> u32 {
        self.last
    }

    /// Every identifier issued so far.
    pub closed spec fn issued(self) -> Set<u32> {
        self.issued@
    }

    pub fn new() -> (r: Self)
        ensures
            r.last_issued() == 0,
            r.issued() == Set::<u32>::empty(),
    {
        RequestIds { last: 0, issued: Ghost(Set::empty()) }
    }

    /// Whether every identifier has been issued.
    pub fn exhausted(&self) -> (r: bool)
        ensures
            r == (self.last_issued() == u32::MAX),
    {
        self.last == u32::MAX
    }

    /// How many identifiers are left to issue.
    pub fn remaining(&self) -> (r: u32)
        ensures
            r == u32::MAX - self.last_issued(),
    {
        u32::MAX - self.last
    }

    /// Issues the next identifier, one above the last.
    pub fn next(&mut self) -> (r: u32)
        requires
            old(self).last_issued() < u32::MAX,
        ensures
            r == old(self).last_issued() + 1,
            !old(self).issued().contains(r),
            final(self).issued() == old(self).issued().insert(r),
            final(self).last_issued() == r,
    {
        proof {
            use_type_invariant(&*self);
        }
        let r = self.last + 1;
        let ghost issued = self.issued@.insert(r);
        *self = RequestIds { last: r, issued: Ghost(issued) };
        r
    }
}

impl Request {
    /// A request with the next identifier of `ids`.
    pub fn new(target: Discriminator, content: RequestContent, ids: &mut RequestIds) -> (r: Self)
        requires
            old(ids).last_issued() < u32::MAX,
        ensures
            r.target == target,
            r.content == content,
            r.id == old(ids).last_issued() + 1,
            !old(ids).issued().contains(r.id),
            final(ids).issued() == old(ids).issued().insert(r.id),
            final(ids).last_issued() == r.id,
    {
        let id = ids.next();
        Request { target, content, id }
    }

    /// The identifier of the request.
    pub fn id(&self) -> (r: u32)
        ensures
            r == self.id,
    {
        self.id
    }
}

} // verus!
