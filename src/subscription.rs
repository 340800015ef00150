//! Channel descriptions for subscriptions and suppressions.
use vstd::prelude::*;

use crate::discriminator::Discriminator;
use crate::keys::{KeyCode, KeyEvent, KeyModifier, MouseType};

verus! {

/// A channel of events that a component can subscribe to.
#[derive(Hash, PartialEq, Eq, Debug)]
pub enum Subscription {
    /// Every event.
    Everything,
    /// All key presses.
    AllKeyPresses,
    /// All mouse clicks and drags.
    AllMouseEvents,
    /// All messages from other components.
    AllMessages,
    /// One key event.
    SpecificKeyPress { key: KeyEvent },
    /// Key events with this modifier.
    SpecificKeyModifier { modifier: KeyModifier },
    /// Key events with this key code.
    SpecificKeyCode { code: KeyCode },
    /// One kind of mouse event.
    SpecificMouseEvent { mouse: MouseType },
    /// Messages from one component.
    SpecificMessage { source: Discriminator },
    /// Messages with this tag.
    SpecificMessageTag { tag: String },
    /// Screen resizes.
    ScreenResize,
    /// The parent space gained focus.
    Focused,
    /// The parent space lost focus.
    Unfocused,
    /// Several channels at once, each with its own priority.
    Multiple { subs: Vec<(Subscription, Option<u32>)> },
}

impl Subscription {
    pub fn specific_keypress(key: KeyEvent) -> (r: Self)
        ensures
            r == (Subscription::SpecificKeyPress { key }),
    {
        Subscription::SpecificKeyPress { key }
    }

    pub fn specific_keycode(code: KeyCode) -> (r: Self)
        ensures
            r == (Subscription::SpecificKeyCode { code }),
    {
        Subscription::SpecificKeyCode { code }
    }

    pub fn specific_keymodifier(modifier: KeyModifier) -> (r: Self)
        ensures
            r == (Subscription::SpecificKeyModifier { modifier }),
    {
        Subscription::SpecificKeyModifier { modifier }
    }

    pub fn specific_mouse(mousetype: MouseType) -> (r: Self)
        ensures
            r == (Subscription::SpecificMouseEvent { mouse: mousetype }),
    {
        Subscription::SpecificMouseEvent { mouse: mousetype }
    }

    pub fn specific_message(source: Discriminator) -> (r: Self)
        ensures
            r == (Subscription::SpecificMessage { source }),
    {
        Subscription::SpecificMessage { source }
    }

    pub fn specific_message_tag(tag: String) -> (r: Self)
        ensures
            r == (Subscription::SpecificMessageTag { tag }),
    {
        Subscription::SpecificMessageTag { tag }
    }

    /// Pairs the channel with a priority; lower values are served first.
    pub fn with_priority(self, priority: u32) -> (r: (Self, Option<u32>))
        ensures
            r == (self, Some(priority)),
    {
        (self, Some(priority))
    }

    /// Pairs the channel with the default (lowest) priority.
    pub fn without_priority(self) -> (r: (Self, Option<u32>))
        ensures
            r == (self, None::<u32>),
    {
        (self, None)
    }

    /// Whether this is the screen-resize channel.
    pub fn is_screen_resize(&self) -> (r: bool)
        ensures
            r == (*self is ScreenResize),
    {
        matches!(self, Subscription::ScreenResize)
    }
}

impl From<Subscription> for (Subscription, Option<u32>) {
    fn from(value: Subscription) -> (r: Self) {
        (value, None)
    }
}

impl vstd::std_specs::convert::FromSpecImpl<Subscription> for (Subscription, Option<u32>) {
    open spec fn obeys_from_spec() -> bool {
        true
    }

    open spec fn from_spec(v: Subscription) -> Self {
        (v, None)
    }
}

impl Subscription {
    /// A copy of the channel.
    pub fn duplicate(&self) -> (r: Self)
        decreases self,
    {
        match self {
            Subscription::Everything => Subscription::Everything,
            Subscription::AllKeyPresses => Subscription::AllKeyPresses,
            Subscription::AllMouseEvents => Subscription::AllMouseEvents,
            Subscription::AllMessages => Subscription::AllMessages,
            Subscription::SpecificKeyPress { key } => Subscription::SpecificKeyPress { key: *key },
            Subscription::SpecificKeyModifier { modifier } => Subscription::SpecificKeyModifier {
                modifier: *modifier,
            },
            Subscription::SpecificKeyCode { code } => Subscription::SpecificKeyCode { code: *code },
            Subscription::SpecificMouseEvent { mouse } => Subscription::SpecificMouseEvent {
                mouse: *mouse,
            },
            Subscription::SpecificMessage { source } => Subscription::SpecificMessage {
                source: source.clone(),
            },
            Subscription::SpecificMessageTag { tag } => Subscription::SpecificMessageTag {
                tag: tag.clone(),
            },
            Subscription::ScreenResize => Subscription::ScreenResize,
            Subscription::Focused => Subscription::Focused,
            Subscription::Unfocused => Subscription::Unfocused,
            Subscription::Multiple { subs } => {
                proof {
                    assert(decreases_to!(*self => *subs));
                }
                let mut copy: Vec<(Subscription, Option<u32>)> = Vec::new();
                let mut i: usize = 0;
                while i < subs.len()
                    invariant
                        i <= subs@.len(),
                        decreases_to!(*self => *subs),
                    decreases subs@.len() - i,
                {
                    proof {
                        broadcast use vstd::std_specs::vec::axiom_vec_index_decreases;
                        assert(decreases_to!(*subs => subs[i as int]));
                        assert(decreases_to!(subs[i as int] => subs[i as int].0));
                        assert(decreases_to!(*self => subs[i as int].0));
                    }
                    let item = &subs[i];
                    copy.push((item.0.duplicate(), item.1));
                    i += 1;
                }
                Subscription::Multiple { subs: copy }
            },
        }
    }
}

impl Clone for Subscription {
    fn clone(&self) -> (r: Self) {
        self.duplicate()
    }
}

/// The channels of a batch subscription that are sent to the host: all of
/// them, or, where the host's layout service reports resizes itself, all
/// but the screen-resize channels, in the order given.
pub open spec fn batch_channels(
    subs: Seq<(Subscription, Option<u32>)>,
    layouted: bool,
) -> Seq<(Subscription, Option<u32>)> {
    if layouted {
        subs.filter(|s: (Subscription, Option<u32>)| !(s.0 is ScreenResize))
    } else {
        subs
    }
}

/// Selects the channels of a batch subscription that go to the host.
pub fn batch_subscription(subs: Vec<(Subscription, Option<u32>)>, layouted: bool) -> (r: Vec<
    (Subscription, Option<u32>),
>)
    ensures
        r@ == batch_channels(subs@, layouted),
{
    if !layouted {
        return subs;
    }
    let ghost all = subs@;
    let mut rest = subs;
    let mut kept: Vec<(Subscription, Option<u32>)> = Vec::new();
    let mut i: usize = 0;
    let n = rest.len();
    while i < n
        invariant
            n == all.len(),
            i <= n,
            rest@ == all.subrange(i as int, n as int),
            kept@ == all.subrange(0, i as int).filter(
                |s: (Subscription, Option<u32>)| !(s.0 is ScreenResize),
            ),
        decreases n - i,
    {
        let item = rest.remove(0);
        proof {
            reveal(Seq::filter);
            assert(all.subrange(0, i + 1).drop_last() == all.subrange(0, i as int));
            assert(all.subrange(0, i + 1).last() == item);
        }
        if !item.0.is_screen_resize() {
            kept.push(item);
        }
        i += 1;
    }
    proof {
        assert(all.subrange(0, n as int) == all);
    }
    kept
}

} // verus!
