//! The client-side description of a split layout: a tree of regions that a
//! layout service divides the component's area into.
use vstd::prelude::*;

use crate::common::{Direction, Rect};
use crate::discriminator::Discriminator;
use crate::request::Colour;

verus! {

/// A border around a layout region.
#[derive(PartialEq, Debug)]
pub struct Border {
    /// The colour of the border.
    pub colour: Colour,
    /// The style of the border.
    pub style: BorderType,
}

/// The line style of a border.
#[derive(PartialEq, Debug)]
pub enum BorderType {
    Normal,
    Rounded,
    Double,
    Thick,
    Custom {
        left: char,
        topleft: char,
        top: char,
        topright: char,
        right: char,
        bottomright: char,
        bottom: char,
        bottomleft: char,
    },
}

impl Border {
    pub fn new(colour: Colour, style: BorderType) -> (r: Self)
        ensures
            r == (Border { colour, style }),
    {
        Border { colour, style }
    }
}

/// A length: a base, plus and minus optional offsets that are lengths too.
#[derive(PartialEq, Debug)]
pub struct Constraint {
    base: ConstraintVariant,
    offset_pos: Option<Box<Constraint>>,
    offset_neg: Option<Box<Constraint>>,
}

/// The base of a length.
#[derive(Clone, Copy, PartialEq, Eq, Structural, Debug)]
pub enum ConstraintVariant {
    /// At most this much.
    Max { value: u32 },
    /// At least this much, or the region is not drawn.
    Min { value: u32 },
    /// Exactly this much.
    Length { value: u32 },
    /// This percentage of what is left.
    Percentage { value: u32 },
}

impl ConstraintVariant {
    pub fn max(value: u32) -> (r: Self)
        ensures
            r == (ConstraintVariant::Max { value }),
    {
        ConstraintVariant::Max { value }
    }

    pub fn min(value: u32) -> (r: Self)
        ensures
            r == (ConstraintVariant::Min { value }),
    {
        ConstraintVariant::Min { value }
    }

    pub fn length(value: u32) -> (r: Self)
        ensures
            r == (ConstraintVariant::Length { value }),
    {
        ConstraintVariant::Length { value }
    }

    pub fn percentage(value: u32) -> (r: Self)
        ensures
            r == (ConstraintVariant::Percentage { value }),
    {
        ConstraintVariant::Percentage { value }
    }
}

impl Constraint {
    /// The base length.
    pub closed spec fn base(self) -> ConstraintVariant {
        self.base
    }

    /// The length added to the base, if any.
    pub closed spec fn offset_pos(self) -> Option<Constraint> {
        match self.offset_pos {
            Some(b) => Some(*b),
            None => None,
        }
    }

    /// The length taken from the base, if any.
    pub closed spec fn offset_neg(self) -> Option<Constraint> {
        match self.offset_neg {
            Some(b) => Some(*b),
            None => None,
        }
    }

    pub fn new(
        base: ConstraintVariant,
        offset_pos: Option<Constraint>,
        offset_neg: Option<Constraint>,
    ) -> (r: Self)
        ensures
            r.base() == base,
            r.offset_pos() == offset_pos,
            r.offset_neg() == offset_neg,
    {
        let pos = match offset_pos {
            Some(c) => Some(Box::new(c)),
            None => None,
        };
        let neg = match offset_neg {
            Some(c) => Some(Box::new(c)),
            None => None,
        };
        Constraint { base, offset_pos: pos, offset_neg: neg }
    }

    /// The base and the two offsets.
    pub fn into_parts(self) -> (r: (ConstraintVariant, Option<Constraint>, Option<Constraint>))
        ensures
            r == (self.base(), self.offset_pos(), self.offset_neg()),
    {
        let pos = match self.offset_pos {
            Some(b) => Some(*b),
            None => None,
        };
        let neg = match self.offset_neg {
            Some(b) => Some(*b),
            None => None,
        };
        (self.base, pos, neg)
    }
}

impl From<ConstraintVariant> for Constraint {
    fn from(value: ConstraintVariant) -> (r: Self)
        ensures
            r.base() == value,
            r.offset_pos() is None,
            r.offset_neg() is None,
    {
        Constraint::new(value, None, None)
    }
}

impl vstd::std_specs::convert::FromSpecImpl<ConstraintVariant> for Constraint {
    open spec fn obeys_from_spec() -> bool {
        true
    }

    closed spec fn from_spec(v: ConstraintVariant) -> Self {
        Constraint { base: v, offset_pos: None, offset_neg: None }
    }
}

/// Space allocated to the component by the layout service.
#[derive(Clone, Copy, PartialEq, Eq, Structural, Debug)]
pub struct LayoutInfo {
    /// The area allocated.
    pub rect: Rect,
}

impl LayoutInfo {
    pub fn new(rect: Rect) -> (r: Self)
        ensures
            r.rect == rect,
    {
        LayoutInfo { rect }
    }
}

/// A layout tree.
#[derive(PartialEq, Debug)]
pub enum Layout {
    /// Nothing.
    Empty,
    /// One region, showing a component or blank, maybe bordered.
    Single { discrim: Option<Discriminator>, border: Option<Border> },
    /// Two regions side by side.
    SplitHorizontal {
        left_constraint: Constraint,
        left: Box<Layout>,
        right_constraint: Constraint,
        right: Box<Layout>,
    },
    /// Two regions one above the other.
    SplitVertical {
        top_constraint: Constraint,
        top: Box<Layout>,
        bottom_constraint: Constraint,
        bottom: Box<Layout>,
    },
}

impl Default for Layout {
    fn default() -> (r: Self)
        ensures
            r == Layout::Empty,
    {
        Layout::Empty
    }
}

/// A request to a layout service.
#[derive(PartialEq, Debug)]
pub enum LayoutRequest {
    /// Split the region at `at`, putting a new region on the `split` side.
    Add {
        at: Vec<Direction>,
        split: Direction,
        constraint_1: Constraint,
        constraint_2: Constraint,
        component: Option<Discriminator>,
        border: Option<Border>,
    },
    /// Remove the region at `at`.
    Remove { at: Vec<Direction> },
    /// Replace the region at `at`.
    SetLayout { at: Vec<Direction>, layout: Layout },
}

/// `old` split with a new region `new` placed on the `split` side of it;
/// `c1` sizes the top or left part, `c2` the bottom or right part.
pub open spec fn split_with(
    old: Layout,
    split: Direction,
    c1: Constraint,
    c2: Constraint,
    new: Layout,
) -> Layout {
    match split {
        Direction::Up => Layout::SplitVertical {
            top_constraint: c1,
            top: Box::new(new),
            bottom_constraint: c2,
            bottom: Box::new(old),
        },
        Direction::Down => Layout::SplitVertical {
            top_constraint: c1,
            top: Box::new(old),
            bottom_constraint: c2,
            bottom: Box::new(new),
        },
        Direction::Left => Layout::SplitHorizontal {
            left_constraint: c1,
            left: Box::new(new),
            right_constraint: c2,
            right: Box::new(old),
        },
        Direction::Right => Layout::SplitHorizontal {
            left_constraint: c1,
            left: Box::new(old),
            right_constraint: c2,
            right: Box::new(new),
        },
    }
}

/// The tree with the sub-tree at path `at` replaced by `f(sub-tree)`, where
/// each step of the path picks a side of a split in that split's
/// direction; `None` where the path leaves the tree or `f` gives nothing.
pub open spec fn update_at(
    l: Layout,
    at: Seq<Direction>,
    f: spec_fn(Layout) -> Option<Layout>,
) -> Option<Layout>
    decreases at.len(),
{
    if at.len() == 0 {
        f(l)
    } else {
        match l {
            Layout::SplitHorizontal { left_constraint, left, right_constraint, right } => {
                if at[0] == Direction::Left {
                    match update_at(*left, at.drop_first(), f) {
                        Some(n) => Some(
                            Layout::SplitHorizontal {
                                left_constraint,
                                left: Box::new(n),
                                right_constraint,
                                right,
                            },
                        ),
                        None => None,
                    }
                } else if at[0] == Direction::Right {
                    match update_at(*right, at.drop_first(), f) {
                        Some(n) => Some(
                            Layout::SplitHorizontal {
                                left_constraint,
                                left,
                                right_constraint,
                                right: Box::new(n),
                            },
                        ),
                        None => None,
                    }
                } else {
                    None
                }
            },
            Layout::SplitVertical { top_constraint, top, bottom_constraint, bottom } => {
                if at[0] == Direction::Up {
                    match update_at(*top, at.drop_first(), f) {
                        Some(n) => Some(
                            Layout::SplitVertical {
                                top_constraint,
                                top: Box::new(n),
                                bottom_constraint,
                                bottom,
                            },
                        ),
                        None => None,
                    }
                } else if at[0] == Direction::Down {
                    match update_at(*bottom, at.drop_first(), f) {
                        Some(n) => Some(
                            Layout::SplitVertical {
                                top_constraint,
                                top,
                                bottom_constraint,
                                bottom: Box::new(n),
                            },
                        ),
                        None => None,
                    }
                } else {
                    None
                }
            },
            _ => None,
        }
    }
}

/// The sub-tree at path `at`, if the path stays in the tree.
pub open spec fn subtree_at(l: Layout, at: Seq<Direction>) -> Option<Layout>
    decreases at.len(),
{
    if at.len() == 0 {
        Some(l)
    } else {
        match l {
            Layout::SplitHorizontal { left, right, .. } => {
                if at[0] == Direction::Left {
                    subtree_at(*left, at.drop_first())
                } else if at[0] == Direction::Right {
                    subtree_at(*right, at.drop_first())
                } else {
                    None
                }
            },
            Layout::SplitVertical { top, bottom, .. } => {
                if at[0] == Direction::Up {
                    subtree_at(*top, at.drop_first())
                } else if at[0] == Direction::Down {
                    subtree_at(*bottom, at.drop_first())
                } else {
                    None
                }
            },
            _ => None,
        }
    }
}

/// The sibling that takes a split's place when the side `d` of it is
/// removed; `None` where `d` is not a side of that split.
pub open spec fn sibling_of(l: Layout, d: Direction) -> Option<Layout> {
    match l {
        Layout::SplitHorizontal { left, right, .. } => if d == Direction::Left {
            Some(*right)
        } else if d == Direction::Right {
            Some(*left)
        } else {
            None
        },
        Layout::SplitVertical { top, bottom, .. } => if d == Direction::Up {
            Some(*bottom)
        } else if d == Direction::Down {
            Some(*top)
        } else {
            None
        },
        _ => None,
    }
}

/// The tree after adding a region at `at`.
pub open spec fn added(
    l: Layout,
    at: Seq<Direction>,
    split: Direction,
    c1: Constraint,
    c2: Constraint,
    component: Option<Discriminator>,
    border: Option<Border>,
) -> Option<Layout> {
    update_at(
        l,
        at,
        |t: Layout| Some(split_with(t, split, c1, c2, Layout::Single { discrim: component, border })),
    )
}

/// The tree after removing the region at `at`: the whole tree for an empty
/// path, else the region's sibling takes the place of their split.
pub open spec fn removed(l: Layout, at: Seq<Direction>) -> Option<Layout> {
    if at.len() == 0 {
        Some(Layout::Empty)
    } else {
        update_at(l, at.drop_last(), |t: Layout| sibling_of(t, at.last()))
    }
}

/// The tree after replacing the region at `at` with `state`.
pub open spec fn replaced(l: Layout, at: Seq<Direction>, state: Layout) -> Option<Layout> {
    update_at(l, at, |t: Layout| Some(state))
}

/// What a change reports and leaves: where it applies, `true` and the
/// changed tree; where it does not, `false` and the tree unchanged.
pub open spec fn outcome(before: Layout, after: Layout, r: bool, change: Option<Layout>) -> bool {
    match change {
        Some(n) => r && after == n,
        None => !r && after == before,
    }
}

impl Layout {
    /// One region.
    pub fn single(discrim: Option<Discriminator>, border: Option<Border>) -> (r: Self)
        ensures
            r == (Layout::Single { discrim, border }),
    {
        Layout::Single { discrim, border }
    }

    /// Two regions side by side.
    pub fn horizontal(
        left: Layout,
        right: Layout,
        left_constraint: Constraint,
        right_constraint: Constraint,
    ) -> (r: Self)
        ensures
            r == (Layout::SplitHorizontal {
                left_constraint,
                left: Box::new(left),
                right_constraint,
                right: Box::new(right),
            }),
    {
        Layout::SplitHorizontal {
            left: Box::new(left),
            right: Box::new(right),
            left_constraint,
            right_constraint,
        }
    }

    /// Two regions one above the other.
    pub fn vertical(
        top: Layout,
        bottom: Layout,
        top_constraint: Constraint,
        bottom_constraint: Constraint,
    ) -> (r: Self)
        ensures
            r == (Layout::SplitVertical {
                top_constraint,
                top: Box::new(top),
                bottom_constraint,
                bottom: Box::new(bottom),
            }),
    {
        Layout::SplitVertical {
            top: Box::new(top),
            bottom: Box::new(bottom),
            top_constraint,
            bottom_constraint,
        }
    }

    fn split_off(self, split: Direction, c1: Constraint, c2: Constraint, new: Layout) -> (r: Layout)
        ensures
            r == split_with(self, split, c1, c2, new),
    {
        match split {
            Direction::Up => Layout::vertical(new, self, c1, c2),
            Direction::Down => Layout::vertical(self, new, c1, c2),
            Direction::Left => Layout::horizontal(new, self, c1, c2),
            Direction::Right => Layout::horizontal(self, new, c1, c2),
        }
    }

    fn add_from(
        self,
        at: &[Direction],
        i: usize,
        split: Direction,
        c1: Constraint,
        c2: Constraint,
        component: Option<Discriminator>,
        border: Option<Border>,
    ) -> (r: (Layout, bool))
        requires
            i <= at@.len(),
        ensures
            outcome(
                self,
                r.0,
                r.1,
                added(self, at@.subrange(i as int, at@.len() as int), split, c1, c2, component, border),
            ),
        decreases at@.len() - i,
    {
        let ghost rest = at@.subrange(i as int, at@.len() as int);
        if i == at.len() {
            let new = Layout::Single { discrim: component, border };
            return (self.split_off(split, c1, c2, new), true);
        }
        proof {
            assert(rest[0] == at@[i as int]);
            assert(rest.drop_first() == at@.subrange(i + 1, at@.len() as int));
        }
        let d = at[i];
        match self {
            Layout::SplitHorizontal { left_constraint, left, right_constraint, right } => {
                if d == Direction::Left {
                    let (n, ok) = (*left).add_from(at, i + 1, split, c1, c2, component, border);
                    (Layout::SplitHorizontal { left_constraint, left: Box::new(n), right_constraint, right }, ok)
                } else if d == Direction::Right {
                    let (n, ok) = (*right).add_from(at, i + 1, split, c1, c2, component, border);
                    (Layout::SplitHorizontal { left_constraint, left, right_constraint, right: Box::new(n) }, ok)
                } else {
                    (Layout::SplitHorizontal { left_constraint, left, right_constraint, right }, false)
                }
            },
            Layout::SplitVertical { top_constraint, top, bottom_constraint, bottom } => {
                if d == Direction::Up {
                    let (n, ok) = (*top).add_from(at, i + 1, split, c1, c2, component, border);
                    (Layout::SplitVertical { top_constraint, top: Box::new(n), bottom_constraint, bottom }, ok)
                } else if d == Direction::Down {
                    let (n, ok) = (*bottom).add_from(at, i + 1, split, c1, c2, component, border);
                    (Layout::SplitVertical { top_constraint, top, bottom_constraint, bottom: Box::new(n) }, ok)
                } else {
                    (Layout::SplitVertical { top_constraint, top, bottom_constraint, bottom }, false)
                }
            },
            other => (other, false),
        }
    }

    /// Adds a region at `at`: the region there is split, and a new region,
    /// showing `component` or blank, takes the `split` side of it.
    /// `constraint_1` sizes the top or left part, `constraint_2` the bottom
    /// or right part. Returns whether the tree changed; it does not where
    /// the path leaves the tree.
    pub fn add(
        &mut self,
        at: &[Direction],
        split: Direction,
        constraint_1: Constraint,
        constraint_2: Constraint,
        component: Option<Discriminator>,
        border: Option<Border>,
    ) -> (r: bool)
        ensures
            outcome(
                *old(self),
                *final(self),
                r,
                added(*old(self), at@, split, constraint_1, constraint_2, component, border),
            ),
    {
        let mut cur = Layout::Empty;
        core::mem::swap(self, &mut cur);
        proof {
            assert(at@.subrange(0, at@.len() as int) == at@);
        }
        let (n, ok) = cur.add_from(at, 0, split, constraint_1, constraint_2, component, border);
        *self = n;
        ok
    }

    fn sibling(self, d: Direction) -> (r: (Layout, bool))
        ensures
            match sibling_of(self, d) {
                Some(s) => r.1 && r.0 == s,
                None => !r.1 && r.0 == self,
            },
    {
        match self {
            Layout::SplitHorizontal { left_constraint, left, right_constraint, right } => {
                if d == Direction::Left {
                    (*right, true)
                } else if d == Direction::Right {
                    (*left, true)
                } else {
                    (Layout::SplitHorizontal { left_constraint, left, right_constraint, right }, false)
                }
            },
            Layout::SplitVertical { top_constraint, top, bottom_constraint, bottom } => {
                if d == Direction::Up {
                    (*bottom, true)
                } else if d == Direction::Down {
                    (*top, true)
                } else {
                    (Layout::SplitVertical { top_constraint, top, bottom_constraint, bottom }, false)
                }
            },
            other => (other, false),
        }
    }

    fn remove_from(self, at: &[Direction], i: usize) -> (r: (Layout, bool))
        requires
            i < at@.len(),
        ensures
            outcome(
                self,
                r.0,
                r.1,
                update_at(
                    self,
                    at@.subrange(i as int, at@.len() - 1),
                    |t: Layout| sibling_of(t, at@.last()),
                ),
            ),
        decreases at@.len() - i,
    {
        let ghost rest = at@.subrange(i as int, at@.len() - 1);
        if i == at.len() - 1 {
            proof {
                assert(at@.last() == at@[i as int]);
            }
            return self.sibling(at[i]);
        }
        proof {
            assert(rest[0] == at@[i as int]);
            assert(rest.drop_first() == at@.subrange(i + 1, at@.len() - 1));
        }
        let d = at[i];
        match self {
            Layout::SplitHorizontal { left_constraint, left, right_constraint, right } => {
                if d == Direction::Left {
                    let (n, ok) = (*left).remove_from(at, i + 1);
                    (Layout::SplitHorizontal { left_constraint, left: Box::new(n), right_constraint, right }, ok)
                } else if d == Direction::Right {
                    let (n, ok) = (*right).remove_from(at, i + 1);
                    (Layout::SplitHorizontal { left_constraint, left, right_constraint, right: Box::new(n) }, ok)
                } else {
                    (Layout::SplitHorizontal { left_constraint, left, right_constraint, right }, false)
                }
            },
            Layout::SplitVertical { top_constraint, top, bottom_constraint, bottom } => {
                if d == Direction::Up {
                    let (n, ok) = (*top).remove_from(at, i + 1);
                    (Layout::SplitVertical { top_constraint, top: Box::new(n), bottom_constraint, bottom }, ok)
                } else if d == Direction::Down {
                    let (n, ok) = (*bottom).remove_from(at, i + 1);
                    (Layout::SplitVertical { top_constraint, top, bottom_constraint, bottom: Box::new(n) }, ok)
                } else {
                    (Layout::SplitVertical { top_constraint, top, bottom_constraint, bottom }, false)
                }
            },
            other => (other, false),
        }
    }

    /// Removes the region at `at`; its sibling takes the place of their
    /// split. An empty path clears the whole tree. Returns whether the tree
    /// changed; it does not where the path leaves the tree.
    pub fn remove(&mut self, at: &[Direction]) -> (r: bool)
        ensures
            outcome(*old(self), *final(self), r, removed(*old(self), at@)),
    {
        if at.len() == 0 {
            *self = Layout::Empty;
            return true;
        }
        let mut cur = Layout::Empty;
        core::mem::swap(self, &mut cur);
        proof {
            assert(at@.subrange(0, at@.len() - 1) == at@.drop_last());
        }
        let (n, ok) = cur.remove_from(at, 0);
        *self = n;
        ok
    }

    fn set_from(self, at: &[Direction], i: usize, state: Layout) -> (r: (Layout, bool))
        requires
            i <= at@.len(),
        ensures
            outcome(self, r.0, r.1, replaced(self, at@.subrange(i as int, at@.len() as int), state)),
        decreases at@.len() - i,
    {
        let ghost rest = at@.subrange(i as int, at@.len() as int);
        if i == at.len() {
            return (state, true);
        }
        proof {
            assert(rest[0] == at@[i as int]);
            assert(rest.drop_first() == at@.subrange(i + 1, at@.len() as int));
        }
        let d = at[i];
        match self {
            Layout::SplitHorizontal { left_constraint, left, right_constraint, right } => {
                if d == Direction::Left {
                    let (n, ok) = (*left).set_from(at, i + 1, state);
                    (Layout::SplitHorizontal { left_constraint, left: Box::new(n), right_constraint, right }, ok)
                } else if d == Direction::Right {
                    let (n, ok) = (*right).set_from(at, i + 1, state);
                    (Layout::SplitHorizontal { left_constraint, left, right_constraint, right: Box::new(n) }, ok)
                } else {
                    (Layout::SplitHorizontal { left_constraint, left, right_constraint, right }, false)
                }
            },
            Layout::SplitVertical { top_constraint, top, bottom_constraint, bottom } => {
                if d == Direction::Up {
                    let (n, ok) = (*top).set_from(at, i + 1, state);
                    (Layout::SplitVertical { top_constraint, top: Box::new(n), bottom_constraint, bottom }, ok)
                } else if d == Direction::Down {
                    let (n, ok) = (*bottom).set_from(at, i + 1, state);
                    (Layout::SplitVertical { top_constraint, top, bottom_constraint, bottom: Box::new(n) }, ok)
                } else {
                    (Layout::SplitVertical { top_constraint, top, bottom_constraint, bottom }, false)
                }
            },
            other => (other, false),
        }
    }

    /// Replaces the region at `at` with `state`. Returns whether the tree
    /// changed; it does not where the path leaves the tree.
    pub fn set(&mut self, at: &[Direction], state: Layout) -> (r: bool)
        ensures
            outcome(*old(self), *final(self), r, replaced(*old(self), at@, state)),
    {
        let mut cur = Layout::Empty;
        core::mem::swap(self, &mut cur);
        proof {
            assert(at@.subrange(0, at@.len() as int) == at@);
        }
        let (n, ok) = cur.set_from(at, 0, state);
        *self = n;
        ok
    }

    fn get_from(&self, at: &[Direction], i: usize) -> (r: Option<&Layout>)
        requires
            i <= at@.len(),
        ensures
            match r {
                Some(t) => subtree_at(*self, at@.subrange(i as int, at@.len() as int)) == Some(*t),
                None => subtree_at(*self, at@.subrange(i as int, at@.len() as int)) is None,
            },
        decreases at@.len() - i,
    {
        let ghost rest = at@.subrange(i as int, at@.len() as int);
        if i == at.len() {
            return Some(self);
        }
        proof {
            assert(rest[0] == at@[i as int]);
            assert(rest.drop_first() == at@.subrange(i + 1, at@.len() as int));
        }
        let d = at[i];
        match self {
            Layout::SplitHorizontal { left, right, .. } => {
                if d == Direction::Left {
                    left.get_from(at, i + 1)
                } else if d == Direction::Right {
                    right.get_from(at, i + 1)
                } else {
                    None
                }
            },
            Layout::SplitVertical { top, bottom, .. } => {
                if d == Direction::Up {
                    top.get_from(at, i + 1)
                } else if d == Direction::Down {
                    bottom.get_from(at, i + 1)
                } else {
                    None
                }
            },
            _ => None,
        }
    }

    /// The region at `at`, if the path stays in the tree.
    pub fn get(&self, at: &[Direction]) -> (r: Option<&Layout>)
        ensures
            match r {
                Some(t) => subtree_at(*self, at@) == Some(*t),
                None => subtree_at(*self, at@) is None,
            },
    {
        proof {
            assert(at@.subrange(0, at@.len() as int) == at@);
        }
        self.get_from(at, 0)
    }
}

impl Layout {
    /// Adds a blank region.
    pub fn add_blank(
        &mut self,
        at: &[Direction],
        split: Direction,
        constraint_1: Constraint,
        constraint_2: Constraint,
        border: Option<Border>,
    ) -> (r: bool)
        ensures
            outcome(*old(self), *final(self), r, added(*old(self), at@, split, constraint_1, constraint_2, None::<Discriminator>, border)),
    {
        self.add(at, split, constraint_1, constraint_2, None, border)
    }

    /// Adds a region showing a component.
    pub fn add_component(
        &mut self,
        at: &[Direction],
        split: Direction,
        constraint_1: Constraint,
        constraint_2: Constraint,
        component: Discriminator,
        border: Option<Border>,
    ) -> (r: bool)
        ensures
            outcome(*old(self), *final(self), r, added(*old(self), at@, split, constraint_1, constraint_2, Some(component), border)),
    {
        self.add(at, split, constraint_1, constraint_2, Some(component), border)
    }

    /// Adds a bordered region.
    pub fn add_bordered(
        &mut self,
        at: &[Direction],
        split: Direction,
        constraint_1: Constraint,
        constraint_2: Constraint,
        component: Option<Discriminator>,
        border: Border,
    ) -> (r: bool)
        ensures
            outcome(*old(self), *final(self), r, added(*old(self), at@, split, constraint_1, constraint_2, component, Some(border))),
    {
        self.add(at, split, constraint_1, constraint_2, component, Some(border))
    }

    /// Adds a region without a border.
    pub fn add_unbordered(
        &mut self,
        at: &[Direction],
        split: Direction,
        constraint_1: Constraint,
        constraint_2: Constraint,
        component: Option<Discriminator>,
    ) -> (r: bool)
        ensures
            outcome(*old(self), *final(self), r, added(*old(self), at@, split, constraint_1, constraint_2, component, None::<Border>)),
    {
        self.add(at, split, constraint_1, constraint_2, component, None)
    }

    /// Adds a bordered blank region.
    pub fn add_bordered_blank(
        &mut self,
        at: &[Direction],
        split: Direction,
        constraint_1: Constraint,
        constraint_2: Constraint,
        border: Border,
    ) -> (r: bool)
        ensures
            outcome(*old(self), *final(self), r, added(*old(self), at@, split, constraint_1, constraint_2, None::<Discriminator>, Some(border))),
    {
        self.add(at, split, constraint_1, constraint_2, None, Some(border))
    }

    /// Adds a blank region without a border.
    pub fn add_unbordered_blank(
        &mut self,
        at: &[Direction],
        split: Direction,
        constraint_1: Constraint,
        constraint_2: Constraint,
    ) -> (r: bool)
        ensures
            outcome(*old(self), *final(self), r, added(*old(self), at@, split, constraint_1, constraint_2, None::<Discriminator>, None::<Border>)),
    {
        self.add(at, split, constraint_1, constraint_2, None, None)
    }

    /// Adds a bordered region showing a component.
    pub fn add_bordered_component(
        &mut self,
        at: &[Direction],
        split: Direction,
        constraint_1: Constraint,
        constraint_2: Constraint,
        component: Discriminator,
        border: Border,
    ) -> (r: bool)
        ensures
            outcome(*old(self), *final(self), r, added(*old(self), at@, split, constraint_1, constraint_2, Some(component), Some(border))),
    {
        self.add(at, split, constraint_1, constraint_2, Some(component), Some(border))
    }

    /// Adds a region showing a component, without a border.
    pub fn add_unbordered_component(
        &mut self,
        at: &[Direction],
        split: Direction,
        constraint_1: Constraint,
        constraint_2: Constraint,
        component: Discriminator,
    ) -> (r: bool)
        ensures
            outcome(*old(self), *final(self), r, added(*old(self), at@, split, constraint_1, constraint_2, Some(component), None::<Border>)),
    {
        self.add(at, split, constraint_1, constraint_2, Some(component), None)
    }

    /// Adds a region above the target.
    pub fn add_above(
        &mut self,
        at: &[Direction],
        constraint_top: Constraint,
        constraint_bottom: Constraint,
        component: Option<Discriminator>,
        border: Option<Border>,
    ) -> (r: bool)
        ensures
            outcome(*old(self), *final(self), r, added(*old(self), at@, Direction::Up, constraint_top, constraint_bottom, component, border)),
    {
        self.add(at, Direction::Up, constraint_top, constraint_bottom, component, border)
    }

    /// Adds a region below the target.
    pub fn add_below(
        &mut self,
        at: &[Direction],
        constraint_top: Constraint,
        constraint_bottom: Constraint,
        component: Option<Discriminator>,
        border: Option<Border>,
    ) -> (r: bool)
        ensures
            outcome(*old(self), *final(self), r, added(*old(self), at@, Direction::Down, constraint_top, constraint_bottom, component, border)),
    {
        self.add(at, Direction::Down, constraint_top, constraint_bottom, component, border)
    }

    /// Adds a region to the left of the target.
    pub fn add_left(
        &mut self,
        at: &[Direction],
        constraint_left: Constraint,
        constraint_right: Constraint,
        component: Option<Discriminator>,
        border: Option<Border>,
    ) -> (r: bool)
        ensures
            outcome(*old(self), *final(self), r, added(*old(self), at@, Direction::Left, constraint_left, constraint_right, component, border)),
    {
        self.add(at, Direction::Left, constraint_left, constraint_right, component, border)
    }

    /// Adds a region to the right of the target.
    pub fn add_right(
        &mut self,
        at: &[Direction],
        constraint_left: Constraint,
        constraint_right: Constraint,
        component: Option<Discriminator>,
        border: Option<Border>,
    ) -> (r: bool)
        ensures
            outcome(*old(self), *final(self), r, added(*old(self), at@, Direction::Right, constraint_left, constraint_right, component, border)),
    {
        self.add(at, Direction::Right, constraint_left, constraint_right, component, border)
    }

    /// Adds a blank region above the target.
    pub fn add_blank_above(
        &mut self,
        at: &[Direction],
        constraint_top: Constraint,
        constraint_bottom: Constraint,
        border: Option<Border>,
    ) -> (r: bool)
        ensures
            outcome(*old(self), *final(self), r, added(*old(self), at@, Direction::Up, constraint_top, constraint_bottom, None::<Discriminator>, border)),
    {
        self.add(at, Direction::Up, constraint_top, constraint_bottom, None, border)
    }

    /// Adds a region showing a component above the target.
    pub fn add_component_above(
        &mut self,
        at: &[Direction],
        constraint_top: Constraint,
        constraint_bottom: Constraint,
        component: Discriminator,
        border: Option<Border>,
    ) -> (r: bool)
        ensures
            outcome(*old(self), *final(self), r, added(*old(self), at@, Direction::Up, constraint_top, constraint_bottom, Some(component), border)),
    {
        self.add(at, Direction::Up, constraint_top, constraint_bottom, Some(component), border)
    }

    /// Adds a bordered region above the target.
    pub fn add_bordered_above(
        &mut self,
        at: &[Direction],
        constraint_top: Constraint,
        constraint_bottom: Constraint,
        component: Option<Discriminator>,
        border: Border,
    ) -> (r: bool)
        ensures
            outcome(*old(self), *final(self), r, added(*old(self), at@, Direction::Up, constraint_top, constraint_bottom, component, Some(border))),
    {
        self.add(at, Direction::Up, constraint_top, constraint_bottom, component, Some(border))
    }

    /// Adds a region without a border above the target.
    pub fn add_unbordered_above(
        &mut self,
        at: &[Direction],
        constraint_top: Constraint,
        constraint_bottom: Constraint,
        component: Option<Discriminator>,
    ) -> (r: bool)
        ensures
            outcome(*old(self), *final(self), r, added(*old(self), at@, Direction::Up, constraint_top, constraint_bottom, component, None::<Border>)),
    {
        self.add(at, Direction::Up, constraint_top, constraint_bottom, component, None)
    }

    /// Adds a bordered blank region above the target.
    pub fn add_bordered_blank_above(
        &mut self,
        at: &[Direction],
        constraint_top: Constraint,
        constraint_bottom: Constraint,
        border: Border,
    ) -> (r: bool)
        ensures
            outcome(*old(self), *final(self), r, added(*old(self), at@, Direction::Up, constraint_top, constraint_bottom, None::<Discriminator>, Some(border))),
    {
        self.add(at, Direction::Up, constraint_top, constraint_bottom, None, Some(border))
    }

    /// Adds a bordered region showing a component above the target.
    pub fn add_bordered_component_above(
        &mut self,
        at: &[Direction],
        constraint_top: Constraint,
        constraint_bottom: Constraint,
        component: Discriminator,
        border: Border,
    ) -> (r: bool)
        ensures
            outcome(*old(self), *final(self), r, added(*old(self), at@, Direction::Up, constraint_top, constraint_bottom, Some(component), Some(border))),
    {
        self.add(at, Direction::Up, constraint_top, constraint_bottom, Some(component), Some(border))
    }

    /// Adds a blank region without a border above the target.
    pub fn add_unbordered_blank_above(
        &mut self,
        at: &[Direction],
        constraint_top: Constraint,
        constraint_bottom: Constraint,
    ) -> (r: bool)
        ensures
            outcome(*old(self), *final(self), r, added(*old(self), at@, Direction::Up, constraint_top, constraint_bottom, None::<Discriminator>, None::<Border>)),
    {
        self.add(at, Direction::Up, constraint_top, constraint_bottom, None, None)
    }

    /// Adds a region showing a component, without a border, above the target.
    pub fn add_unbordered_component_above(
        &mut self,
        at: &[Direction],
        constraint_top: Constraint,
        constraint_bottom: Constraint,
        component: Discriminator,
    ) -> (r: bool)
        ensures
            outcome(*old(self), *final(self), r, added(*old(self), at@, Direction::Up, constraint_top, constraint_bottom, Some(component), None::<Border>)),
    {
        self.add(at, Direction::Up, constraint_top, constraint_bottom, Some(component), None)
    }

    /// Adds a blank region below the target.
    pub fn add_blank_below(
        &mut self,
        at: &[Direction],
        constraint_top: Constraint,
        constraint_bottom: Constraint,
        border: Option<Border>,
    ) -> (r: bool)
        ensures
            outcome(*old(self), *final(self), r, added(*old(self), at@, Direction::Down, constraint_top, constraint_bottom, None::<Discriminator>, border)),
    {
        self.add(at, Direction::Down, constraint_top, constraint_bottom, None, border)
    }

    /// Adds a region showing a component below the target.
    pub fn add_component_below(
        &mut self,
        at: &[Direction],
        constraint_top: Constraint,
        constraint_bottom: Constraint,
        component: Discriminator,
        border: Option<Border>,
    ) -> (r: bool)
        ensures
            outcome(*old(self), *final(self), r, added(*old(self), at@, Direction::Down, constraint_top, constraint_bottom, Some(component), border)),
    {
        self.add(at, Direction::Down, constraint_top, constraint_bottom, Some(component), border)
    }

    /// Adds a bordered region below the target.
    pub fn add_bordered_below(
        &mut self,
        at: &[Direction],
        constraint_top: Constraint,
        constraint_bottom: Constraint,
        component: Option<Discriminator>,
        border: Border,
    ) -> (r: bool)
        ensures
            outcome(*old(self), *final(self), r, added(*old(self), at@, Direction::Down, constraint_top, constraint_bottom, component, Some(border))),
    {
        self.add(at, Direction::Down, constraint_top, constraint_bottom, component, Some(border))
    }

    /// Adds a region without a border below the target.
    pub fn add_unbordered_below(
        &mut self,
        at: &[Direction],
        constraint_top: Constraint,
        constraint_bottom: Constraint,
        component: Option<Discriminator>,
    ) -> (r: bool)
        ensures
            outcome(*old(self), *final(self), r, added(*old(self), at@, Direction::Down, constraint_top, constraint_bottom, component, None::<Border>)),
    {
        self.add(at, Direction::Down, constraint_top, constraint_bottom, component, None)
    }

    /// Adds a bordered blank region below the target.
    pub fn add_bordered_blank_below(
        &mut self,
        at: &[Direction],
        constraint_top: Constraint,
        constraint_bottom: Constraint,
        border: Border,
    ) -> (r: bool)
        ensures
            outcome(*old(self), *final(self), r, added(*old(self), at@, Direction::Down, constraint_top, constraint_bottom, None::<Discriminator>, Some(border))),
    {
        self.add(at, Direction::Down, constraint_top, constraint_bottom, None, Some(border))
    }

    /// Adds a bordered region showing a component below the target.
    pub fn add_bordered_component_below(
        &mut self,
        at: &[Direction],
        constraint_top: Constraint,
        constraint_bottom: Constraint,
        component: Discriminator,
        border: Border,
    ) -> (r: bool)
        ensures
            outcome(*old(self), *final(self), r, added(*old(self), at@, Direction::Down, constraint_top, constraint_bottom, Some(component), Some(border))),
    {
        self.add(at, Direction::Down, constraint_top, constraint_bottom, Some(component), Some(border))
    }

    /// Adds a blank region without a border below the target.
    pub fn add_unbordered_blank_below(
        &mut self,
        at: &[Direction],
        constraint_top: Constraint,
        constraint_bottom: Constraint,
    ) -> (r: bool)
        ensures
            outcome(*old(self), *final(self), r, added(*old(self), at@, Direction::Down, constraint_top, constraint_bottom, None::<Discriminator>, None::<Border>)),
    {
        self.add(at, Direction::Down, constraint_top, constraint_bottom, None, None)
    }

    /// Adds a region showing a component, without a border, below the target.
    pub fn add_unbordered_component_below(
        &mut self,
        at: &[Direction],
        constraint_top: Constraint,
        constraint_bottom: Constraint,
        component: Discriminator,
    ) -> (r: bool)
        ensures
            outcome(*old(self), *final(self), r, added(*old(self), at@, Direction::Down, constraint_top, constraint_bottom, Some(component), None::<Border>)),
    {
        self.add(at, Direction::Down, constraint_top, constraint_bottom, Some(component), None)
    }

    /// Adds a blank region to the left of the target.
    pub fn add_blank_left(
        &mut self,
        at: &[Direction],
        constraint_left: Constraint,
        constraint_right: Constraint,
        border: Option<Border>,
    ) -> (r: bool)
        ensures
            outcome(*old(self), *final(self), r, added(*old(self), at@, Direction::Left, constraint_left, constraint_right, None::<Discriminator>, border)),
    {
        self.add(at, Direction::Left, constraint_left, constraint_right, None, border)
    }

    /// Adds a region showing a component to the left of the target.
    pub fn add_component_left(
        &mut self,
        at: &[Direction],
        constraint_left: Constraint,
        constraint_right: Constraint,
        component: Discriminator,
        border: Option<Border>,
    ) -> (r: bool)
        ensures
            outcome(*old(self), *final(self), r, added(*old(self), at@, Direction::Left, constraint_left, constraint_right, Some(component), border)),
    {
        self.add(at, Direction::Left, constraint_left, constraint_right, Some(component), border)
    }

    /// Adds a bordered region to the left of the target.
    pub fn add_bordered_left(
        &mut self,
        at: &[Direction],
        constraint_left: Constraint,
        constraint_right: Constraint,
        component: Option<Discriminator>,
        border: Border,
    ) -> (r: bool)
        ensures
            outcome(*old(self), *final(self), r, added(*old(self), at@, Direction::Left, constraint_left, constraint_right, component, Some(border))),
    {
        self.add(at, Direction::Left, constraint_left, constraint_right, component, Some(border))
    }

    /// Adds a region without a border to the left of the target.
    pub fn add_unbordered_left(
        &mut self,
        at: &[Direction],
        constraint_left: Constraint,
        constraint_right: Constraint,
        component: Option<Discriminator>,
    ) -> (r: bool)
        ensures
            outcome(*old(self), *final(self), r, added(*old(self), at@, Direction::Left, constraint_left, constraint_right, component, None::<Border>)),
    {
        self.add(at, Direction::Left, constraint_left, constraint_right, component, None)
    }

    /// Adds a bordered blank region to the left of the target.
    pub fn add_bordered_blank_left(
        &mut self,
        at: &[Direction],
        constraint_left: Constraint,
        constraint_right: Constraint,
        border: Border,
    ) -> (r: bool)
        ensures
            outcome(*old(self), *final(self), r, added(*old(self), at@, Direction::Left, constraint_left, constraint_right, None::<Discriminator>, Some(border))),
    {
        self.add(at, Direction::Left, constraint_left, constraint_right, None, Some(border))
    }

    /// Adds a bordered region showing a component to the left of the target.
    pub fn add_bordered_component_left(
        &mut self,
        at: &[Direction],
        constraint_left: Constraint,
        constraint_right: Constraint,
        component: Discriminator,
        border: Border,
    ) -> (r: bool)
        ensures
            outcome(*old(self), *final(self), r, added(*old(self), at@, Direction::Left, constraint_left, constraint_right, Some(component), Some(border))),
    {
        self.add(at, Direction::Left, constraint_left, constraint_right, Some(component), Some(border))
    }

    /// Adds a blank region without a border to the left of the target.
    pub fn add_unbordered_blank_left(
        &mut self,
        at: &[Direction],
        constraint_left: Constraint,
        constraint_right: Constraint,
    ) -> (r: bool)
        ensures
            outcome(*old(self), *final(self), r, added(*old(self), at@, Direction::Left, constraint_left, constraint_right, None::<Discriminator>, None::<Border>)),
    {
        self.add(at, Direction::Left, constraint_left, constraint_right, None, None)
    }

    /// Adds a region showing a component, without a border, to the left of the target.
    pub fn add_unbordered_component_left(
        &mut self,
        at: &[Direction],
        constraint_left: Constraint,
        constraint_right: Constraint,
        component: Discriminator,
    ) -> (r: bool)
        ensures
            outcome(*old(self), *final(self), r, added(*old(self), at@, Direction::Left, constraint_left, constraint_right, Some(component), None::<Border>)),
    {
        self.add(at, Direction::Left, constraint_left, constraint_right, Some(component), None)
    }

    /// Adds a blank region to the right of the target.
    pub fn add_blank_right(
        &mut self,
        at: &[Direction],
        constraint_left: Constraint,
        constraint_right: Constraint,
        border: Option<Border>,
    ) -> (r: bool)
        ensures
            outcome(*old(self), *final(self), r, added(*old(self), at@, Direction::Right, constraint_left, constraint_right, None::<Discriminator>, border)),
    {
        self.add(at, Direction::Right, constraint_left, constraint_right, None, border)
    }

    /// Adds a region showing a component to the right of the target.
    pub fn add_component_right(
        &mut self,
        at: &[Direction],
        constraint_left: Constraint,
        constraint_right: Constraint,
        component: Discriminator,
        border: Option<Border>,
    ) -> (r: bool)
        ensures
            outcome(*old(self), *final(self), r, added(*old(self), at@, Direction::Right, constraint_left, constraint_right, Some(component), border)),
    {
        self.add(at, Direction::Right, constraint_left, constraint_right, Some(component), border)
    }

    /// Adds a bordered region to the right of the target.
    pub fn add_bordered_right(
        &mut self,
        at: &[Direction],
        constraint_left: Constraint,
        constraint_right: Constraint,
        component: Option<Discriminator>,
        border: Border,
    ) -> (r: bool)
        ensures
            outcome(*old(self), *final(self), r, added(*old(self), at@, Direction::Right, constraint_left, constraint_right, component, Some(border))),
    {
        self.add(at, Direction::Right, constraint_left, constraint_right, component, Some(border))
    }

    /// Adds a region without a border to the right of the target.
    pub fn add_unbordered_right(
        &mut self,
        at: &[Direction],
        constraint_left: Constraint,
        constraint_right: Constraint,
        component: Option<Discriminator>,
    ) -> (r: bool)
        ensures
            outcome(*old(self), *final(self), r, added(*old(self), at@, Direction::Right, constraint_left, constraint_right, component, None::<Border>)),
    {
        self.add(at, Direction::Right, constraint_left, constraint_right, component, None)
    }

    /// Adds a bordered blank region to the right of the target.
    pub fn add_bordered_blank_right(
        &mut self,
        at: &[Direction],
        constraint_left: Constraint,
        constraint_right: Constraint,
        border: Border,
    ) -> (r: bool)
        ensures
            outcome(*old(self), *final(self), r, added(*old(self), at@, Direction::Right, constraint_left, constraint_right, None::<Discriminator>, Some(border))),
    {
        self.add(at, Direction::Right, constraint_left, constraint_right, None, Some(border))
    }

    /// Adds a bordered region showing a component to the right of the target.
    pub fn add_bordered_component_right(
        &mut self,
        at: &[Direction],
        constraint_left: Constraint,
        constraint_right: Constraint,
        component: Discriminator,
        border: Border,
    ) -> (r: bool)
        ensures
            outcome(*old(self), *final(self), r, added(*old(self), at@, Direction::Right, constraint_left, constraint_right, Some(component), Some(border))),
    {
        self.add(at, Direction::Right, constraint_left, constraint_right, Some(component), Some(border))
    }

    /// Adds a blank region without a border to the right of the target.
    pub fn add_unbordered_blank_right(
        &mut self,
        at: &[Direction],
        constraint_left: Constraint,
        constraint_right: Constraint,
    ) -> (r: bool)
        ensures
            outcome(*old(self), *final(self), r, added(*old(self), at@, Direction::Right, constraint_left, constraint_right, None::<Discriminator>, None::<Border>)),
    {
        self.add(at, Direction::Right, constraint_left, constraint_right, None, None)
    }

    /// Adds a region showing a component, without a border, to the right of the target.
    pub fn add_unbordered_component_right(
        &mut self,
        at: &[Direction],
        constraint_left: Constraint,
        constraint_right: Constraint,
        component: Discriminator,
    ) -> (r: bool)
        ensures
            outcome(*old(self), *final(self), r, added(*old(self), at@, Direction::Right, constraint_left, constraint_right, Some(component), None::<Border>)),
    {
        self.add(at, Direction::Right, constraint_left, constraint_right, Some(component), None)
    }
}

} // verus!
