use libccanvas::common::Direction;
use libccanvas::discriminator::Discriminator;
use libccanvas::layout::{Border, BorderType, Constraint, ConstraintVariant, Layout, LayoutInfo};
use libccanvas::common::Rect;

fn c(v: u32) -> Constraint {
    Constraint::from(ConstraintVariant::length(v))
}

fn comp(n: u32) -> Discriminator {
    Discriminator::new(vec![1, n])
}

#[test]
fn add_at_root_splits() {
    let mut l = Layout::single(Some(comp(1)), None);
    assert!(l.add_component_right(&[], c(1), c(2), comp(2), None));
    let expected = Layout::horizontal(
        Layout::single(Some(comp(1)), None),
        Layout::single(Some(comp(2)), None),
        c(1),
        c(2),
    );
    assert_eq!(l, expected);
}

#[test]
fn add_above_places_new_on_top() {
    let mut l = Layout::single(None, None);
    assert!(l.add_unbordered_blank_above(&[], c(3), c(4)));
    assert_eq!(l, Layout::vertical(Layout::single(None, None), Layout::single(None, None), c(3), c(4)));
    assert!(l.add_component_left(&[Direction::Down], c(1), c(1), comp(7), None));
    assert_eq!(l.get(&[Direction::Down, Direction::Left]), Some(&Layout::single(Some(comp(7)), None)));
}

#[test]
fn add_with_bad_path_changes_nothing() {
    let mut l = Layout::horizontal(Layout::single(None, None), Layout::Empty, c(1), c(1));
    assert!(!l.add_blank(&[Direction::Up], Direction::Left, c(1), c(1), None));
    assert_eq!(l, Layout::horizontal(Layout::single(None, None), Layout::Empty, c(1), c(1)));
    assert!(!l.add_blank(&[Direction::Left, Direction::Left], Direction::Left, c(1), c(1), None));
}

#[test]
fn remove_keeps_sibling() {
    let mut l = Layout::vertical(Layout::single(Some(comp(1)), None), Layout::single(Some(comp(2)), None), c(1), c(1));
    assert!(l.remove(&[Direction::Up]));
    assert_eq!(l, Layout::single(Some(comp(2)), None));
    assert!(!l.remove(&[Direction::Up]));
    assert!(l.remove(&[]));
    assert_eq!(l, Layout::Empty);
}

#[test]
fn remove_nested() {
    let inner = Layout::horizontal(Layout::single(Some(comp(1)), None), Layout::single(Some(comp(2)), None), c(1), c(1));
    let mut l = Layout::vertical(inner, Layout::Empty, c(1), c(1));
    assert!(l.remove(&[Direction::Up, Direction::Right]));
    assert_eq!(l, Layout::vertical(Layout::single(Some(comp(1)), None), Layout::Empty, c(1), c(1)));
}

#[test]
fn set_and_get() {
    let mut l = Layout::horizontal(Layout::Empty, Layout::Empty, c(1), c(1));
    assert!(l.set(&[Direction::Right], Layout::single(Some(comp(5)), None)));
    assert_eq!(l.get(&[Direction::Right]), Some(&Layout::single(Some(comp(5)), None)));
    assert_eq!(l.get(&[Direction::Up]), None);
    assert!(!l.set(&[Direction::Right, Direction::Left], Layout::Empty));
    assert!(l.set(&[], Layout::Empty));
    assert_eq!(l, Layout::default());
}

#[test]
fn bordered_regions() {
    let border = Border::new(libccanvas::request::Colour::Blue, BorderType::Rounded);
    let mut l = Layout::Empty;
    assert!(l.add_bordered_blank_below(&[], c(1), c(2), border));
    let expected = Layout::vertical(
        Layout::Empty,
        Layout::single(None, Some(Border::new(libccanvas::request::Colour::Blue, BorderType::Rounded))),
        c(1),
        c(2),
    );
    assert_eq!(l, expected);
}

#[test]
fn constraints_and_info() {
    let k = Constraint::new(ConstraintVariant::percentage(50), Some(c(2)), None);
    assert_eq!(k, Constraint::new(ConstraintVariant::Percentage { value: 50 }, Some(c(2)), None));
    assert_ne!(k, c(50));
    assert_eq!(ConstraintVariant::max(3), ConstraintVariant::Max { value: 3 });
    assert_eq!(ConstraintVariant::min(3), ConstraintVariant::Min { value: 3 });
    assert_eq!(LayoutInfo::new(Rect::new(1, 1, 2, 2)).rect, Rect::new(1, 1, 2, 2));
}
