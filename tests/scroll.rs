use libccanvas::config::ClientConfig;
use libccanvas::request::Colour;
use libccanvas::scroll::{Chunk, Entry, ScrollPosition, ScrollRequest, ScrollRequestVariant, ScrollResponseVariant};
use std::path::PathBuf;

#[test]
fn entries_join_in_order() {
    let mut a = Entry::from_text("a".to_string());
    a.push(Chunk::colour(Colour::Green));
    let b = Entry::from(vec![Chunk::text("b".to_string())]);
    let joined = a.join(b);
    assert_eq!(joined.0.len(), 3);
    assert!(matches!(&joined.0[0], Chunk::Text { value } if value == "a"));
    assert!(matches!(&joined.0[2], Chunk::Text { value } if value == "b"));
    let mut x = Entry::default();
    let mut y = Entry::from_text("y".to_string());
    x.append(&mut y);
    assert_eq!(x.0.len(), 1);
    assert!(y.0.is_empty());
}

#[test]
fn scroll_replies() {
    assert_eq!(ScrollResponseVariant::Created { uid: 4 }.as_created(), Some(4));
    assert_eq!(ScrollResponseVariant::Removed.as_created(), None);
    let m = ScrollResponseVariant::Multiple { responses: vec![ScrollResponseVariant::Updated] };
    assert_eq!(m.as_multiple().map(|s| s.len()), Some(1));
    assert!(ScrollResponseVariant::NotFound.as_multiple().is_none());
    let r = ScrollRequest::new(3, ScrollRequestVariant::RemoveEntry { uid: 1 });
    assert_eq!(r.id, 3);
    assert_eq!(ScrollPosition::relative(-1), ScrollPosition::Relative { index: -1 });
    assert_eq!(ScrollPosition::absolute(2), ScrollPosition::Absolute { index: 2 });
}

#[test]
fn client_config() {
    let c = ClientConfig::new(PathBuf::from("x.sock"));
    assert_eq!(c.listening(), &PathBuf::from("x.sock"));
    assert_eq!(c.get_capacity(), 1024);
    assert_eq!(c.request_socket, PathBuf::from("requests.sock"));
    let d = ClientConfig::with_capacity(PathBuf::from("y.sock"), 8);
    assert_eq!(d.get_capacity(), 8);
    let e = ClientConfig::default();
    assert_eq!(e.listener_socket, PathBuf::from("listen.sock"));
}
