use std::rc::Rc;

use indexed_db_futures::completion::PollState;
use indexed_db_futures::cursor_future::IdbCursorFuture;
use indexed_db_futures::request_future::IdbRequestFuture;

#[test]
fn request_future_reports_its_value() {
    let mut f: IdbRequestFuture<u32, String, u8> = IdbRequestFuture::new();
    assert_eq!(f.do_poll(1), PollState::Pending);
    assert_eq!(f.on_success(12), Some(1));
    assert_eq!(f.on_error(String::from("late")), None);
    assert_eq!(f.do_poll(2), PollState::Ready(Ok(12)));
}

#[test]
fn request_future_reports_its_error() {
    let mut f: IdbRequestFuture<u32, String, u8> = IdbRequestFuture::new();
    assert_eq!(f.on_error(String::from("denied")), None);
    assert_eq!(f.do_poll(3), PollState::Ready(Err(String::from("denied"))));
}

#[test]
fn null_sentinel_after_pending_poll_gives_no_cursor() {
    let source = String::from("books");
    let f = IdbCursorFuture::new(Rc::new("store"), &source);
    let mut inner: IdbRequestFuture<Option<u32>, String, u8> = IdbRequestFuture::new();
    assert!(matches!(f.do_poll(&mut inner, 1), PollState::Pending));
    assert_eq!(inner.on_success(None), Some(1));
    match f.do_poll(&mut inner, 2) {
        PollState::Ready(Ok(None)) => {}
        _ => panic!("expected an exhausted cursor"),
    }
}

#[test]
fn value_gives_a_cursor_sharing_the_request_and_source() {
    let source = String::from("books");
    let req = Rc::new(String::from("store"));
    let f = IdbCursorFuture::new(Rc::clone(&req), &source);
    let mut inner: IdbRequestFuture<Option<u32>, String, u8> = IdbRequestFuture::new();
    assert_eq!(inner.on_success(Some(77)), None);
    match f.do_poll(&mut inner, 1) {
        PollState::Ready(Ok(Some(cur))) => {
            assert_eq!(*cur.cursor(), 77);
            assert!(Rc::ptr_eq(cur.request(), &req));
            assert!(Rc::ptr_eq(cur.request(), f.request()));
            assert!(std::ptr::eq(cur.source(), &source));
            assert!(std::ptr::eq(f.source(), &source));
        }
        _ => panic!("expected a cursor"),
    }
}

#[test]
fn errors_pass_through_the_cursor_future() {
    let source = String::from("books");
    let f = IdbCursorFuture::new(Rc::new(0u8), &source);
    let mut inner: IdbRequestFuture<Option<u32>, String, u8> = IdbRequestFuture::new();
    assert_eq!(inner.on_error(String::from("aborted")), None);
    assert_eq!(inner.on_success(Some(1)), None);
    match f.do_poll(&mut inner, 1) {
        PollState::Ready(Err(e)) => assert_eq!(e, "aborted"),
        _ => panic!("expected the error"),
    }
}

#[test]
fn on_ready_maps_each_kind_of_result() {
    let source = String::from("books");
    let f = IdbCursorFuture::new(Rc::new(9u8), &source);
    assert!(matches!(f.on_ready::<u32, String>(Ok(None)), Ok(None)));
    assert!(matches!(f.on_ready::<u32, String>(Err(String::from("e"))), Err(ref e) if e == "e"));
    match f.on_ready::<u32, String>(Ok(Some(5))) {
        Ok(Some(cur)) => {
            assert_eq!(*cur.cursor(), 5);
            assert_eq!(**cur.request(), 9);
            assert_eq!(cur.source(), "books");
        }
        _ => panic!("expected a cursor"),
    }
}

#[test]
fn cursor_outlives_its_future_and_both_release_the_request() {
    let source = String::from("books");
    let req = Rc::new(String::from("store"));
    let f = IdbCursorFuture::new(Rc::clone(&req), &source);
    let mut inner: IdbRequestFuture<Option<u32>, String, u8> = IdbRequestFuture::new();
    assert_eq!(Rc::strong_count(&req), 2);
    inner.on_success(Some(3));
    let cur = match f.do_poll(&mut inner, 1) {
        PollState::Ready(Ok(Some(cur))) => cur,
        _ => panic!("expected a cursor"),
    };
    assert_eq!(Rc::strong_count(&req), 3);
    drop(f);
    drop(inner);
    assert_eq!(Rc::strong_count(&req), 2);
    assert_eq!(cur.request().as_str(), "store");
    assert_eq!(cur.source(), "books");
    drop(cur);
    assert_eq!(Rc::strong_count(&req), 1);
}
