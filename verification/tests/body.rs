use http_body::Body as HttpBody;
use tower_hyper::Body;
use tower_hyper::BodyError;
use tower_hyper::Poll;

#[test]
fn body_from_then_poll_yields_unit() {
    let mut b = Body::from(b"abc".to_vec());
    match b.poll_data() {
        Poll::Ready(Some(v)) => assert_eq!(v, b"abc".to_vec()),
        _ => panic!("the first poll must yield the wrapped unit"),
    }
}

#[test]
fn every_later_poll_yields_end_of_stream() {
    let mut b = Body::from(b"abc".to_vec());
    let _ = b.poll_data();
    for _ in 0..3 {
        match b.poll_data() {
            Poll::Ready(None) => {}
            _ => panic!("every later poll must yield end of stream"),
        }
    }
}

#[test]
fn duplicate_of_full_body_holds_equal_unit() {
    let b = Body::from(b"abc".to_vec());
    let mut copy = b.try_clone().expect("a full body must be duplicable");
    match copy.poll_data() {
        Poll::Ready(Some(v)) => assert_eq!(v, b"abc".to_vec()),
        _ => panic!("the duplicate must hold an equal unit"),
    }
}

#[test]
fn duplicate_of_consumed_body_is_refused() {
    let mut b = Body::from(b"abc".to_vec());
    let _ = b.poll_data();
    assert!(b.try_clone().is_none());
}

#[test]
fn trailers_always_absent() {
    let mut b = Body::from(b"abc".to_vec());
    match b.poll_trailers() {
        Poll::Ready(None) => {}
        _ => panic!("there are never trailers before consumption"),
    }
    let _ = b.poll_data();
    match b.poll_trailers() {
        Poll::Ready(None) => {}
        _ => panic!("there are never trailers after consumption"),
    }
}

#[test]
fn scenario_duplicate_while_full_then_consume_both() {
    let mut original = Body::from(b"abc".to_vec());
    let mut copy = original.try_clone().expect("duplicating a full body must succeed");
    match original.poll_data() {
        Poll::Ready(Some(v)) => assert_eq!(v, b"abc".to_vec()),
        _ => panic!("the original must yield its unit"),
    }
    match original.poll_data() {
        Poll::Ready(None) => {}
        _ => panic!("the original must be empty after consumption"),
    }
    match copy.poll_data() {
        Poll::Ready(Some(v)) => assert_eq!(v, b"abc".to_vec()),
        _ => panic!("the duplicate must yield the unit independently"),
    }
}

#[test]
fn into_transport_body_holds_same_bytes() {
    let b = Body::from(b"abc".to_vec());
    let mut native = b.into().expect("a full body must convert");
    let chunk = futures::executor::block_on(native.data())
        .expect("the transport body must hold one chunk")
        .expect("reading the chunk cannot fail");
    assert_eq!(&chunk[..], b"abc");
}

#[test]
fn into_consumed_body_is_typed_error() {
    let mut b = Body::from(b"abc".to_vec());
    let _ = b.poll_data();
    match b.into() {
        Err(BodyError::AlreadyConsumed) => {}
        _ => panic!("converting a consumed body must be the typed error"),
    }
}
