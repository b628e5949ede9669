use my_rpc::{await_response, MyRpc, RpcError};
use std::time::{Duration, Instant};

#[test]
fn test_my_rpc_sync() {
    let mut my_rpc = MyRpc::new();
    my_rpc.start_background_processor();

    let start = Instant::now();
    let response = my_rpc.request_sync();
    let elapsed = start.elapsed();
    assert!(response.is_ok());
    println!("elapsed: {:?}, response: {:?}", elapsed, response.unwrap());
}

#[test]
fn test_my_rpc_two_requests_sync() {
    let mut my_rpc = MyRpc::new();
    my_rpc.start_background_processor();

    let start = Instant::now();
    let response = my_rpc.request_two_sync();
    let elapsed = start.elapsed();
    assert!(response.is_ok());
    let (response1, response2) = response.unwrap();
    println!("elapsed: {:?}, responses: {:?}, {:?}", elapsed, response1, response2);
}

#[test]
fn single_request_resolves_to_its_own_identifier() {
    let mut client = MyRpc::new();
    client.start_background_processor();

    let response = client.request_sync();
    assert_eq!(response, Ok(0));
}

#[test]
fn pair_resolves_to_both_identifiers_each_once() {
    let mut client = MyRpc::new();
    client.start_background_processor();

    let response = client.request_two_sync();
    let (first, second) = response.unwrap();
    assert_ne!(first, second);
    assert!(first == 0 || first == 1);
    assert!(second == 0 || second == 1);
}

#[test]
fn starting_the_processor_twice_still_completes_requests() {
    let mut client = MyRpc::new();
    client.start_background_processor();
    client.start_background_processor();

    assert_eq!(client.request_sync(), Ok(0));
    assert_eq!(client.request_sync(), Ok(1));
}

#[test]
fn request_without_processor_never_resolves() {
    let client = MyRpc::new();
    let (_id, rx) = client.begin_request().unwrap();

    let waited = rx.recv_timeout(Duration::from_millis(400));
    assert_eq!(waited, Err(flume::RecvTimeoutError::Timeout));
}

#[test]
fn pair_registers_both_before_either_wait() {
    let client = MyRpc::new();
    let (first, second) = client.begin_request_pair().unwrap();
    assert_eq!(first.0, 0);
    assert_eq!(second.0, 1);

    let waited = first.1.recv_timeout(Duration::from_millis(300));
    assert_eq!(waited, Err(flume::RecvTimeoutError::Timeout));
    let waited = second.1.recv_timeout(Duration::from_millis(10));
    assert_eq!(waited, Err(flume::RecvTimeoutError::Timeout));
}

#[test]
fn closed_channel_surfaces_as_delivery_failure() {
    assert_eq!(await_response(None), Err(RpcError::DeliveryFailure));
    assert_eq!(await_response(Some(7)), Ok(7));
}
