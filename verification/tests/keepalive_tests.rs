use rpc::client::RPCClient;
use rpc::keepalive::KeepAlive;

#[test]
fn pings_are_due_at_two_and_four_seconds() {
    // keep_alive = 2 and no calls made: armed at t=0, the first ping fires
    // at t=2 and re-arms for t=4.
    let schedule = KeepAlive::new(2);
    assert!(schedule.is_enabled());
    assert_eq!(schedule.arm(0), Some(2));
    let (ping, next) = schedule.on_fire(2);
    assert!(ping, "a ping is issued at the first deadline");
    assert_eq!(next, Some(4), "and the timer is re-armed one interval later");
    let (ping, next) = schedule.on_fire(4);
    assert!(ping);
    assert_eq!(next, Some(6));
}

#[test]
fn keep_alive_zero_never_pings() {
    let schedule = KeepAlive::new(0);
    assert!(!schedule.is_enabled());
    assert_eq!(schedule.arm(0), None);
    let (ping, next) = schedule.on_fire(17);
    assert!(!ping, "no ping is ever issued when disabled");
    assert_eq!(next, None);
}

#[test]
fn connect_arms_the_schedule_and_requests_rearm_it() {
    let mut client: RPCClient<u32> = RPCClient::new();
    assert_eq!(client.connect(2, 0), Some(2));
    // A call at t=1 opportunistically re-arms for t=3.
    let action = client
        .request("t".to_string(), b"m".to_vec(), 0, 0, 1)
        .unwrap();
    assert_eq!(action.rearm_at, Some(3));
    // The periodic path asks the client for the next deadline the same way.
    assert_eq!(client.ping(3), Some(5));
}

#[test]
fn connect_with_zero_interval_disables_rearming() {
    let mut client: RPCClient<u32> = RPCClient::new();
    assert_eq!(client.connect(0, 0), None);
    let action = client
        .request("t".to_string(), b"m".to_vec(), 0, 0, 9)
        .unwrap();
    assert_eq!(action.rearm_at, None);
    assert_eq!(client.ping(9), None);
}
