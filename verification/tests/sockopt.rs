use socket2::sockopt::{
    get_broadcast, join_multicast_v4, join_multicast_v6, leave_multicast_v4, leave_multicast_v6,
    linger, multicast_loop_v4, multicast_loop_v6, multicast_ttl_v4, nodelay, only_v6,
    read_timeout, recv_buffer_size, reuse_address, send_buffer_size, set_broadcast, set_linger,
    set_multicast_loop_v4, set_multicast_loop_v6, set_multicast_ttl_v4, set_nodelay, set_only_v6,
    set_read_timeout, set_recv_buffer_size, set_reuse_address, set_send_buffer_size, set_ttl,
    set_write_timeout, take_error, ttl, write_timeout, OptReply, SetOption, SockOpt,
};
use socket2::{Duration, Error, Ipv4Addr, Ipv6Addr};

fn answer(value: &[u8]) -> OptReply {
    OptReply { status: 0, last_error: 0, len: value.len() as i32, value: value.to_vec() }
}

fn failure(code: i32) -> OptReply {
    OptReply { status: -1, last_error: code, len: 4, value: vec![0; 4] }
}

fn echo(set: &SetOption) -> OptReply {
    OptReply {
        status: 0,
        last_error: 0,
        len: set.payload.len() as i32,
        value: set.payload.clone(),
    }
}

#[test]
fn every_option_has_its_level_number_and_size() {
    let table = [
        (SockOpt::Ttl, 0, 4, 4),
        (SockOpt::OnlyV6, 41, 27, 4),
        (SockOpt::ReadTimeout, 0xffff, 0x1006, 4),
        (SockOpt::WriteTimeout, 0xffff, 0x1005, 4),
        (SockOpt::NoDelay, 6, 1, 4),
        (SockOpt::Broadcast, 0xffff, 0x20, 4),
        (SockOpt::MulticastLoopV4, 0, 11, 4),
        (SockOpt::MulticastTtlV4, 0, 10, 4),
        (SockOpt::MulticastLoopV6, 41, 11, 4),
        (SockOpt::JoinMulticastV4, 0, 12, 8),
        (SockOpt::JoinMulticastV6, 41, 12, 20),
        (SockOpt::LeaveMulticastV4, 0, 13, 8),
        (SockOpt::LeaveMulticastV6, 41, 13, 20),
        (SockOpt::Linger, 0xffff, 0x80, 4),
        (SockOpt::ReuseAddress, 0xffff, 4, 4),
        (SockOpt::RecvBufferSize, 0xffff, 0x1002, 4),
        (SockOpt::SendBufferSize, 0xffff, 0x1001, 4),
        (SockOpt::Error, 0xffff, 0x1007, 4),
    ];
    for (opt, level, name, len) in table {
        assert_eq!(opt.level(), level);
        assert_eq!(opt.name(), name);
        assert_eq!(opt.len(), len);
    }
}

#[test]
fn set_ttl_hands_over_the_count() {
    assert_eq!(set_ttl(64), SetOption { opt: SockOpt::Ttl, payload: vec![64, 0, 0, 0] });
    assert_eq!(set_ttl(0x0102_0304).payload, vec![4, 3, 2, 1]);
    assert_eq!(set_ttl(u32::MAX).payload, vec![255, 255, 255, 255]);
    assert_eq!(
        set_multicast_ttl_v4(3),
        SetOption { opt: SockOpt::MulticastTtlV4, payload: vec![3, 0, 0, 0] }
    );
}

#[test]
fn the_switches_hand_over_one_or_zero() {
    let on = vec![1u8, 0, 0, 0];
    let off = vec![0u8, 0, 0, 0];
    assert_eq!(set_nodelay(true), SetOption { opt: SockOpt::NoDelay, payload: on.clone() });
    assert_eq!(set_nodelay(false), SetOption { opt: SockOpt::NoDelay, payload: off.clone() });
    assert_eq!(set_only_v6(true), SetOption { opt: SockOpt::OnlyV6, payload: on.clone() });
    assert_eq!(set_only_v6(false), SetOption { opt: SockOpt::OnlyV6, payload: off.clone() });
    assert_eq!(set_broadcast(true), SetOption { opt: SockOpt::Broadcast, payload: on.clone() });
    assert_eq!(
        set_multicast_loop_v4(false),
        SetOption { opt: SockOpt::MulticastLoopV4, payload: off.clone() }
    );
    assert_eq!(
        set_multicast_loop_v6(true),
        SetOption { opt: SockOpt::MulticastLoopV6, payload: on.clone() }
    );
    assert_eq!(
        set_reuse_address(true),
        SetOption { opt: SockOpt::ReuseAddress, payload: on.clone() }
    );
}

#[test]
fn the_buffer_sizes_hand_over_their_low_bits() {
    assert_eq!(
        set_recv_buffer_size(65536),
        SetOption { opt: SockOpt::RecvBufferSize, payload: vec![0, 0, 1, 0] }
    );
    assert_eq!(
        set_send_buffer_size(8192),
        SetOption { opt: SockOpt::SendBufferSize, payload: vec![0, 0x20, 0, 0] }
    );
    assert_eq!(set_send_buffer_size(0).payload, vec![0, 0, 0, 0]);
    assert_eq!(set_recv_buffer_size(0x7fff_ffff).payload, vec![255, 255, 255, 0x7f]);
    assert_eq!(set_recv_buffer_size(usize::MAX).payload, vec![255, 255, 255, 255]);
}

#[test]
fn the_timeouts_hand_over_milliseconds() {
    assert_eq!(
        set_read_timeout(Some(Duration::from_millis(1500))),
        Ok(SetOption { opt: SockOpt::ReadTimeout, payload: vec![0xdc, 0x05, 0, 0] })
    );
    assert_eq!(
        set_write_timeout(Some(Duration::new(0, 1))),
        Ok(SetOption { opt: SockOpt::WriteTimeout, payload: vec![1, 0, 0, 0] })
    );
    assert_eq!(
        set_read_timeout(Some(Duration::from_secs(u64::MAX))),
        Ok(SetOption { opt: SockOpt::ReadTimeout, payload: vec![255, 255, 255, 255] })
    );
}

#[test]
fn no_timeout_hands_over_zero() {
    assert_eq!(
        set_read_timeout(None),
        Ok(SetOption { opt: SockOpt::ReadTimeout, payload: vec![0, 0, 0, 0] })
    );
    assert_eq!(
        set_write_timeout(None),
        Ok(SetOption { opt: SockOpt::WriteTimeout, payload: vec![0, 0, 0, 0] })
    );
}

#[test]
fn a_zero_timeout_is_refused_as_an_invalid_input() {
    let zero = Some(Duration::new(0, 0));
    assert_eq!(set_read_timeout(zero), Err(Error::ZeroTimeout));
    assert_eq!(set_write_timeout(zero), Err(Error::ZeroTimeout));
    assert!(set_read_timeout(zero).unwrap_err().is_invalid_input());
    assert!(set_write_timeout(zero).unwrap_err().is_invalid_input());
}

#[test]
fn a_cleared_timeout_reads_as_none() {
    let read = set_read_timeout(None).unwrap();
    assert_eq!(read_timeout(&echo(&read)), Ok(None));
    let write = set_write_timeout(None).unwrap();
    assert_eq!(write_timeout(&echo(&write)), Ok(None));
}

#[test]
fn a_timeout_reads_as_it_was_set() {
    let d = Duration::from_millis(2750);
    let read = set_read_timeout(Some(d)).unwrap();
    assert_eq!(read_timeout(&echo(&read)), Ok(Some(d)));
    let write = set_write_timeout(Some(d)).unwrap();
    assert_eq!(write_timeout(&echo(&write)), Ok(Some(d)));
    assert_eq!(
        read_timeout(&answer(&[0xe8, 0x03, 0, 0])),
        Ok(Some(Duration::from_secs(1)))
    );
}

#[test]
fn a_timeout_is_read_back_rounded_up() {
    let set = set_read_timeout(Some(Duration::new(0, 1_500_000))).unwrap();
    assert_eq!(read_timeout(&echo(&set)), Ok(Some(Duration::from_millis(2))));
}

#[test]
fn a_switch_reads_as_it_was_set() {
    for on in [false, true] {
        assert_eq!(nodelay(&echo(&set_nodelay(on))), Ok(on));
        assert_eq!(only_v6(&echo(&set_only_v6(on))), Ok(on));
        assert_eq!(get_broadcast(&echo(&set_broadcast(on))), Ok(on));
        assert_eq!(multicast_loop_v4(&echo(&set_multicast_loop_v4(on))), Ok(on));
        assert_eq!(multicast_loop_v6(&echo(&set_multicast_loop_v6(on))), Ok(on));
        assert_eq!(reuse_address(&echo(&set_reuse_address(on))), Ok(on));
    }
}

#[test]
fn a_switch_is_on_unless_it_is_zero() {
    assert_eq!(nodelay(&answer(&[0, 0, 0, 0])), Ok(false));
    assert_eq!(nodelay(&answer(&[1, 0, 0, 0])), Ok(true));
    assert_eq!(nodelay(&answer(&[0, 1, 0, 0])), Ok(true));
    assert_eq!(get_broadcast(&answer(&[0, 0, 0, 0x80])), Ok(true));
    assert_eq!(reuse_address(&answer(&[255, 255, 255, 255])), Ok(true));
}

#[test]
fn a_count_reads_as_it_was_set() {
    for count in [0u32, 1, 64, 255, 256, 0x7fff_ffff, 0x8000_0000, u32::MAX] {
        assert_eq!(ttl(&echo(&set_ttl(count))), Ok(count));
        assert_eq!(multicast_ttl_v4(&echo(&set_multicast_ttl_v4(count))), Ok(count));
    }
    assert_eq!(ttl(&answer(&[128, 0, 0, 0])), Ok(128));
}

#[test]
fn a_buffer_size_reads_as_it_was_set() {
    for size in [0usize, 1, 4096, 65536, 1 << 20, 0x7fff_ffff] {
        assert_eq!(recv_buffer_size(&echo(&set_recv_buffer_size(size))), Ok(size));
        assert_eq!(send_buffer_size(&echo(&set_send_buffer_size(size))), Ok(size));
    }
}

#[test]
fn a_negative_buffer_size_is_widened_with_its_sign() {
    assert_eq!(recv_buffer_size(&answer(&[255, 255, 255, 255])), Ok(usize::MAX));
    assert_eq!(send_buffer_size(&answer(&[0, 0, 0, 0x80])), Ok(usize::MAX - 0x7fff_ffff));
}

#[test]
fn a_linger_time_reads_as_it_was_set() {
    assert_eq!(
        set_linger(Some(Duration::from_secs(5))),
        SetOption { opt: SockOpt::Linger, payload: vec![1, 0, 5, 0] }
    );
    assert_eq!(set_linger(None), SetOption { opt: SockOpt::Linger, payload: vec![0, 0, 0, 0] });
    for dur in [None, Some(Duration::from_secs(0)), Some(Duration::from_secs(300))] {
        assert_eq!(linger(&echo(&set_linger(dur))), Ok(dur));
    }
    assert_eq!(linger(&answer(&[0, 0, 9, 0])), Ok(None));
    assert_eq!(linger(&answer(&[1, 0, 0x2c, 0x01])), Ok(Some(Duration::from_secs(300))));
}

#[test]
fn an_ipv4_membership_is_the_group_and_then_the_interface() {
    let group = Ipv4Addr::new(224, 0, 0, 251);
    let interface = Ipv4Addr::new(192, 168, 1, 7);
    assert_eq!(
        join_multicast_v4(&group, &interface),
        SetOption {
            opt: SockOpt::JoinMulticastV4,
            payload: vec![224, 0, 0, 251, 192, 168, 1, 7],
        }
    );
    assert_eq!(
        leave_multicast_v4(&group, &interface),
        SetOption {
            opt: SockOpt::LeaveMulticastV4,
            payload: vec![224, 0, 0, 251, 192, 168, 1, 7],
        }
    );
}

#[test]
fn an_ipv6_membership_is_the_group_and_then_the_index() {
    let group = Ipv6Addr::new(0xff02, 0, 0, 0, 0, 0, 0, 0x00fb);
    let payload = vec![0xff, 0x02, 0, 0, 0, 0, 0, 0, 0, 0, 0, 0, 0, 0, 0, 0xfb, 4, 3, 2, 1];
    assert_eq!(
        join_multicast_v6(&group, 0x0102_0304),
        SetOption { opt: SockOpt::JoinMulticastV6, payload: payload.clone() }
    );
    assert_eq!(
        leave_multicast_v6(&group, 0x0102_0304),
        SetOption { opt: SockOpt::LeaveMulticastV6, payload }
    );
    assert_eq!(join_multicast_v6(&group, 0).payload.len(), 20);
}

#[test]
fn the_payload_of_a_request_has_the_size_of_the_option() {
    let group4 = Ipv4Addr::new(224, 0, 0, 1);
    let group6 = Ipv6Addr::new(0xff02, 0, 0, 0, 0, 0, 0, 1);
    let requests = [
        set_ttl(1),
        set_only_v6(true),
        set_read_timeout(None).unwrap(),
        set_write_timeout(Some(Duration::from_secs(1))).unwrap(),
        set_nodelay(true),
        set_broadcast(true),
        set_multicast_loop_v4(true),
        set_multicast_ttl_v4(1),
        set_multicast_loop_v6(true),
        join_multicast_v4(&group4, &group4),
        join_multicast_v6(&group6, 1),
        leave_multicast_v4(&group4, &group4),
        leave_multicast_v6(&group6, 1),
        set_linger(None),
        set_reuse_address(true),
        set_recv_buffer_size(1),
        set_send_buffer_size(1),
    ];
    for set in requests {
        assert_eq!(set.payload.len(), set.opt.len());
    }
}

#[test]
fn a_failed_read_is_the_error_of_the_system() {
    let reply = failure(10022);
    let err = Error::Os { code: 10022 };
    assert_eq!(ttl(&reply), Err(err));
    assert_eq!(only_v6(&reply), Err(err));
    assert_eq!(read_timeout(&reply), Err(err));
    assert_eq!(write_timeout(&reply), Err(err));
    assert_eq!(nodelay(&reply), Err(err));
    assert_eq!(get_broadcast(&reply), Err(err));
    assert_eq!(multicast_loop_v4(&reply), Err(err));
    assert_eq!(multicast_ttl_v4(&reply), Err(err));
    assert_eq!(multicast_loop_v6(&reply), Err(err));
    assert_eq!(linger(&reply), Err(err));
    assert_eq!(reuse_address(&reply), Err(err));
    assert_eq!(recv_buffer_size(&reply), Err(err));
    assert_eq!(send_buffer_size(&reply), Err(err));
    assert_eq!(take_error(&reply), Err(err));
    assert!(!err.is_invalid_input());
    assert_eq!(err.raw_os_error(), Some(10022));
}

#[test]
fn no_pending_error_is_none() {
    assert_eq!(take_error(&answer(&[0, 0, 0, 0])), Ok(None));
}

#[test]
fn a_pending_error_is_the_error_with_its_code() {
    // 10061, connection refused.
    assert_eq!(take_error(&answer(&[0x4d, 0x27, 0, 0])), Ok(Some(Error::Os { code: 10061 })));
    assert_eq!(take_error(&answer(&[255, 255, 255, 255])), Ok(Some(Error::Os { code: -1 })));
    assert_eq!(take_error(&answer(&[1, 0, 0, 0])), Ok(Some(Error::from_raw_os_error(1))));
}

#[test]
fn an_answer_has_the_size_of_the_option() {
    assert!(answer(&[0, 0, 0, 0]).is_answer_to(SockOpt::Ttl));
    assert!(!answer(&[0, 0, 0]).is_answer_to(SockOpt::Ttl));
    assert!(!answer(&[0, 0, 0, 0, 0]).is_answer_to(SockOpt::NoDelay));
    assert!(!answer(&[]).is_answer_to(SockOpt::Error));
    assert!(answer(&[0; 8]).is_answer_to(SockOpt::JoinMulticastV4));
    assert!(answer(&[0; 20]).is_answer_to(SockOpt::LeaveMulticastV6));
    assert!(!answer(&[0; 4]).is_answer_to(SockOpt::JoinMulticastV6));
    assert!(failure(5).is_answer_to(SockOpt::Ttl));
    assert!(failure(5).is_answer_to(SockOpt::Linger));
    assert!(failure(5).is_answer_to(SockOpt::JoinMulticastV6));
}

#[test]
fn an_answer_reports_the_size_of_the_option() {
    let short = OptReply { status: 0, last_error: 0, len: 2, value: vec![1, 0, 0, 0] };
    assert!(!short.is_answer_to(SockOpt::Ttl));
    let long = OptReply { status: 0, last_error: 0, len: 8, value: vec![1, 0, 0, 0] };
    assert!(!long.is_answer_to(SockOpt::Ttl));
    let negative = OptReply { status: 0, last_error: 0, len: -4, value: vec![1, 0, 0, 0] };
    assert!(!negative.is_answer_to(SockOpt::Ttl));
    let exact = OptReply { status: 0, last_error: 0, len: 4, value: vec![1, 0, 0, 0] };
    assert!(exact.is_answer_to(SockOpt::Ttl));
    let failed = OptReply { status: -1, last_error: 10042, len: -4, value: Vec::new() };
    assert!(failed.is_answer_to(SockOpt::Ttl));
}
