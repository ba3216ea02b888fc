use socket2::keepalive::{
    keepalive, set_keepalive, TcpKeepalive, SIO_KEEPALIVE_VALS, TCP_KEEPALIVE_LEN,
};
use socket2::{Duration, Error};

#[test]
fn the_control_code_of_keepalive() {
    assert_eq!(SIO_KEEPALIVE_VALS, 0x98000004);
    assert_eq!(TCP_KEEPALIVE_LEN, 12);
}

#[test]
fn no_keepalive_switches_it_off() {
    assert_eq!(
        set_keepalive(None),
        Ok(TcpKeepalive { onoff: 0, keepalivetime: 0, keepaliveinterval: 0 })
    );
}

#[test]
fn a_keepalive_time_is_both_the_idle_time_and_the_interval() {
    assert_eq!(
        set_keepalive(Some(Duration::from_secs(2))),
        Ok(TcpKeepalive { onoff: 1, keepalivetime: 2000, keepaliveinterval: 2000 })
    );
    assert_eq!(
        set_keepalive(Some(Duration::new(0, 1))),
        Ok(TcpKeepalive { onoff: 1, keepalivetime: 1, keepaliveinterval: 1 })
    );
    assert_eq!(
        set_keepalive(Some(Duration::from_secs(5_000_000))),
        Ok(TcpKeepalive { onoff: 1, keepalivetime: u32::MAX, keepaliveinterval: u32::MAX })
    );
}

#[test]
fn a_keepalive_time_of_no_length_is_refused() {
    assert_eq!(set_keepalive(Some(Duration::new(0, 0))), Err(Error::ZeroTimeout));
}

#[test]
fn a_failed_read_of_keepalive_is_the_error_of_the_system() {
    let ka = TcpKeepalive { onoff: 1, keepalivetime: 1000, keepaliveinterval: 1000 };
    assert_eq!(keepalive(-1, 10022, &ka), Err(Error::Os { code: 10022 }));
    assert_eq!(keepalive(1, 10045, &ka), Err(Error::Os { code: 10045 }));
}

#[test]
fn keepalive_that_is_switched_off_is_none() {
    let ka = TcpKeepalive { onoff: 0, keepalivetime: 1000, keepaliveinterval: 1000 };
    assert_eq!(keepalive(0, 0, &ka), Ok(None));
    let zeroed = TcpKeepalive { onoff: 0, keepalivetime: 0, keepaliveinterval: 0 };
    assert_eq!(keepalive(0, 77, &zeroed), Ok(None));
}

#[test]
fn keepalive_with_no_interval_is_none() {
    let ka = TcpKeepalive { onoff: 1, keepalivetime: 1000, keepaliveinterval: 0 };
    assert_eq!(keepalive(0, 0, &ka), Ok(None));
}

#[test]
fn keepalive_that_is_switched_on_is_its_interval() {
    let ka = TcpKeepalive { onoff: 1, keepalivetime: 7000, keepaliveinterval: 1500 };
    assert_eq!(keepalive(0, 0, &ka), Ok(Some(Duration::new(1, 500_000_000))));
    let long = TcpKeepalive { onoff: 5, keepalivetime: 0, keepaliveinterval: u32::MAX };
    assert_eq!(keepalive(0, 0, &long), Ok(Some(Duration::new(4_294_967, 295_000_000))));
}

#[test]
fn the_keepalive_structure_lies_in_memory_in_host_order() {
    let ka = TcpKeepalive { onoff: 1, keepalivetime: 2000, keepaliveinterval: 0x0102_0304 };
    assert_eq!(ka.to_bytes(), [1, 0, 0, 0, 0xd0, 0x07, 0, 0, 4, 3, 2, 1]);
    assert_eq!(TcpKeepalive::from_bytes(&[1, 0, 0, 0, 0xd0, 0x07, 0, 0, 4, 3, 2, 1]), ka);
    let all = TcpKeepalive { onoff: u32::MAX, keepalivetime: 0, keepaliveinterval: 1 << 31 };
    assert_eq!(TcpKeepalive::from_bytes(&all.to_bytes()), all);
}
