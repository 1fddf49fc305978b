use macaddr::MacAddr6;
use ots_core::error::Error;
use ots_core::l2cap::{
    decode_mtu, encode_mtu, reversed, AddressType, Connected, InvalidInput, L2capSockAddr, Psm,
    Security, SecurityLevel, SocketEvent, AF_BLUETOOTH, BTPROTO_L2CAP, BT_RCVMTU, BT_SECURITY,
    BT_SNDMTU, SOCKADDR_LEN, SOL_BLUETOOTH,
};

#[test]
fn numbers_of_the_kernel_interface() {
    assert_eq!(AF_BLUETOOTH as i32, libc::AF_BLUETOOTH);
    assert_eq!(SOL_BLUETOOTH, libc::SOL_BLUETOOTH);
    assert_eq!(BTPROTO_L2CAP, 0);
    assert_eq!(BT_SECURITY, 4);
    assert_eq!(BT_SNDMTU, 12);
    assert_eq!(BT_RCVMTU, 13);
    assert_eq!(SOCKADDR_LEN, 14);
    assert_eq!(Psm::L2CapLeCidOts.value(), 0x25);
    assert_eq!(Psm::L2CapLeDynStart.value(), 0x80);
}

#[test]
fn socket_address_record() {
    let a = L2capSockAddr {
        addr: [0x11, 0x22, 0x33, 0x44, 0x55, 0x66],
        type_: AddressType::Random,
        psm: 0x0025,
        cid: 0x0102,
    };
    let raw = a.to_bytes();
    assert_eq!(
        raw,
        vec![31, 0, 0x25, 0x00, 0x66, 0x55, 0x44, 0x33, 0x22, 0x11, 0x02, 0x01, 2, 0]
    );
    assert_eq!(L2capSockAddr::try_from(&raw), Ok(a));
    assert_eq!(L2capSockAddr::try_from(&raw[..13]), Ok(a));
}

#[test]
fn socket_address_constructors() {
    let mac = MacAddr6::new(1, 2, 3, 4, 5, 6).into_array();
    assert_eq!(
        L2capSockAddr::new(mac, AddressType::Public, 7),
        L2capSockAddr { addr: [1, 2, 3, 4, 5, 6], type_: AddressType::Public, psm: 7, cid: 0 }
    );
    assert_eq!(L2capSockAddr::new_le_cid_ots(mac, AddressType::Public).psm, 0x25);
    assert_eq!(L2capSockAddr::new_le_dyn_start(mac, AddressType::Public).psm, 0x80);
    assert_eq!(reversed(&mac), [6, 5, 4, 3, 2, 1]);
    assert_eq!(reversed(&reversed(&mac)), mac);
}

#[test]
fn socket_address_refusals() {
    let good = L2capSockAddr::new([1, 2, 3, 4, 5, 6], AddressType::Public, 0x80).to_bytes();
    assert_eq!(L2capSockAddr::try_from(&good[..12]), Err(InvalidInput::Size));
    assert_eq!(L2capSockAddr::try_from(&[]), Err(InvalidInput::Size));
    let mut inet = good.clone();
    inet[0] = 2;
    assert_eq!(L2capSockAddr::try_from(&inet), Err(InvalidInput::AddressFamily));
    for t in [0u8, 3, 0xFF] {
        let mut bad = good.clone();
        bad[12] = t;
        assert_eq!(L2capSockAddr::try_from(&bad), Err(InvalidInput::AddressType));
    }
    assert_eq!(AddressType::try_from(1), Ok(AddressType::Public));
    assert_eq!(AddressType::try_from(2), Ok(AddressType::Random));
    assert_eq!(AddressType::try_from(0), Err(InvalidInput::AddressType));
    assert_eq!(AddressType::Public.code(), 1);
    assert_eq!(AddressType::Random.code(), 2);
}

#[test]
fn security_option() {
    let levels = [
        (SecurityLevel::Sdp, 0u8),
        (SecurityLevel::Low, 1),
        (SecurityLevel::Medium, 2),
        (SecurityLevel::High, 3),
        (SecurityLevel::Fips, 4),
    ];
    for (level, code) in levels {
        assert_eq!(level.code(), code);
        assert_eq!(SecurityLevel::try_from(code), Ok(level));
        let s = Security { level, key_size: 16 };
        assert_eq!(s.to_bytes(), [code, 16]);
        assert_eq!(Security::try_from(&[code, 16]), Ok(s));
    }
    assert_eq!(SecurityLevel::try_from(5), Err(InvalidInput::SecurityLevel));
    assert_eq!(Security::try_from(&[5, 0]), Err(InvalidInput::SecurityLevel));
    assert_eq!(Security::try_from(&[1]), Err(InvalidInput::Size));
    assert_eq!(Security::try_from(&[1, 0, 0]), Err(InvalidInput::Size));
    assert_eq!(SecurityLevel::default(), SecurityLevel::Low);
}

#[test]
fn mtu_option() {
    assert_eq!(encode_mtu(0x0123), vec![0x23, 0x01]);
    assert_eq!(encode_mtu(0x1_0005), vec![0x05, 0x00]);
    assert_eq!(decode_mtu(&[0x23, 0x01]), Ok(0x0123));
    assert_eq!(decode_mtu(&[0x23]), Err(InvalidInput::Size));
    assert_eq!(decode_mtu(&[0, 0, 0, 0]), Err(InvalidInput::Size));
}

#[test]
fn end_of_the_wait_for_a_connection() {
    assert_eq!(
        Connected::of(&SocketEvent::Writable { pending_error: 0 }),
        Some(Connected::Open)
    );
    assert_eq!(
        Connected::of(&SocketEvent::Writable { pending_error: 111 }),
        Some(Connected::Refused(111))
    );
    assert_eq!(Connected::of(&SocketEvent::TimedOut), Some(Connected::TimedOut));
    assert_eq!(Connected::of(&SocketEvent::Bind), None);
    assert_eq!(Connected::of(&SocketEvent::Error), None);
    assert_eq!(Connected::TimedOut.error(), Some(Error::Timeout));
    assert_eq!(Connected::Open.error(), None);
    assert_eq!(Connected::Refused(5).error(), None);
}

#[test]
fn multiplexer_numbers_through_from() {
    assert_eq!(u16::from(Psm::L2CapLeCidOts), 0x25);
    assert_eq!(u16::from(Psm::L2CapLeDynStart), 0x80);
}
