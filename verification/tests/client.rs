use ots_core::client::{
    addresses, check_sum, compose, decode_features, decode_opt_id, decode_opt_time, done, execute,
    go_to, listed, next, number_of, previous, read_window, selected, window, write_window,
    ClientConfig, OtsClient, Presence, Readings,
};
use ots_core::codes::{ActionRc, ListRc, SortOrder};
use ots_core::control::{ActionReq, ListReq, ListRes};
use ots_core::error::Error;
use ots_core::flags::{ActionFeature, ListFeature, Property, WriteMode};
use ots_core::ids::{service_uuid, Characteristic};
use ots_core::l2cap::{AddressType, L2capSockAddr, Security, SecurityLevel};
use ots_core::types::{uuid_from_u16, DateTime, Sizes};

fn client(action: u32, list: u32, list_control: bool) -> OtsClient {
    OtsClient {
        action_features: ActionFeature::from_bits(action).unwrap(),
        list_features: ListFeature::from_bits(list).unwrap(),
        present: Presence { list_control, id: true, first_created: false, last_modified: true },
        adapter_addr: L2capSockAddr::new_le_dyn_start([1, 2, 3, 4, 5, 6], AddressType::Public),
        device_addr: L2capSockAddr::new_le_cid_ots([6, 5, 4, 3, 2, 1], AddressType::Random),
        sock_security: None,
    }
}

#[test]
fn olcp_first_success() {
    let c = client(0, 0, true);
    assert_eq!(c.list_request(&ListReq::First), Ok(vec![0x01]));
    assert_eq!(ListReq::First.accept(&[0x70, 0x01, 0x01]), Ok(ListRes::Done));
}

#[test]
fn olcp_go_to_miss() {
    let c = client(0, ListFeature::GO_TO, true);
    assert_eq!(
        c.list_request(&ListReq::GoTo { id: 0xAB }),
        Ok(vec![0x05, 0xAB, 0x00, 0x00, 0x00, 0x00, 0x00])
    );
    assert_eq!(go_to(0xAB, &[0x70, 0x05, 0x08]), Ok(false));
    assert_eq!(go_to(0xAB, &[0x70, 0x05, 0x01]), Ok(true));
}

#[test]
fn olcp_number_of() {
    let c = client(0, ListFeature::NUMBER_OF, true);
    assert_eq!(c.list_request(&ListReq::NumberOf), Ok(vec![0x07]));
    assert_eq!(number_of(&[0x70, 0x07, 0x01, 0x2A, 0x00, 0x00, 0x00]), Ok(42));
    assert_eq!(number_of(&[0x70, 0x01, 0x01]), Err(Error::BadResponse));
    assert_eq!(
        number_of(&[0x70, 0x07, 0x06]),
        Err(Error::ListError(ListRc::TooManyObjects))
    );
}

#[test]
fn oacp_check_sum() {
    let c = client(ActionFeature::CHECK_SUM, 0, false);
    assert_eq!(
        c.action_request(&ActionReq::CheckSum { offset: 0, length: 16 }),
        Ok(vec![0x03, 0x00, 0x00, 0x00, 0x00, 0x10, 0x00, 0x00, 0x00])
    );
    assert_eq!(
        check_sum(0, 16, &[0x60, 0x03, 0x01, 0xEF, 0xBE, 0xAD, 0xDE]),
        Ok(0xDEAD_BEEF)
    );
    assert_eq!(check_sum(0, 16, &[0x60, 0x02, 0x01]), Err(Error::BadResponse));
    assert_eq!(
        check_sum(0, 16, &[0x60, 0x03, 0x05]),
        Err(Error::ActionError(ActionRc::InvalidObject))
    );
}

#[test]
fn oacp_write_refused() {
    let c = client(ActionFeature::ALL & !ActionFeature::WRITE, 0xF, true);
    for (offset, length, mode) in [
        (0usize, 0usize, WriteMode::empty()),
        (1, 100, WriteMode::all()),
        (usize::MAX, usize::MAX, WriteMode::empty()),
    ] {
        assert_eq!(
            c.action_request(&ActionReq::Write { offset, length, mode }),
            Err(Error::NotSupported)
        );
    }
}

#[test]
fn every_action_is_gated_by_its_feature() {
    let reqs = [
        (ActionReq::Create { size: 1, type_: uuid_from_u16(1) }, ActionFeature::CREATE),
        (ActionReq::Delete, ActionFeature::DELETE),
        (ActionReq::CheckSum { offset: 0, length: 1 }, ActionFeature::CHECK_SUM),
        (ActionReq::Execute { param: vec![1] }, ActionFeature::EXECUTE),
        (ActionReq::Read { offset: 0, length: 1 }, ActionFeature::READ),
        (
            ActionReq::Write { offset: 0, length: 1, mode: WriteMode::empty() },
            ActionFeature::WRITE,
        ),
        (ActionReq::Abort, ActionFeature::ABORT),
    ];
    for (req, bit) in reqs {
        let without = client(ActionFeature::ALL & !bit, 0, false);
        assert_eq!(without.action_request(&req), Err(Error::NotSupported));
        let with = client(bit, 0, false);
        assert_eq!(with.action_request(&req), Ok(req.encode()));
    }
}

#[test]
fn list_requests_are_gated_by_feature_and_control_point() {
    let gated = [
        (ListReq::GoTo { id: 1 }, ListFeature::GO_TO),
        (ListReq::Order { order: SortOrder::NameDesc }, ListFeature::ORDER),
        (ListReq::NumberOf, ListFeature::NUMBER_OF),
        (ListReq::ClearMark, ListFeature::CLEAR_MARK),
    ];
    for (req, bit) in gated {
        assert_eq!(
            client(0, ListFeature::ALL & !bit, true).list_request(&req),
            Err(Error::NotSupported)
        );
        assert_eq!(client(0, bit, true).list_request(&req), Ok(req.encode()));
        assert_eq!(client(0, bit, false).list_request(&req), Err(Error::NotSupported));
    }
    for req in [ListReq::First, ListReq::Last, ListReq::Previous, ListReq::Next] {
        assert_eq!(client(0, 0, true).list_request(&req), Ok(req.encode()));
        assert_eq!(client(0, 0xF, false).list_request(&req), Err(Error::NotSupported));
    }
}

#[test]
fn moves_of_the_selection() {
    assert_eq!(previous(&[0x70, 0x03, 0x01]), Ok(true));
    assert_eq!(previous(&[0x70, 0x03, 0x05]), Ok(false));
    assert_eq!(
        previous(&[0x70, 0x03, 0x08]),
        Err(Error::ListError(ListRc::ObjectIdNotFound))
    );
    assert_eq!(next(&[0x70, 0x04, 0x01]), Ok(true));
    assert_eq!(next(&[0x70, 0x04, 0x05]), Ok(false));
    assert_eq!(next(&[0x70, 0x04, 0x07]), Err(Error::ListError(ListRc::NoObject)));
    assert_eq!(next(&[0x70, 0x04]), Err(Error::NotEnoughData { actual: 2, needed: 3 }));
    assert_eq!(
        go_to(1, &[0x70, 0x05, 0x05]),
        Err(Error::ListError(ListRc::OutOfBounds))
    );
    assert_eq!(selected(Ok(ListRes::Done), ListRc::OutOfBounds), Ok(true));
    assert_eq!(selected(Err(Error::NoResponse), ListRc::OutOfBounds), Err(Error::NoResponse));
}

#[test]
fn features_come_in_eight_bytes() {
    let (a, l) = decode_features(&[0x31, 0x02, 0, 0, 0x05, 0, 0, 0]).unwrap();
    assert_eq!(a.bits(), 0x231);
    assert_eq!(l.bits(), 0x05);
    assert_eq!(
        decode_features(&[0x31, 0x02, 0, 0, 0x05, 0, 0]),
        Err(Error::NotEnoughData { actual: 7, needed: 8 })
    );
    assert_eq!(
        decode_features(&[0, 0x04, 0, 0, 0x05, 0, 0, 0]),
        Err(Error::BadActionFeatures(0x400))
    );
    assert_eq!(
        decode_features(&[0, 0, 0, 0, 0x10, 0, 0, 0]),
        Err(Error::BadListFeatures(0x10))
    );
    assert!(decode_features(&[1, 0, 0, 0, 1, 0, 0, 0, 0xFF]).is_ok());
}

#[test]
fn transfer_windows() {
    assert_eq!(window(None, 100, 0), 100);
    assert_eq!(window(None, 100, 30), 70);
    assert_eq!(window(Some(10), 100, 30), 10);
    assert_eq!(window(Some(10), 100, 95), 5);
    assert_eq!(window(Some(10), 100, 100), 0);
    assert_eq!(window(Some(10), 100, 101), 0);
    assert_eq!(window(None, 0, 0), 0);
    let size = Sizes { current: 50, allocated: 80 };
    assert_eq!(read_window(&size, 20, None), 30);
    assert_eq!(write_window(&size, 20, None), 60);
    assert_eq!(read_window(&size, 20, Some(40)), 30);
    assert_eq!(write_window(&size, 20, Some(40)), 40);
}

#[test]
fn addresses_with_and_without_privileges() {
    let (adapter, device) = addresses(
        false,
        [1, 2, 3, 4, 5, 6],
        AddressType::Public,
        [9, 8, 7, 6, 5, 4],
        AddressType::Random,
    );
    assert_eq!(
        adapter,
        L2capSockAddr { addr: [1, 2, 3, 4, 5, 6], type_: AddressType::Public, psm: 0x80, cid: 0 }
    );
    assert_eq!(
        device,
        L2capSockAddr { addr: [9, 8, 7, 6, 5, 4], type_: AddressType::Random, psm: 0x25, cid: 0 }
    );
    let (adapter, device2) = addresses(
        true,
        [1, 2, 3, 4, 5, 6],
        AddressType::Public,
        [9, 8, 7, 6, 5, 4],
        AddressType::Random,
    );
    assert_eq!(
        adapter,
        L2capSockAddr { addr: [0; 6], type_: AddressType::Random, psm: 0x25, cid: 0 }
    );
    assert_eq!(device2, device);
}

#[test]
fn client_config_default() {
    assert_eq!(
        ClientConfig::default(),
        ClientConfig { privileged: false, security: None }
    );
    assert_eq!(
        Security::default(),
        Security { level: SecurityLevel::Low, key_size: 0 }
    );
}

#[test]
fn presence_of_characteristics() {
    let p = Presence::none();
    assert!(p.has(&Characteristic::Name));
    assert!(p.has(&Characteristic::ActionControl));
    assert!(!p.has(&Characteristic::ListControl));
    assert!(!p.has(&Characteristic::Id));
    let q = p.with(&Characteristic::Id, true);
    assert!(q.has(&Characteristic::Id));
    assert!(!q.has(&Characteristic::FirstCreated));
    assert_eq!(q.with(&Characteristic::Name, false), q);
    let c = client(0, 0, true);
    assert!(c.has(&Characteristic::ListControl));
    assert!(!c.has(&Characteristic::FirstCreated));
    assert_eq!(c.action_features().bits(), 0);
    assert_eq!(c.list_features().bits(), 0);
}

#[test]
fn characteristic_numbers() {
    assert_eq!(Characteristic::Feature.uuid16(), 0x2ABD);
    assert_eq!(Characteristic::Name.uuid16(), 0x2ABE);
    assert_eq!(Characteristic::Type.uuid16(), 0x2ABF);
    assert_eq!(Characteristic::Size.uuid16(), 0x2AC0);
    assert_eq!(Characteristic::FirstCreated.uuid16(), 0x2AC1);
    assert_eq!(Characteristic::LastModified.uuid16(), 0x2AC2);
    assert_eq!(Characteristic::Id.uuid16(), 0x2AC3);
    assert_eq!(Characteristic::Properties.uuid16(), 0x2AC4);
    assert_eq!(Characteristic::ActionControl.uuid16(), 0x2AC5);
    assert_eq!(Characteristic::ListControl.uuid16(), 0x2AC6);
    assert_eq!(
        uuid::Uuid::from_bytes(service_uuid().into_bytes()).to_string(),
        "00001825-0000-1000-8000-00805f9b34fb"
    );
    assert_eq!(
        uuid::Uuid::from_bytes(Characteristic::ListControl.uuid().into_bytes()).to_string(),
        "00002ac6-0000-1000-8000-00805f9b34fb"
    );
    for c in [
        Characteristic::ListControl,
        Characteristic::Id,
        Characteristic::FirstCreated,
        Characteristic::LastModified,
    ] {
        assert!(!c.is_mandatory());
    }
    for c in [
        Characteristic::Feature,
        Characteristic::Name,
        Characteristic::Type,
        Characteristic::Size,
        Characteristic::Properties,
        Characteristic::ActionControl,
    ] {
        assert!(c.is_mandatory());
    }
}

fn readings() -> Readings {
    Readings {
        id: Some(vec![7, 0, 0, 0, 0, 0]),
        name: b"obj".to_vec(),
        type_: vec![0x24, 0x25],
        size: Some(vec![1, 0, 0, 0, 2, 0, 0, 0]),
        first_created: Some(vec![0xE8, 0x07, 1, 2, 3, 4, 5]),
        last_modified: Some(vec![0xE9, 0x07, 6, 7, 8, 9, 10]),
        properties: Some(vec![0x05, 0, 0, 0]),
    }
}

#[test]
fn metadata_from_readings() {
    let c = client(0, 0, true);
    let m = c.metadata(&readings()).unwrap();
    assert_eq!(m.id, Some(7));
    assert_eq!(m.name, "obj");
    assert_eq!(m.type_, uuid_from_u16(0x2524));
    assert_eq!(m.current_size, Some(1));
    assert_eq!(m.allocated_size, Some(2));
    // the server of this client has no creation time
    assert_eq!(m.first_created, None);
    assert_eq!(
        m.last_modified,
        Some(DateTime { year: 2025, month: 6, day: 7, hour: 8, minute: 9, second: 10 })
    );
    assert_eq!(m.properties.bits(), 0x05);
}

#[test]
fn metadata_degrades_sizes_and_properties_only() {
    let c = client(0, 0, true);
    let mut r = readings();
    r.size = None;
    r.properties = None;
    let m = c.metadata(&r).unwrap();
    assert_eq!((m.current_size, m.allocated_size), (None, None));
    assert_eq!(m.properties, Property::empty());
    let mut r = readings();
    r.size = Some(vec![1, 2, 3]);
    r.properties = Some(vec![0, 1, 0, 0]);
    let m = c.metadata(&r).unwrap();
    assert_eq!((m.current_size, m.allocated_size), (None, None));
    assert_eq!(m.properties, Property::empty());
    let mut r = readings();
    r.id = Some(vec![1, 2, 3]);
    assert_eq!(c.metadata(&r), Err(Error::NotEnoughData { actual: 3, needed: 6 }));
    let mut r = readings();
    r.name = vec![0xFF];
    assert_eq!(c.metadata(&r), Err(Error::BadUtf8));
    let mut r = readings();
    r.type_ = vec![1, 2, 3];
    assert_eq!(c.metadata(&r), Err(Error::BadUuidSize(3)));
    let mut r = readings();
    r.last_modified = Some(vec![0; 6]);
    assert_eq!(c.metadata(&r), Err(Error::NotEnoughData { actual: 6, needed: 7 }));
    let mut r = readings();
    r.last_modified = Some(vec![0xE9, 0x07, 6, 7, 8, 9, 10, 0xAA]);
    assert_eq!(
        c.metadata(&r).unwrap().last_modified,
        Some(DateTime { year: 2025, month: 6, day: 7, hour: 8, minute: 9, second: 10 })
    );
    let mut r = readings();
    r.id = None;
    r.last_modified = None;
    let m = c.metadata(&r).unwrap();
    assert_eq!(m.id, None);
    assert_eq!(m.last_modified, None);
}

#[test]
fn optional_values() {
    assert_eq!(decode_opt_id(&None), Ok(None));
    assert_eq!(decode_opt_id(&Some(vec![1, 1, 0, 0, 0, 0])), Ok(Some(257)));
    assert_eq!(
        decode_opt_id(&Some(vec![0; 7])),
        Err(Error::TooManyData { actual: 7, needed: 6 })
    );
    assert_eq!(decode_opt_time(&None), Ok(None));
    assert_eq!(
        decode_opt_time(&Some(vec![0; 7])),
        Ok(Some(DateTime { year: 0, month: 0, day: 0, hour: 0, minute: 0, second: 0 }))
    );
    assert_eq!(
        decode_opt_time(&Some(vec![1, 0, 2, 3, 4, 5, 6, 7, 8])),
        Ok(Some(DateTime { year: 1, month: 2, day: 3, hour: 4, minute: 5, second: 6 }))
    );
    assert_eq!(
        decode_opt_time(&Some(vec![1, 0, 2])),
        Err(Error::NotEnoughData { actual: 3, needed: 7 })
    );
}

#[test]
fn answers_without_a_value() {
    assert_eq!(done(&[0x60, 0x01, 0x01]), Ok(()));
    assert_eq!(done(&[0x60, 0x07, 0x01]), Ok(()));
    assert_eq!(done(&[0x60, 0x03, 0x01, 1, 2, 3, 4]), Err(Error::BadResponse));
    assert_eq!(
        done(&[0x60, 0x05, 0x06]),
        Err(Error::ActionError(ActionRc::ChannelUnavailable))
    );
    assert_eq!(listed(&[0x70, 0x02, 0x01]), Ok(()));
    assert_eq!(listed(&[0x70, 0x07, 0x01, 1, 0, 0, 0]), Err(Error::BadResponse));
    assert_eq!(
        listed(&[0x70, 0x06, 0x03]),
        Err(Error::ListError(ListRc::InvalidParameter))
    );
    assert_eq!(execute(&[0x60, 0x04, 0x01, 9, 9]), Ok(vec![9, 9]));
    assert_eq!(execute(&[0x60, 0x02, 0x01]), Err(Error::BadResponse));
    assert_eq!(
        execute(&[0x60, 0x04, 0x07]),
        Err(Error::ActionError(ActionRc::UnsupportedType))
    );
}

#[test]
fn sizes_from_an_array() {
    assert_eq!(
        Sizes::from_bytes(&[1, 0, 0, 0, 0, 0, 1, 0]),
        Sizes { current: 1, allocated: 0x1_0000 }
    );
}

#[test]
fn operations_on_absent_characteristics_are_not_supported() {
    let c = client(0, 0, false);
    assert_eq!(c.require(&Characteristic::ListControl), Err(Error::NotSupported));
    assert_eq!(c.require(&Characteristic::FirstCreated), Err(Error::NotSupported));
    assert_eq!(c.require(&Characteristic::Id), Ok(()));
    assert_eq!(c.require(&Characteristic::ActionControl), Ok(()));
    assert_eq!(c.require(&Characteristic::Size), Ok(()));
}

#[test]
fn metadata_from_decoded_values() {
    let m = compose(
        Some(9),
        String::from("n"),
        uuid_from_u16(0x2524),
        Some(Sizes { current: 3, allocated: 4 }),
        None,
        Some(DateTime { year: 1, month: 2, day: 3, hour: 4, minute: 5, second: 6 }),
        Some(Property::all()),
    );
    assert_eq!(m.id, Some(9));
    assert_eq!(m.name, "n");
    assert_eq!((m.current_size, m.allocated_size), (Some(3), Some(4)));
    assert_eq!(m.first_created, None);
    assert_eq!(m.properties, Property::all());
    let m = compose(None, String::new(), uuid_from_u16(1), None, None, None, None);
    assert_eq!((m.current_size, m.allocated_size), (None, None));
    assert_eq!(m.properties, Property::empty());
    assert_eq!(m.id, None);
}
