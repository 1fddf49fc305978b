use ots_core::client::{ClientConfig, OtsClient, Presence};
use ots_core::error::Error;
use ots_core::flags::{ActionFeature, ListFeature, WriteMode};
use ots_core::ids::Characteristic;
use ots_core::l2cap::{
    AddressType, IoAction, IoOutcome, L2capSockAddr, Security, SecurityLevel, SocketEvent,
    SocketState, CONNECT_TIMEOUT_MS,
};
use ots_core::setup::{Setup, SetupEvent, SetupOutcome, SetupStep};
use ots_core::transaction::{Transaction, TxAction, TxEvent, TxState, RESPONSE_TIMEOUT_MS};
use ots_core::transfer::{remaining, TransferKind, TransferStep};
use ots_core::types::Sizes;

fn adapter_event() -> SetupEvent {
    SetupEvent::Adapter {
        adapter_mac: [1, 2, 3, 4, 5, 6],
        adapter_type: AddressType::Public,
        device_mac: [6, 5, 4, 3, 2, 1],
        device_type: AddressType::Random,
    }
}

#[test]
fn setup_runs_through_every_lookup() {
    let config = ClientConfig {
        privileged: false,
        security: Some(Security { level: SecurityLevel::Medium, key_size: 0 }),
    };
    let mut s = Setup::new(&config);
    assert_eq!(s.step(), SetupStep::FindService);
    assert_eq!(s.finish(), None);
    let script = [
        (SetupEvent::Found, SetupStep::Lookup(Characteristic::Feature)),
        (SetupEvent::Found, SetupStep::ReadFeature),
        (
            SetupEvent::Value(vec![0x30, 0, 0, 0, 0x01, 0, 0, 0]),
            SetupStep::Lookup(Characteristic::ActionControl),
        ),
        (SetupEvent::Found, SetupStep::Lookup(Characteristic::ListControl)),
        (SetupEvent::Found, SetupStep::Lookup(Characteristic::Id)),
        (SetupEvent::Missing, SetupStep::Lookup(Characteristic::Name)),
        (SetupEvent::Found, SetupStep::Lookup(Characteristic::Type)),
        (SetupEvent::Found, SetupStep::Lookup(Characteristic::Size)),
        (SetupEvent::Found, SetupStep::Lookup(Characteristic::Properties)),
        (SetupEvent::Found, SetupStep::Lookup(Characteristic::FirstCreated)),
        (SetupEvent::Missing, SetupStep::Lookup(Characteristic::LastModified)),
        (SetupEvent::Found, SetupStep::FindAdapter),
        (adapter_event(), SetupStep::Done),
    ];
    for (event, step) in script {
        assert_eq!(s.advance(&event), SetupOutcome::Next(step));
        assert_eq!(s.step(), step);
    }
    let client = s.finish().unwrap();
    assert_eq!(
        client,
        OtsClient {
            action_features: ActionFeature::from_bits(0x30).unwrap(),
            list_features: ListFeature::from_bits(0x01).unwrap(),
            present: Presence {
                list_control: true,
                id: false,
                first_created: false,
                last_modified: true,
            },
            adapter_addr: L2capSockAddr::new_le_dyn_start(
                [1, 2, 3, 4, 5, 6],
                AddressType::Public
            ),
            device_addr: L2capSockAddr::new_le_cid_ots([6, 5, 4, 3, 2, 1], AddressType::Random),
            sock_security: Some(Security { level: SecurityLevel::Medium, key_size: 0 }),
        }
    );
    assert_eq!(s.advance(&SetupEvent::Found), SetupOutcome::Rejected);
}

#[test]
fn setup_with_privileges_binds_to_the_zero_address() {
    let config = ClientConfig { privileged: true, security: None };
    let mut s = Setup::new(&config);
    s.step = SetupStep::FindAdapter;
    assert_eq!(s.advance(&adapter_event()), SetupOutcome::Next(SetupStep::Done));
    let client = s.finish().unwrap();
    assert_eq!(
        client.adapter_addr,
        L2capSockAddr { addr: [0; 6], type_: AddressType::Random, psm: 0x25, cid: 0 }
    );
    assert_eq!(client.device_addr.psm, 0x25);
}

#[test]
fn setup_failures() {
    let config = ClientConfig::default();
    let mut s = Setup::new(&config);
    assert_eq!(s.advance(&SetupEvent::Missing), SetupOutcome::Propagate);
    assert_eq!(s.advance(&SetupEvent::Failed), SetupOutcome::Propagate);
    assert_eq!(s.advance(&SetupEvent::NoAdapter), SetupOutcome::Rejected);
    assert_eq!(s.step(), SetupStep::FindService);
    for c in [
        Characteristic::Feature,
        Characteristic::ActionControl,
        Characteristic::Name,
        Characteristic::Type,
        Characteristic::Size,
        Characteristic::Properties,
    ] {
        s.step = SetupStep::Lookup(c);
        assert_eq!(s.advance(&SetupEvent::Missing), SetupOutcome::Propagate);
        assert_eq!(s.advance(&SetupEvent::Failed), SetupOutcome::Propagate);
        assert_eq!(s.step(), SetupStep::Lookup(c));
    }
    for c in [
        Characteristic::ListControl,
        Characteristic::Id,
        Characteristic::FirstCreated,
        Characteristic::LastModified,
    ] {
        s.step = SetupStep::Lookup(c);
        assert_eq!(s.advance(&SetupEvent::Failed), SetupOutcome::Propagate);
        assert!(matches!(s.advance(&SetupEvent::Missing), SetupOutcome::Next(_)));
        assert!(!s.client.present.has(&c));
    }
    s.step = SetupStep::ReadFeature;
    assert_eq!(
        s.advance(&SetupEvent::Value(vec![1, 2, 3])),
        SetupOutcome::Fail(Error::NotEnoughData { actual: 3, needed: 8 })
    );
    assert_eq!(
        s.advance(&SetupEvent::Value(vec![0, 0, 1, 0, 0, 0, 0, 0])),
        SetupOutcome::Fail(Error::BadActionFeatures(0x1_0000))
    );
    assert_eq!(
        s.advance(&SetupEvent::Value(vec![0, 0, 0, 0, 0, 0, 0, 1])),
        SetupOutcome::Fail(Error::BadListFeatures(0x0100_0000))
    );
    assert_eq!(s.advance(&SetupEvent::Failed), SetupOutcome::Propagate);
    s.step = SetupStep::FindAdapter;
    assert_eq!(s.advance(&SetupEvent::NoAdapter), SetupOutcome::Fail(Error::NotFound));
    assert_eq!(s.advance(&SetupEvent::Failed), SetupOutcome::Propagate);
    assert_eq!(s.finish(), None);
}

#[test]
fn transaction_delivers_the_response() {
    let mut tx = Transaction::new(Characteristic::ListControl, vec![0x07]);
    assert_eq!(tx.state(), TxState::Idle);
    assert_eq!(tx.request(), &[0x07]);
    assert_eq!(tx.advance(TxEvent::Start), TxAction::StartNotify);
    assert_eq!(tx.advance(TxEvent::Done), TxAction::Observe);
    assert_eq!(tx.advance(TxEvent::Done), TxAction::Write);
    assert_eq!(tx.advance(TxEvent::Done), TxAction::Await);
    assert_eq!(tx.state(), TxState::AwaitingResponse);
    assert_eq!(tx.advance(TxEvent::Other), TxAction::Await);
    assert_eq!(
        tx.advance(TxEvent::Value { from: Characteristic::ActionControl, value: vec![0x60, 1, 1] }),
        TxAction::Await
    );
    assert_eq!(tx.state(), TxState::AwaitingResponse);
    assert_eq!(
        tx.advance(TxEvent::Value {
            from: Characteristic::ListControl,
            value: vec![0x70, 0x07, 0x01, 0x2A, 0, 0, 0]
        }),
        TxAction::StopNotify
    );
    assert_eq!(tx.state(), TxState::Unsubscribing);
    assert_eq!(
        tx.advance(TxEvent::Done),
        TxAction::Deliver(vec![0x70, 0x07, 0x01, 0x2A, 0, 0, 0])
    );
    assert_eq!(tx.state(), TxState::Idle);
    assert_eq!(tx.response, None);
}

#[test]
fn transaction_without_notification_is_no_response() {
    assert_eq!(RESPONSE_TIMEOUT_MS, 1000);
    let mut tx = Transaction::new(Characteristic::ActionControl, vec![0x02]);
    assert_eq!(tx.advance(TxEvent::Start), TxAction::StartNotify);
    assert_eq!(tx.advance(TxEvent::Done), TxAction::Observe);
    assert_eq!(tx.advance(TxEvent::Done), TxAction::Write);
    assert_eq!(tx.advance(TxEvent::Done), TxAction::Await);
    assert_eq!(tx.advance(TxEvent::TimedOut), TxAction::StopNotify);
    assert_eq!(tx.advance(TxEvent::Done), TxAction::Fail(Error::NoResponse));
    assert_eq!(tx.state(), TxState::Idle);
    let mut tx = Transaction::new(Characteristic::ActionControl, vec![0x02]);
    tx.state = TxState::AwaitingResponse;
    assert_eq!(tx.advance(TxEvent::TimedOut), TxAction::StopNotify);
    assert_eq!(tx.advance(TxEvent::Failed), TxAction::Fail(Error::NoResponse));
}

#[test]
fn transaction_is_half_duplex_and_propagates_failures() {
    let mut tx = Transaction::new(Characteristic::ActionControl, vec![0x02]);
    assert_eq!(tx.advance(TxEvent::Done), TxAction::Rejected);
    assert_eq!(tx.advance(TxEvent::Failed), TxAction::Rejected);
    assert_eq!(tx.advance(TxEvent::TimedOut), TxAction::Rejected);
    assert_eq!(tx.advance(TxEvent::Start), TxAction::StartNotify);
    assert_eq!(tx.advance(TxEvent::Start), TxAction::Rejected);
    assert_eq!(tx.state(), TxState::Subscribing);
    assert_eq!(tx.advance(TxEvent::Failed), TxAction::Propagate);
    assert_eq!(tx.state(), TxState::Idle);
    for state in [TxState::Observing, TxState::Writing, TxState::AwaitingResponse] {
        tx.state = state;
        assert_eq!(tx.advance(TxEvent::Start), TxAction::Rejected);
        assert_eq!(tx.state(), state);
        assert_eq!(tx.advance(TxEvent::Failed), TxAction::Propagate);
        assert_eq!(tx.state(), TxState::Idle);
    }
    tx.state = TxState::AwaitingResponse;
    assert_eq!(
        tx.advance(TxEvent::Value { from: Characteristic::ActionControl, value: vec![1] }),
        TxAction::StopNotify
    );
    assert_eq!(tx.advance(TxEvent::Other), TxAction::Rejected);
    assert_eq!(tx.response, Some(vec![1]));
    assert_eq!(tx.advance(TxEvent::Failed), TxAction::Propagate);
    assert_eq!(tx.state(), TxState::Idle);
}

#[test]
fn socket_walks_to_connected() {
    let mut s = SocketState::Unbound;
    for (event, state) in [
        (SocketEvent::SetSecurity, SocketState::Unbound),
        (SocketEvent::Bind, SocketState::Bound),
        (SocketEvent::Connect, SocketState::Connecting),
        (SocketEvent::Writable { pending_error: 0 }, SocketState::Connected),
        (SocketEvent::Shutdown, SocketState::HalfClosed),
        (SocketEvent::Close, SocketState::Closed),
    ] {
        assert_eq!(s.next(&event), Some(state));
        s = state;
    }
    assert_eq!(s.next(&SocketEvent::Close), None);
    assert_eq!(s.next(&SocketEvent::Error), None);
}

#[test]
fn socket_connect_timeout_and_errors() {
    assert_eq!(CONNECT_TIMEOUT_MS, 5000);
    assert_eq!(
        SocketState::Connecting.next(&SocketEvent::TimedOut),
        Some(SocketState::Failed)
    );
    assert_eq!(
        SocketState::Connecting.next(&SocketEvent::Writable { pending_error: 111 }),
        Some(SocketState::Failed)
    );
    assert_eq!(SocketState::Unbound.next(&SocketEvent::Connect), None);
    assert_eq!(SocketState::Bound.next(&SocketEvent::Bind), None);
    assert_eq!(SocketState::Bound.next(&SocketEvent::SetSecurity), None);
    assert_eq!(SocketState::Connected.next(&SocketEvent::TimedOut), None);
    assert_eq!(SocketState::HalfClosed.next(&SocketEvent::Shutdown), None);
    for s in [
        SocketState::Unbound,
        SocketState::Bound,
        SocketState::Connecting,
        SocketState::Connected,
        SocketState::HalfClosed,
    ] {
        assert_eq!(s.next(&SocketEvent::Error), Some(SocketState::Failed));
        assert_eq!(s.next(&SocketEvent::Close), Some(SocketState::Closed));
    }
    for e in [
        SocketEvent::SetSecurity,
        SocketEvent::Bind,
        SocketEvent::Connect,
        SocketEvent::Writable { pending_error: 0 },
        SocketEvent::TimedOut,
        SocketEvent::Shutdown,
        SocketEvent::Close,
        SocketEvent::Error,
    ] {
        assert_eq!(SocketState::Failed.next(&e), None);
        assert_eq!(SocketState::Closed.next(&e), None);
    }
    assert!(SocketState::Connected.can_read() && SocketState::Connected.can_write());
    assert!(SocketState::HalfClosed.can_read() && !SocketState::HalfClosed.can_write());
    assert!(!SocketState::Connecting.can_read() && !SocketState::Connecting.can_write());
}

#[test]
fn io_attempts() {
    assert_eq!(IoOutcome::Done(7).action(), IoAction::Advance(7));
    assert_eq!(IoOutcome::WouldBlock.action(), IoAction::Retry);
    assert_eq!(IoOutcome::Failed.action(), IoAction::Fail);
}

fn client(action: u32, security: Option<Security>) -> OtsClient {
    OtsClient {
        action_features: ActionFeature::from_bits(action).unwrap(),
        list_features: ListFeature::empty(),
        present: Presence::none(),
        adapter_addr: L2capSockAddr::new_le_dyn_start([1, 2, 3, 4, 5, 6], AddressType::Public),
        device_addr: L2capSockAddr::new_le_cid_ots([6, 5, 4, 3, 2, 1], AddressType::Random),
        sock_security: security,
    }
}

#[test]
fn read_plan_opens_the_channel_before_the_request() {
    let c = client(ActionFeature::READ, None);
    let size = Sizes { current: 100, allocated: 200 };
    let plan = c.transfer(TransferKind::Read, &size, 30, None).unwrap();
    assert_eq!(
        plan,
        vec![
            TransferStep::Open,
            TransferStep::Bind(c.adapter_addr),
            TransferStep::Connect { peer: c.device_addr, timeout_ms: 5000 },
            TransferStep::Request(vec![0x05, 30, 0, 0, 0, 70, 0, 0, 0]),
            TransferStep::Stream { length: 70 },
        ]
    );
}

#[test]
fn write_plan_sets_security_and_mode() {
    let sec = Security { level: SecurityLevel::High, key_size: 16 };
    let c = client(ActionFeature::WRITE, Some(sec));
    let size = Sizes { current: 100, allocated: 200 };
    let mode = WriteMode::from_bits(WriteMode::TRUNCATE).unwrap();
    let plan = c.transfer(TransferKind::Write(mode), &size, 150, Some(80)).unwrap();
    assert_eq!(
        plan,
        vec![
            TransferStep::Open,
            TransferStep::SetSecurity(sec),
            TransferStep::Bind(c.adapter_addr),
            TransferStep::Connect { peer: c.device_addr, timeout_ms: 5000 },
            TransferStep::Request(vec![0x06, 150, 0, 0, 0, 50, 0, 0, 0, 0x02]),
            TransferStep::Stream { length: 50 },
        ]
    );
}

#[test]
fn transfers_that_the_server_does_not_offer_get_no_plan() {
    let size = Sizes { current: 100, allocated: 200 };
    let c = client(ActionFeature::ALL & !ActionFeature::WRITE, None);
    assert_eq!(
        c.transfer(TransferKind::Write(WriteMode::empty()), &size, 0, None),
        Err(Error::NotSupported)
    );
    assert!(c.transfer(TransferKind::Read, &size, 0, None).is_ok());
    let c = client(ActionFeature::ALL & !ActionFeature::READ, None);
    assert_eq!(
        c.transfer(TransferKind::Read, &size, 0, Some(1)),
        Err(Error::NotSupported)
    );
    assert_eq!(
        TransferKind::Read.request(1, 2),
        ots_core::control::ActionReq::Read { offset: 1, length: 2 }
    );
}

#[test]
fn bytes_yet_to_move() {
    assert_eq!(remaining(100, 0), 100);
    assert_eq!(remaining(100, 40), 60);
    assert_eq!(remaining(100, 100), 0);
    assert_eq!(remaining(100, 101), 0);
}

#[test]
fn kinds_of_transfer_that_a_server_offers() {
    let c = client(ActionFeature::READ, None);
    assert_eq!(c.supports(TransferKind::Read), Ok(()));
    assert_eq!(
        c.supports(TransferKind::Write(WriteMode::empty())),
        Err(Error::NotSupported)
    );
}
