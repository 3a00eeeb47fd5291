use embedded_ble::gap::AdFields;
use embedded_ble::link_layer::{AdvA, Channel, ScanReqPdu, TxRxAdvAddress, ADV_ACCESS_ADDRESS, ADV_CRCINIT, PDU_TYPE};
use embedded_ble::radio::{BleError, FakeHci};
use embedded_ble::tasks::{Task, TaskQueue, IDLE_PRIORITY};
use embedded_ble::Ble;

const LOCAL: [u8; 6] = [0xC1, 0xC2, 0xC3, 0xC4, 0xC5, 0xC6];

fn scan_request_to(target: [u8; 6]) -> [u8; 14] {
    let scan_a = TxRxAdvAddress::Public([0x51, 0x52, 0x53, 0x54, 0x55, 0x56]);
    let adv_a = AdvA::RandomStatic(target);
    let mut buffer = [0u8; 14];
    ScanReqPdu { scan_a: &scan_a, adv_a: &adv_a }.write(&mut buffer);
    buffer
}

#[test]
fn advertiser_sends_once_when_not_connected() {
    let fields = AdFields { local_name: Some("demo"), ..AdFields::default() };
    let mut ble = Ble::new(AdvA::RandomStatic(LOCAL), fields).unwrap();
    let hci = FakeHci { adv_a: AdvA::RandomStatic(LOCAL) };
    let mut transmits = 0;
    assert!(!ble.is_connected());
    if let Some(tx) = ble.advertiser(Channel::CH37) {
        assert!(hci.send(tx.channel, tx.access_address, tx.crc_init, &ble.pdu()[..tx.length]));
        transmits += 1;
        assert_eq!(tx.channel, Channel::CH37);
        assert_eq!(tx.access_address, ADV_ACCESS_ADDRESS);
        assert_eq!(tx.crc_init, ADV_CRCINIT);
        assert_eq!(ble.pdu()[..tx.length], [0x42, 12, 0xC1, 0xC2, 0xC3, 0xC4, 0xC5, 0xC6, 5, 0x09, b'd', b'e', b'm', b'o']);
    }
    assert_eq!(transmits, 1);
}

#[test]
fn advertiser_is_silent_when_connected() {
    let mut ble = Ble::new(AdvA::Public(LOCAL), AdFields::default()).unwrap();
    ble.set_connected(true);
    assert!(ble.is_connected());
    assert_eq!(ble.advertiser(Channel::CH38), None);
}

#[test]
fn advertise_adv_ind() {
    let mut ble = Ble::new(AdvA::Public(LOCAL), AdFields::default()).unwrap();
    let tx = ble.advertise(Channel::CH39, PDU_TYPE::ADV_IND);
    assert_eq!(tx.length, 8);
    assert_eq!(ble.pdu()[..8], [0x00, 6, 0xC1, 0xC2, 0xC3, 0xC4, 0xC5, 0xC6]);
}

#[test]
fn scan_request_for_local_address_is_answered_once() {
    let fields = AdFields { short_name: Some("ok"), ..AdFields::default() };
    let mut ble = Ble::new(AdvA::RandomStatic(LOCAL), fields).unwrap();
    let mut queue = TaskQueue::new();
    ble.advertiser(Channel::CH38);

    let request = scan_request_to(LOCAL);
    assert_eq!(ble.radio_event(&request), Ok(true));
    assert!(queue.spawn(Task::Worker));
    assert_eq!(queue.next(IDLE_PRIORITY), Some(Task::Worker));
    assert_eq!(queue.next(IDLE_PRIORITY), None);

    let tx = ble.work().unwrap();
    assert_eq!(tx.channel, Channel::CH38);
    let pdu = &ble.pdu()[..tx.length];
    assert_eq!(PDU_TYPE::of(pdu), Some(PDU_TYPE::SCAN_RSP));
    assert_eq!(pdu[2..8], LOCAL);
    assert_eq!(pdu, [0x44, 10, 0xC1, 0xC2, 0xC3, 0xC4, 0xC5, 0xC6, 3, 0x08, b'o', b'k']);
    assert_eq!(ble.work(), None);
}

#[test]
fn scan_request_for_another_device_is_ignored() {
    let mut ble = Ble::new(AdvA::Public(LOCAL), AdFields::default()).unwrap();
    let request = scan_request_to([9, 9, 9, 9, 9, 9]);
    assert_eq!(ble.radio_event(&request), Ok(false));
    assert_eq!(ble.work(), None);
}

#[test]
fn other_pdu_types_need_no_work() {
    let mut ble = Ble::new(AdvA::Public(LOCAL), AdFields::default()).unwrap();
    assert_eq!(ble.radio_event(&[0x02, 6, 1, 2, 3, 4, 5, 6]), Ok(false));
    assert_eq!(ble.radio_event(&[]), Ok(false));
    assert_eq!(ble.radio_event(&[0x43, 12, 1]), Ok(false));
}

#[test]
fn reserved_pdu_type_is_reported() {
    let mut ble = Ble::new(AdvA::Public(LOCAL), AdFields::default()).unwrap();
    assert_eq!(ble.radio_event(&[0x0A, 0]), Err(BleError::UnknownPduType));
    assert_eq!(ble.handle_packet(&[0x0C]), Err(BleError::UnknownPduType));
}

#[test]
fn handle_packet_answers_at_once() {
    let mut ble = Ble::new(AdvA::RandomStatic(LOCAL), AdFields::default()).unwrap();
    let tx = ble.handle_packet(&scan_request_to(LOCAL)).unwrap().unwrap();
    assert_eq!(ble.pdu()[..tx.length], [0x44, 6, 0xC1, 0xC2, 0xC3, 0xC4, 0xC5, 0xC6]);
    assert_eq!(ble.handle_packet(&scan_request_to([0; 6])), Ok(None));
}

#[test]
fn invalid_manufacturer_data_is_refused() {
    let data = [0x4C];
    let fields = AdFields { manufacturer_specific_data: Some(&data), ..AdFields::default() };
    assert!(matches!(Ble::new(AdvA::Public(LOCAL), fields), Err(BleError::InvalidConfiguration)));
}

#[test]
fn handle_packet_answers_a_waiting_request() {
    let mut ble = Ble::new(AdvA::Public(LOCAL), AdFields::default()).unwrap();
    assert_eq!(ble.radio_event(&scan_request_to(LOCAL)), Ok(true));
    let tx = ble.handle_packet(&[0x02, 6, 1, 2, 3, 4, 5, 6]).unwrap().unwrap();
    assert_eq!(ble.pdu()[..tx.length], [0x04, 6, 0xC1, 0xC2, 0xC3, 0xC4, 0xC5, 0xC6]);
    assert_eq!(ble.work(), None);
}
