use embedded_ble::link_layer::{AdvA, Channel, ADV_ACCESS_ADDRESS, ADV_CRCINIT};
use embedded_ble::radio::{
    device_address, configure, BleError, FakeHci, RadioConfig, RadioMode, TxPowerLevel,
};

#[test]
fn radio_config_for_advertising_channel() {
    let config = RadioConfig::new(Channel::CH37, ADV_ACCESS_ADDRESS, ADV_CRCINIT);
    assert_eq!(config.frequency, 2);
    assert_eq!(config.whitening_iv, 37);
    assert_eq!(config.address_prefix, 0x8E);
    assert_eq!(config.address_base, 0x89BED600);
    assert_eq!(config.crc_init, 0x555555);
}

#[test]
fn transmit_refused_while_busy() {
    assert_eq!(
        configure(false, Channel::CH38, ADV_ACCESS_ADDRESS, ADV_CRCINIT, 8),
        Err(BleError::DriverBusy)
    );
    assert_eq!(
        configure(true, Channel::CH38, ADV_ACCESS_ADDRESS, ADV_CRCINIT, 8),
        Ok(RadioConfig::new(Channel::CH38, ADV_ACCESS_ADDRESS, ADV_CRCINIT))
    );
}

#[test]
fn tx_power_steps() {
    assert_eq!(TxPowerLevel::from_dbm(i8::MIN), TxPowerLevel::Neg40dBm);
    assert_eq!(TxPowerLevel::from_dbm(-19), TxPowerLevel::Neg40dBm);
    assert_eq!(TxPowerLevel::from_dbm(-18), TxPowerLevel::Neg20dBm);
    assert_eq!(TxPowerLevel::from_dbm(-12), TxPowerLevel::Neg16dBm);
    assert_eq!(TxPowerLevel::from_dbm(-7), TxPowerLevel::Neg12dBm);
    assert_eq!(TxPowerLevel::from_dbm(-3), TxPowerLevel::Neg8dBm);
    assert_eq!(TxPowerLevel::from_dbm(0), TxPowerLevel::Neg4dBm);
    assert_eq!(TxPowerLevel::from_dbm(3), TxPowerLevel::Pos3dBm);
    assert_eq!(TxPowerLevel::from_dbm(4), TxPowerLevel::Pos4dBm);
    assert_eq!(TxPowerLevel::from_dbm(i8::MAX), TxPowerLevel::Pos4dBm);
}

#[test]
fn preamble_per_mode() {
    assert_eq!(RadioMode::Ble1Mbit.preamble_bits(), 8);
    assert_eq!(RadioMode::Ble2Mbit.preamble_bits(), 16);
}

#[test]
fn device_address_from_factory_words() {
    let a = device_address(0x11223344, 0xAABB5566, true);
    assert!(matches!(a, AdvA::RandomStatic(_)));
    assert_eq!(*a.bytes(), [0x55, 0x66, 0x11, 0x22, 0x33, 0x44]);
    let p = device_address(0x11223344, 0x5566, false);
    assert!(matches!(p, AdvA::Public(_)));
}

#[test]
fn fake_radio_accepts() {
    let hci = FakeHci { adv_a: AdvA::Public([0; 6]) };
    assert!(hci.send(Channel::CH39, ADV_ACCESS_ADDRESS, ADV_CRCINIT, &[0x02, 0x06]));
}
