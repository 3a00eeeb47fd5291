use embedded_ble::gap::{
    AdFields, LeBluetoothDeviceAddress, LeRole, AD_LENGTH_SIZE, AD_TYPE_APPEARANCE,
    AD_TYPE_COMPLETE_LOCAL_NAME, AD_TYPE_COMPLETE_UUID128, AD_TYPE_COMPLETE_UUID16,
    AD_TYPE_COMPLETE_UUID32, AD_TYPE_FLAGS, AD_TYPE_INCOMPLETE_UUID128, AD_TYPE_INCOMPLETE_UUID16,
    AD_TYPE_INCOMPLETE_UUID32, AD_TYPE_LE_BLUETOOTH_DEVICE_ADDRESS, AD_TYPE_LE_ROLE,
    AD_TYPE_MANUFACTURER_SPECIFIC_DATA, AD_TYPE_SHORTENED_LOCAL_NAME, AD_TYPE_SIZE,
    AD_TYPE_TX_POWER_LEVEL, AD_TYPE_URI,
};
use embedded_ble::link_layer::PDU_SIZE_MAX;
use embedded_ble::radio::BleError;

const ADV_PDU_SIZE_MAX: usize = PDU_SIZE_MAX;

#[test]
fn incomplete_list_service_uuid_16() {
    let service_uuids: [u16; 1] = [0xA55A];
    let ad_fields = AdFields { incomplete_list_service_uuid_16: Some(&service_uuids), ..AdFields::default() };
    let mut buffer: [u8; ADV_PDU_SIZE_MAX] = [0; ADV_PDU_SIZE_MAX];
    let n = ad_fields.write(&mut buffer);
    let adv_data = &buffer[..n];
    assert_eq!((AD_LENGTH_SIZE + AD_TYPE_SIZE + (2 * service_uuids.len())), adv_data.len());
    assert_eq!((adv_data.len() - 1), adv_data[0] as usize);
    assert_eq!(AD_TYPE_INCOMPLETE_UUID16, adv_data[AD_LENGTH_SIZE]);
    assert_eq!(service_uuids[0].to_le_bytes(), adv_data[AD_LENGTH_SIZE + AD_TYPE_SIZE..]);
}

#[test]
fn complete_list_service_uuid_16() {
    let service_uuids: [u16; 1] = [0xA55A];
    let ad_fields = AdFields { complete_list_service_uuid_16: Some(&service_uuids), ..AdFields::default() };
    let mut buffer: [u8; ADV_PDU_SIZE_MAX] = [0; ADV_PDU_SIZE_MAX];
    let n = ad_fields.write(&mut buffer);
    let adv_data = &buffer[..n];
    assert_eq!((AD_LENGTH_SIZE + AD_TYPE_SIZE + (2 * service_uuids.len())), adv_data.len());
    assert_eq!((adv_data.len() - 1), adv_data[0] as usize);
    assert_eq!(AD_TYPE_COMPLETE_UUID16, adv_data[AD_LENGTH_SIZE]);
    assert_eq!(service_uuids[0].to_le_bytes(), adv_data[AD_LENGTH_SIZE + AD_TYPE_SIZE..]);
}

#[test]
fn incomplete_list_service_uuid_32() {
    let service_uuids: [u32; 1] = [0xA55A5AA5];
    let ad_fields = AdFields { incomplete_list_service_uuid_32: Some(&service_uuids), ..AdFields::default() };
    let mut buffer: [u8; ADV_PDU_SIZE_MAX] = [0; ADV_PDU_SIZE_MAX];
    let n = ad_fields.write(&mut buffer);
    let adv_data = &buffer[..n];
    assert_eq!((AD_LENGTH_SIZE + AD_TYPE_SIZE + (4 * service_uuids.len())), adv_data.len());
    assert_eq!((adv_data.len() - 1), adv_data[0] as usize);
    assert_eq!(AD_TYPE_INCOMPLETE_UUID32, adv_data[AD_LENGTH_SIZE]);
    assert_eq!(service_uuids[0].to_le_bytes(), adv_data[AD_LENGTH_SIZE + AD_TYPE_SIZE..]);
}

#[test]
fn complete_list_service_uuid_32() {
    let service_uuids: [u32; 1] = [0xA55A5AA5];
    let ad_fields = AdFields { complete_list_service_uuid_32: Some(&service_uuids), ..AdFields::default() };
    let mut buffer: [u8; ADV_PDU_SIZE_MAX] = [0; ADV_PDU_SIZE_MAX];
    let n = ad_fields.write(&mut buffer);
    let adv_data = &buffer[..n];
    assert_eq!((AD_LENGTH_SIZE + AD_TYPE_SIZE + (4 * service_uuids.len())), adv_data.len());
    assert_eq!((adv_data.len() - 1), adv_data[0] as usize);
    assert_eq!(AD_TYPE_COMPLETE_UUID32, adv_data[AD_LENGTH_SIZE]);
    assert_eq!(service_uuids[0].to_le_bytes(), adv_data[AD_LENGTH_SIZE + AD_TYPE_SIZE..]);
}

#[test]
fn incomplete_list_service_uuid_128() {
    let service_uuids: [u128; 1] = [0xA55A5AA5A55A5AA5];
    let ad_fields = AdFields { incomplete_list_service_uuid_128: Some(&service_uuids), ..AdFields::default() };
    let mut buffer: [u8; ADV_PDU_SIZE_MAX] = [0; ADV_PDU_SIZE_MAX];
    let n = ad_fields.write(&mut buffer);
    let adv_data = &buffer[..n];
    assert_eq!((AD_LENGTH_SIZE + AD_TYPE_SIZE + (16 * service_uuids.len())), adv_data.len());
    assert_eq!((adv_data.len() - 1), adv_data[0] as usize);
    assert_eq!(AD_TYPE_INCOMPLETE_UUID128, adv_data[AD_LENGTH_SIZE]);
    assert_eq!(service_uuids[0].to_le_bytes(), adv_data[AD_LENGTH_SIZE + AD_TYPE_SIZE..]);
}

#[test]
fn complete_list_service_uuid_128() {
    let service_uuids: [u128; 1] = [0xA55A5AA5A55A5AA5];
    let ad_fields = AdFields { complete_list_service_uuid_128: Some(&service_uuids), ..AdFields::default() };
    let mut buffer: [u8; ADV_PDU_SIZE_MAX] = [0; ADV_PDU_SIZE_MAX];
    let n = ad_fields.write(&mut buffer);
    let adv_data = &buffer[..n];
    assert_eq!((AD_LENGTH_SIZE + AD_TYPE_SIZE + (16 * service_uuids.len())), adv_data.len());
    assert_eq!((adv_data.len() - 1), adv_data[0] as usize);
    assert_eq!(AD_TYPE_COMPLETE_UUID128, adv_data[AD_LENGTH_SIZE]);
    assert_eq!(service_uuids[0].to_le_bytes(), adv_data[AD_LENGTH_SIZE + AD_TYPE_SIZE..]);
}

#[test]
fn local_complete_name() {
    let name = "LOCAL NAME";
    let ad_fields = AdFields { local_name: Some(name), ..AdFields::default() };
    let mut buffer: [u8; ADV_PDU_SIZE_MAX] = [0; ADV_PDU_SIZE_MAX];
    let n = ad_fields.write(&mut buffer);
    let adv_data = &buffer[..n];
    assert_eq!((AD_LENGTH_SIZE + AD_TYPE_SIZE + name.len()), adv_data.len());
    assert_eq!((adv_data.len() - 1), adv_data[0] as usize);
    assert_eq!(AD_TYPE_COMPLETE_LOCAL_NAME, adv_data[AD_LENGTH_SIZE]);
    assert_eq!(*name.as_bytes(), adv_data[AD_LENGTH_SIZE + AD_TYPE_SIZE..]);
}

#[test]
fn local_short_name() {
    let name = "LOCAL NAME";
    let ad_fields = AdFields { short_name: Some(name), ..AdFields::default() };
    let mut buffer: [u8; ADV_PDU_SIZE_MAX] = [0; ADV_PDU_SIZE_MAX];
    let n = ad_fields.write(&mut buffer);
    let adv_data = &buffer[..n];
    assert_eq!((AD_LENGTH_SIZE + AD_TYPE_SIZE + name.len()), adv_data.len());
    assert_eq!((adv_data.len() - 1), adv_data[0] as usize);
    assert_eq!(AD_TYPE_SHORTENED_LOCAL_NAME, adv_data[AD_LENGTH_SIZE]);
    assert_eq!(*name.as_bytes(), adv_data[AD_LENGTH_SIZE + AD_TYPE_SIZE..]);
}

#[test]
fn flags() {
    let flags = 0xa5;
    let ad_fields = AdFields { flags: Some(flags), ..AdFields::default() };
    let mut buffer: [u8; ADV_PDU_SIZE_MAX] = [0; ADV_PDU_SIZE_MAX];
    let n = ad_fields.write(&mut buffer);
    let adv_data = &buffer[..n];
    assert_eq!((AD_LENGTH_SIZE + AD_TYPE_SIZE + 1), adv_data.len());
    assert_eq!((adv_data.len() - 1), adv_data[0] as usize);
    assert_eq!(AD_TYPE_FLAGS, adv_data[AD_LENGTH_SIZE]);
    assert_eq!(flags as u8, adv_data[AD_LENGTH_SIZE + AD_TYPE_SIZE]);
}

#[test]
fn manufacturer_specific_data() {
    let data: [u8; 2] = [0; 2];
    let ad_fields = AdFields { manufacturer_specific_data: Some(&data), ..AdFields::default() };
    let mut buffer: [u8; ADV_PDU_SIZE_MAX] = [0; ADV_PDU_SIZE_MAX];
    let n = ad_fields.write(&mut buffer);
    let adv_data = &buffer[..n];
    assert_eq!((AD_LENGTH_SIZE + AD_TYPE_SIZE + 2), adv_data.len());
    assert_eq!((adv_data.len() - 1), adv_data[0] as usize);
    assert_eq!(AD_TYPE_MANUFACTURER_SPECIFIC_DATA, adv_data[AD_LENGTH_SIZE]);
    assert_eq!(data, adv_data[AD_LENGTH_SIZE + AD_TYPE_SIZE..]);
}

#[test]
fn tx_power_level() {
    let tx_power_level = 0;
    let ad_fields = AdFields { tx_power_level: Some(tx_power_level), ..AdFields::default() };
    let mut buffer: [u8; ADV_PDU_SIZE_MAX] = [0; ADV_PDU_SIZE_MAX];
    let n = ad_fields.write(&mut buffer);
    let adv_data = &buffer[..n];
    assert_eq!((AD_LENGTH_SIZE + AD_TYPE_SIZE + 1), adv_data.len());
    assert_eq!((adv_data.len() - 1), adv_data[0] as usize);
    assert_eq!(AD_TYPE_TX_POWER_LEVEL, adv_data[AD_LENGTH_SIZE]);
    assert_eq!(tx_power_level, adv_data[AD_LENGTH_SIZE + AD_TYPE_SIZE] as i8);
}

#[test]
fn appearance() {
    let appearance: u16 = 0xA5;
    let ad_fields = AdFields { appearance: Some(appearance), ..AdFields::default() };
    let mut buffer: [u8; ADV_PDU_SIZE_MAX] = [0; ADV_PDU_SIZE_MAX];
    let n = ad_fields.write(&mut buffer);
    let adv_data = &buffer[..n];
    assert_eq!((AD_LENGTH_SIZE + AD_TYPE_SIZE + 2), adv_data.len());
    assert_eq!((adv_data.len() - 1), adv_data[0] as usize);
    assert_eq!(AD_TYPE_APPEARANCE, adv_data[AD_LENGTH_SIZE]);
    assert_eq!(appearance.to_le_bytes(), adv_data[AD_LENGTH_SIZE + AD_TYPE_SIZE..]);
}

#[test]
fn le_bluetooth_device_address() {
    let le_bluetooth_device_address: LeBluetoothDeviceAddress = [0; 7];
    let ad_fields = AdFields {
        le_bluetooth_device_address: Some(&le_bluetooth_device_address),
        ..AdFields::default()
    };
    let mut buffer: [u8; ADV_PDU_SIZE_MAX] = [0; ADV_PDU_SIZE_MAX];
    let n = ad_fields.write(&mut buffer);
    let adv_data = &buffer[..n];
    assert_eq!((AD_LENGTH_SIZE + AD_TYPE_SIZE + le_bluetooth_device_address.len()), adv_data.len());
    assert_eq!((adv_data.len() - 1), adv_data[0] as usize);
    assert_eq!(AD_TYPE_LE_BLUETOOTH_DEVICE_ADDRESS, adv_data[AD_LENGTH_SIZE]);
    assert_eq!(le_bluetooth_device_address, adv_data[AD_LENGTH_SIZE + AD_TYPE_SIZE..]);
}

#[test]
fn le_role() {
    let le_role = LeRole::OnlyCentralRole;
    let ad_fields = AdFields { le_role: Some(le_role), ..AdFields::default() };
    let mut buffer: [u8; ADV_PDU_SIZE_MAX] = [0; ADV_PDU_SIZE_MAX];
    let n = ad_fields.write(&mut buffer);
    let adv_data = &buffer[..n];
    assert_eq!((AD_LENGTH_SIZE + AD_TYPE_SIZE + 1), adv_data.len());
    assert_eq!((adv_data.len() - 1), adv_data[0] as usize);
    assert_eq!(AD_TYPE_LE_ROLE, adv_data[AD_LENGTH_SIZE]);
    assert_eq!(le_role.code(), adv_data[AD_LENGTH_SIZE + AD_TYPE_SIZE]);
}

#[test]
fn uri() {
    let uri = "URI";
    let ad_fields = AdFields { uri: Some(uri), ..AdFields::default() };
    let mut buffer: [u8; ADV_PDU_SIZE_MAX] = [0; ADV_PDU_SIZE_MAX];
    let n = ad_fields.write(&mut buffer);
    let adv_data = &buffer[..n];
    assert_eq!((AD_LENGTH_SIZE + AD_TYPE_SIZE + uri.len()), adv_data.len());
    assert_eq!((adv_data.len() - 1), adv_data[0] as usize);
    assert_eq!(AD_TYPE_URI, adv_data[AD_LENGTH_SIZE]);
    assert_eq!(*uri.as_bytes(), adv_data[AD_LENGTH_SIZE + AD_TYPE_SIZE..]);
}

#[test]
fn multiple_fields() {
    let name = "concat";
    let ad_fields = AdFields { local_name: Some(name), uri: Some(name), ..AdFields::default() };
    let mut buffer: [u8; ADV_PDU_SIZE_MAX] = [0; ADV_PDU_SIZE_MAX];
    let n = ad_fields.write(&mut buffer);
    let adv_data = &buffer[..n];
    assert_eq!(2 * (AD_LENGTH_SIZE + AD_TYPE_SIZE + name.len()), adv_data.len());
}

#[test]
fn local_name_exact_bytes() {
    let ad_fields = AdFields { local_name: Some("LOCAL NAME"), ..AdFields::default() };
    let mut buffer = [0u8; 31];
    let n = ad_fields.write(&mut buffer);
    assert_eq!(
        &buffer[..n],
        &[0x0B, 0x09, b'L', b'O', b'C', b'A', b'L', b' ', b'N', b'A', b'M', b'E']
    );
}

#[test]
fn first_structure_header_with_several_fields() {
    let uuids: [u16; 2] = [0x180D, 0x180F];
    let ad_fields = AdFields {
        complete_list_service_uuid_16: Some(&uuids),
        flags: Some(0x06),
        ..AdFields::default()
    };
    let mut buffer = [0u8; 31];
    let n = ad_fields.write(&mut buffer);
    assert_eq!(&buffer[..n], &[5, AD_TYPE_COMPLETE_UUID16, 0x0D, 0x18, 0x0F, 0x18, 2, AD_TYPE_FLAGS, 0x06]);
}

#[test]
fn same_fields_encode_to_same_bytes() {
    let uuids: [u32; 1] = [0x01020304];
    let ad_fields = AdFields {
        incomplete_list_service_uuid_32: Some(&uuids),
        short_name: Some("abc"),
        tx_power_level: Some(-4),
        ..AdFields::default()
    };
    let mut first = [0u8; 31];
    let mut second = [0xFFu8; 31];
    let n1 = ad_fields.write(&mut first);
    let n2 = ad_fields.write(&mut second);
    assert_eq!(n1, n2);
    assert_eq!(first[..n1], second[..n2]);
    assert_eq!(second[n2..], [0xFFu8; 31][n2..]);
}

#[test]
fn oversized_local_name_is_dropped() {
    let uuids: [u16; 1] = [0xFEAA];
    let name = "A VERY LONG DEVICE NAME THAT DOES NOT FIT";
    let ad_fields = AdFields {
        incomplete_list_service_uuid_16: Some(&uuids),
        local_name: Some(name),
        flags: Some(0x04),
        ..AdFields::default()
    };
    let mut buffer = [0u8; 31];
    let n = ad_fields.write(&mut buffer);
    assert_eq!(&buffer[..n], &[3, AD_TYPE_INCOMPLETE_UUID16, 0xAA, 0xFE, 2, AD_TYPE_FLAGS, 0x04]);
}

#[test]
fn field_that_cannot_be_framed_is_skipped() {
    let data = [0x11u8; 260];
    let ad_fields = AdFields { manufacturer_specific_data: Some(&data), appearance: Some(0x0341), ..AdFields::default() };
    let mut buffer = [0u8; 300];
    let n = ad_fields.write(&mut buffer);
    assert_eq!(&buffer[..n], &[3, AD_TYPE_APPEARANCE, 0x41, 0x03]);
}

#[test]
fn empty_fields_write_nothing() {
    let ad_fields = AdFields::default();
    let mut buffer = [7u8; 10];
    assert_eq!(ad_fields.write(&mut buffer), 0);
    assert_eq!(buffer, [7u8; 10]);
}

#[test]
fn zero_sized_buffer_holds_nothing() {
    let ad_fields = AdFields { flags: Some(1), ..AdFields::default() };
    let mut buffer: [u8; 0] = [];
    assert_eq!(ad_fields.write(&mut buffer), 0);
}

#[test]
fn uuid128_little_endian() {
    let uuids: [u128; 1] = [0x000102030405060708090A0B0C0D0E0F];
    let ad_fields = AdFields { complete_list_service_uuid_128: Some(&uuids), ..AdFields::default() };
    let mut buffer = [0u8; 31];
    let n = ad_fields.write(&mut buffer);
    assert_eq!(n, 18);
    assert_eq!(buffer[2], 0x0F);
    assert_eq!(buffer[17], 0x00);
}

#[test]
fn manufacturer_data_validity() {
    let short = [0x59u8];
    let ok = [0x59u8, 0x00, 0x01];
    assert!(!AdFields { manufacturer_specific_data: Some(&short), ..AdFields::default() }.is_valid());
    assert!(AdFields { manufacturer_specific_data: Some(&ok), ..AdFields::default() }.is_valid());
}

#[test]
fn check_fit_reports_truncation() {
    let name = "A VERY LONG DEVICE NAME THAT DOES NOT FIT";
    let dropped = AdFields { local_name: Some(name), flags: Some(0x06), ..AdFields::default() };
    assert_eq!(dropped.check_fit(31), Err(BleError::EncodingTruncated));
    assert_eq!(dropped.check_fit(64), Ok(()));
    let small = AdFields { flags: Some(0x06), tx_power_level: Some(0), ..AdFields::default() };
    assert_eq!(small.check_fit(6), Ok(()));
    assert_eq!(small.check_fit(5), Err(BleError::EncodingTruncated));
    assert_eq!(AdFields::default().check_fit(0), Ok(()));
}
