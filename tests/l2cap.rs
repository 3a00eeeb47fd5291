use embedded_ble::l2cap::{Builder, Channel, CID_ATT, CID_CONNECTIONLESS, CID_LE_SIGNALING, CID_SIGNALING};

#[test]
fn test_build_connection_oriented() {
    let mut buffer: [u8; 1024] = [0; 1024];
    // test without payload
    {
        let channel = Channel::new(CID_ATT);
        assert!(channel.is_connection_oriented());
        match Builder::new(channel, &mut buffer).build() {
            Ok(length) => {
                const HEADER_LENGTH: usize = 4;
                assert_eq!(HEADER_LENGTH, length);
                let header: [u8; HEADER_LENGTH] = [0, 0, 4, 0];
                assert_eq!(header, buffer[..HEADER_LENGTH]);
            }
            Err(_) => assert!(false),
        };
    }
    // test with payload
    {
        let channel = Channel::new(CID_ATT);
        let payload: [u8; 100] = [0xa5; 100];
        match Builder::new(channel, &mut buffer).payload(&mut buffer, &payload).build() {
            Ok(length) => {
                const HEADER_LENGTH: usize = 4;
                assert_eq!(HEADER_LENGTH + payload.len(), length);
                let header: [u8; HEADER_LENGTH] = [100, 0, 4, 0];
                assert_eq!(header, buffer[..HEADER_LENGTH]);
                assert_eq!(payload[HEADER_LENGTH..payload.len()], buffer[HEADER_LENGTH..payload.len()]);
            }
            Err(_) => assert!(false),
        };
    }
}

#[test]
fn channel_classes() {
    assert!(Channel::new(0x0020).is_assigned());
    assert!(Channel::new(0x003E).is_assigned());
    assert!(!Channel::new(0x003F).is_assigned());
    assert!(Channel::new(0x0040).is_dynamic());
    assert!(Channel::new(0x007F).is_dynamic());
    assert!(!Channel::new(0x0080).is_dynamic());
    assert!(Channel::new(CID_CONNECTIONLESS).is_connectionless());
    assert!(!Channel::new(CID_CONNECTIONLESS).is_connection_oriented());
    assert!(Channel::new(CID_SIGNALING).is_signaling());
    assert!(Channel::new(CID_LE_SIGNALING).is_signaling());
    assert!(!Channel::new(CID_ATT).is_signaling());
}
