//! What the core decides around the radio peripheral: whether a transmission
//! may start, the register values for a channel and access address, the
//! transmit-power step for a power in dBm, and the device address read from
//! the factory information words. Register access itself is left to the
//! driver that owns the peripheral.
use vstd::prelude::*;

use crate::link_layer::{frequency_offset, AccessAddress, AdvA, Channel, CrcInit, PDU_SIZE_MAX};

verus! {

/// Errors of the BLE core.
#[derive(Copy, Clone, PartialEq, Eq, Structural, Debug)]
pub enum BleError {
    /// A present advertising field was left out for want of space.
    EncodingTruncated,
    /// The field set is invalid (manufacturer data without a company identifier).
    InvalidConfiguration,
    /// The radio is not disabled, so it cannot be configured or started.
    DriverBusy,
    /// A received PDU carries a reserved type code.
    UnknownPduType,
}

/// Radio data rate.
#[derive(Copy, Clone, PartialEq, Eq, Structural, Debug)]
pub enum RadioMode {
    Ble1Mbit,
    Ble2Mbit,
}

impl RadioMode {
    /// Length of the preamble in bits: 8 at 1 Mbit/s, 16 at 2 Mbit/s.
    pub fn preamble_bits(&self) -> (r: u8)
        ensures
            r == (if *self == RadioMode::Ble1Mbit { 8u8 } else { 16u8 }),
    {
        match self {
            RadioMode::Ble1Mbit => 8,
            RadioMode::Ble2Mbit => 16,
        }
    }
}

/// The transmit-power steps of the radio.
#[derive(Copy, Clone, PartialEq, Eq, Structural, Debug)]
pub enum TxPowerLevel {
    Neg40dBm,
    Neg20dBm,
    Neg16dBm,
    Neg12dBm,
    Neg8dBm,
    Neg4dBm,
    Pos3dBm,
    Pos4dBm,
}

/// The step used for a requested power in dBm.
pub open spec fn tx_power_step(db: i8) -> TxPowerLevel {
    if db <= -19 {
        TxPowerLevel::Neg40dBm
    } else if db <= -15 {
        TxPowerLevel::Neg20dBm
    } else if db <= -11 {
        TxPowerLevel::Neg16dBm
    } else if db <= -7 {
        TxPowerLevel::Neg12dBm
    } else if db <= -3 {
        TxPowerLevel::Neg8dBm
    } else if db <= 2 {
        TxPowerLevel::Neg4dBm
    } else if db == 3 {
        TxPowerLevel::Pos3dBm
    } else {
        TxPowerLevel::Pos4dBm
    }
}

impl TxPowerLevel {
    /// The step used for a requested transmit power in dBm.
    pub fn from_dbm(db: i8) -> (r: TxPowerLevel)
        ensures
            r == tx_power_step(db),
    {
        if db <= -19 {
            TxPowerLevel::Neg40dBm
        } else if db <= -15 {
            TxPowerLevel::Neg20dBm
        } else if db <= -11 {
            TxPowerLevel::Neg16dBm
        } else if db <= -7 {
            TxPowerLevel::Neg12dBm
        } else if db <= -3 {
            TxPowerLevel::Neg8dBm
        } else if db <= 2 {
            TxPowerLevel::Neg4dBm
        } else if db == 3 {
            TxPowerLevel::Pos3dBm
        } else {
            TxPowerLevel::Pos4dBm
        }
    }
}

/// Register values that tune the radio to a channel and access address.
#[derive(Copy, Clone, PartialEq, Eq, Structural, Debug)]
pub struct RadioConfig {
    /// frequency, in MHz above 2400 MHz
    pub frequency: u8,
    /// data whitening initial value: the channel number
    pub whitening_iv: u8,
    /// top byte of the access address
    pub address_prefix: u8,
    /// low three bytes of the access address, in the top three bytes of the word
    pub address_base: u32,
    pub crc_init: u32,
}

impl RadioConfig {
    pub open spec fn spec_new(channel: Channel, access_address: AccessAddress, crc_init: CrcInit) -> RadioConfig {
        RadioConfig {
            frequency: frequency_offset(channel.spec_index()) as u8,
            whitening_iv: channel.spec_index() as u8,
            address_prefix: (access_address >> 24u32) as u8,
            address_base: access_address << 8u32,
            crc_init,
        }
    }

    /// The settings for sending on `channel` with this access address and CRC seed.
    pub fn new(channel: Channel, access_address: AccessAddress, crc_init: CrcInit) -> (r: RadioConfig)
        ensures
            r == RadioConfig::spec_new(channel, access_address, crc_init),
    {
        RadioConfig {
            frequency: channel.frequency(),
            whitening_iv: channel.index(),
            address_prefix: (access_address >> 24u32) as u8,
            address_base: access_address << 8u32,
            crc_init,
        }
    }
}

/// Decides whether the radio may be set up now for a PDU of `pdu_len` bytes
/// on `channel`: only while it is disabled. Gives the settings to program
/// before starting it.
pub fn configure(
    radio_disabled: bool,
    channel: Channel,
    access_address: AccessAddress,
    crc_init: CrcInit,
    pdu_len: usize,
) -> (r: Result<RadioConfig, BleError>)
    requires
        pdu_len < PDU_SIZE_MAX,
    ensures
        radio_disabled ==> r == Ok::<RadioConfig, BleError>(
            RadioConfig::spec_new(channel, access_address, crc_init),
        ),
        !radio_disabled ==> r == Err::<RadioConfig, BleError>(BleError::DriverBusy),
{
    if !radio_disabled {
        return Err(BleError::DriverBusy);
    }
    Ok(RadioConfig::new(channel, access_address, crc_init))
}

/// The device address stored in the two factory information words: the low
/// 16 bits of `word1` then `word0`, each most significant byte first; a
/// random address when the factory marks it so.
pub open spec fn spec_device_address(word0: u32, word1: u32, random: bool) -> Seq<u8> {
    seq![
        (word1 >> 8u32) as u8,
        word1 as u8,
        (word0 >> 24u32) as u8,
        (word0 >> 16u32) as u8,
        (word0 >> 8u32) as u8,
        word0 as u8,
    ]
}

/// The device's own address, from its factory information words.
pub fn device_address(word0: u32, word1: u32, random: bool) -> (r: AdvA)
    ensures
        r.spec_bytes() == spec_device_address(word0, word1, random),
        r.spec_is_random() == random,
{
    let address: [u8; 6] = [
        (word1 >> 8u32) as u8,
        word1 as u8,
        (word0 >> 24u32) as u8,
        (word0 >> 16u32) as u8,
        (word0 >> 8u32) as u8,
        word0 as u8,
    ];
    assert(address@ =~= spec_device_address(word0, word1, random));
    if random {
        AdvA::RandomStatic(address)
    } else {
        AdvA::Public(address)
    }
}

/// A controller link that sends raw bytes, for the host to implement.
pub trait BleController {
    fn send(&self, data: &[u8]) -> Result<usize, &'static str>;
}

/// A radio stand-in that accepts every PDU; for running the core without hardware.
pub struct FakeHci {
    pub adv_a: AdvA,
}

impl FakeHci {
    /// Accepts the PDU.
    pub fn send(&self, channel: Channel, access_address: AccessAddress, crc_init: CrcInit, pdu: &[u8]) -> (r: bool)
        ensures
            r,
    {
        true
    }
}

} // verus!
