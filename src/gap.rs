//! Generic Access Profile advertising data: the optional fields a peripheral
//! advertises and their encoding as a sequence of AD structures
//! (`[length][type][value]`) within a byte budget.
use vstd::prelude::*;
use vstd::string::StringSliceAdditionalSpecFns;

use crate::radio::BleError;

verus! {

/// Size of the length byte that opens each AD structure.
pub const AD_LENGTH_SIZE: usize = 1;

/// Size of the type byte of an AD structure.
pub const AD_TYPE_SIZE: usize = 1;

/// The largest value an AD structure can carry: its length byte counts the
/// type byte and the value and must fit in one byte.
pub const AD_VALUE_SIZE_MAX: usize = 254;

// Assigned numbers of the AD types this encoder emits.
pub const AD_TYPE_FLAGS: u8 = 0x01;
pub const AD_TYPE_INCOMPLETE_UUID16: u8 = 0x02;
pub const AD_TYPE_COMPLETE_UUID16: u8 = 0x03;
pub const AD_TYPE_INCOMPLETE_UUID32: u8 = 0x04;
pub const AD_TYPE_COMPLETE_UUID32: u8 = 0x05;
pub const AD_TYPE_INCOMPLETE_UUID128: u8 = 0x06;
pub const AD_TYPE_COMPLETE_UUID128: u8 = 0x07;
pub const AD_TYPE_SHORTENED_LOCAL_NAME: u8 = 0x08;
pub const AD_TYPE_COMPLETE_LOCAL_NAME: u8 = 0x09;
pub const AD_TYPE_TX_POWER_LEVEL: u8 = 0x0A;
pub const AD_TYPE_APPEARANCE: u8 = 0x19;
pub const AD_TYPE_LE_BLUETOOTH_DEVICE_ADDRESS: u8 = 0x1B;
pub const AD_TYPE_LE_ROLE: u8 = 0x1C;
pub const AD_TYPE_URI: u8 = 0x24;
pub const AD_TYPE_MANUFACTURER_SPECIFIC_DATA: u8 = 0xFF;

// Bits of the flags field.
pub const FLAGS_LE_LIMITED_DISCOVERABLE: u8 = 1;
pub const FLAGS_LE_GENERAL_DISCOVERABLE: u8 = 2;
pub const FLAGS_BR_EDR_NOT_SUPPORTED: u8 = 4;
pub const FLAGS_SIMULTANEOUS_LE_AND_BR_EDR: u8 = 8;

/// An LE Bluetooth device address field: six address bytes and a type byte.
pub type LeBluetoothDeviceAddress = [u8; 7];

/// The roles a device supports, and which it prefers.
#[derive(Copy, Clone, PartialEq, Eq, Structural, Debug)]
pub enum LeRole {
    OnlyPeripheralRole,
    OnlyCentralRole,
    /// peripheral role preferred
    PeripheralAndCentralRolePeripheral,
    /// central role preferred
    PeripheralAndCentralRoleCentral,
}

impl LeRole {
    pub open spec fn spec_code(self) -> u8 {
        match self {
            LeRole::OnlyPeripheralRole => 0x00,
            LeRole::OnlyCentralRole => 0x01,
            LeRole::PeripheralAndCentralRolePeripheral => 0x02,
            LeRole::PeripheralAndCentralRoleCentral => 0x03,
        }
    }

    /// The byte that encodes this role in an LE role field.
    pub fn code(&self) -> (r: u8)
        ensures
            r == self.spec_code(),
    {
        match self {
            LeRole::OnlyPeripheralRole => 0x00,
            LeRole::OnlyCentralRole => 0x01,
            LeRole::PeripheralAndCentralRolePeripheral => 0x02,
            LeRole::PeripheralAndCentralRoleCentral => 0x03,
        }
    }
}

/// Little-endian bytes of a 16-bit value.
pub open spec fn le_u16(x: u16) -> Seq<u8> {
    seq![x as u8, (x >> 8u16) as u8]
}

/// Little-endian bytes of a 32-bit value.
pub open spec fn le_u32(x: u32) -> Seq<u8> {
    seq![x as u8, (x >> 8u32) as u8, (x >> 16u32) as u8, (x >> 24u32) as u8]
}

/// Little-endian bytes of a 128-bit value.
pub open spec fn le_u128(x: u128) -> Seq<u8> {
    Seq::new(16, |i: int| (x >> (8 * i) as u128) as u8)
}

/// A list of 16-bit UUIDs, each little-endian, in list order.
pub open spec fn uuid16_list_bytes(s: Seq<u16>) -> Seq<u8>
    decreases s.len(),
{
    if s.len() == 0 {
        seq![]
    } else {
        uuid16_list_bytes(s.drop_last()) + le_u16(s.last())
    }
}

/// A list of 32-bit UUIDs, each little-endian, in list order.
pub open spec fn uuid32_list_bytes(s: Seq<u32>) -> Seq<u8>
    decreases s.len(),
{
    if s.len() == 0 {
        seq![]
    } else {
        uuid32_list_bytes(s.drop_last()) + le_u32(s.last())
    }
}

/// A list of 128-bit UUIDs, each little-endian, in list order.
pub open spec fn uuid128_list_bytes(s: Seq<u128>) -> Seq<u8>
    decreases s.len(),
{
    if s.len() == 0 {
        seq![]
    } else {
        uuid128_list_bytes(s.drop_last()) + le_u128(s.last())
    }
}

/// One AD structure: the length byte (type byte plus value), the type, the value.
pub open spec fn ad_structure(ad_type: u8, value: Seq<u8>) -> Seq<u8> {
    seq![(value.len() + 1) as u8, ad_type] + value
}

/// Whether an AD structure with a value of `value_len` bytes can follow
/// `used` bytes in a buffer of `capacity` bytes.
pub open spec fn fits(used: nat, value_len: nat, capacity: nat) -> bool {
    &&& value_len <= AD_VALUE_SIZE_MAX
    &&& used + AD_LENGTH_SIZE + AD_TYPE_SIZE + value_len <= capacity
}

/// Encodes present fields (type and value) in order; each one that does not
/// fit in what is left of `capacity` is left out and the next ones are tried.
pub open spec fn encode_fields(fields: Seq<Option<(u8, Seq<u8>)>>, capacity: nat) -> Seq<u8>
    decreases fields.len(),
{
    if fields.len() == 0 {
        seq![]
    } else {
        let prev = encode_fields(fields.drop_last(), capacity);
        match fields.last() {
            Some((t, v)) => if fits(prev.len(), v.len(), capacity) {
                prev + ad_structure(t, v)
            } else {
                prev
            },
            None => prev,
        }
    }
}

/// Whether encoding leaves out some present field for want of space.
pub open spec fn encoding_drops(fields: Seq<Option<(u8, Seq<u8>)>>, capacity: nat) -> bool
    decreases fields.len(),
{
    if fields.len() == 0 {
        false
    } else {
        let prev = encode_fields(fields.drop_last(), capacity);
        encoding_drops(fields.drop_last(), capacity) || match fields.last() {
            Some((t, v)) => !fits(prev.len(), v.len(), capacity),
            None => false,
        }
    }
}

/// Copies a byte slice into a new vector.
fn copy_bytes(s: &[u8]) -> (r: Vec<u8>)
    ensures
        r@ == s@,
{
    let mut r: Vec<u8> = Vec::new();
    let mut i: usize = 0;
    while i < s.len()
        invariant
            i <= s@.len(),
            r@ == s@.subrange(0, i as int),
        decreases s@.len() - i,
    {
        r.push(s[i]);
        i += 1;
    }
    assert(s@.subrange(0, s@.len() as int) =~= s@);
    r
}

/// The bytes of a list of 16-bit UUIDs.
fn uuid16_list_to_bytes(uuids: &[u16]) -> (r: Vec<u8>)
    ensures
        r@ == uuid16_list_bytes(uuids@),
{
    let mut r: Vec<u8> = Vec::new();
    let mut i: usize = 0;
    while i < uuids.len()
        invariant
            i <= uuids@.len(),
            r@ == uuid16_list_bytes(uuids@.subrange(0, i as int)),
        decreases uuids@.len() - i,
    {
        let u = uuids[i];
        r.push(u as u8);
        r.push((u >> 8u16) as u8);
        assert(uuids@.subrange(0, i + 1).drop_last() =~= uuids@.subrange(0, i as int));
        i += 1;
    }
    assert(uuids@.subrange(0, uuids@.len() as int) =~= uuids@);
    r
}

/// The bytes of a list of 32-bit UUIDs.
fn uuid32_list_to_bytes(uuids: &[u32]) -> (r: Vec<u8>)
    ensures
        r@ == uuid32_list_bytes(uuids@),
{
    let mut r: Vec<u8> = Vec::new();
    let mut i: usize = 0;
    while i < uuids.len()
        invariant
            i <= uuids@.len(),
            r@ == uuid32_list_bytes(uuids@.subrange(0, i as int)),
        decreases uuids@.len() - i,
    {
        let u = uuids[i];
        r.push(u as u8);
        r.push((u >> 8u32) as u8);
        r.push((u >> 16u32) as u8);
        r.push((u >> 24u32) as u8);
        assert(uuids@.subrange(0, i + 1).drop_last() =~= uuids@.subrange(0, i as int));
        i += 1;
    }
    assert(uuids@.subrange(0, uuids@.len() as int) =~= uuids@);
    r
}

/// The bytes of a list of 128-bit UUIDs.
fn uuid128_list_to_bytes(uuids: &[u128]) -> (r: Vec<u8>)
    ensures
        r@ == uuid128_list_bytes(uuids@),
{
    let mut r: Vec<u8> = Vec::new();
    let mut i: usize = 0;
    while i < uuids.len()
        invariant
            i <= uuids@.len(),
            r@ == uuid128_list_bytes(uuids@.subrange(0, i as int)),
        decreases uuids@.len() - i,
    {
        let u = uuids[i];
        let ghost before = r@;
        let mut k: u32 = 0;
        while k < 16
            invariant
                k <= 16,
                r@ == before + le_u128(u).subrange(0, k as int),
            decreases 16 - k,
        {
            r.push((u >> (8 * k)) as u8);
            assert(le_u128(u).subrange(0, k + 1) =~= le_u128(u).subrange(0, k as int).push(
                (u >> (8 * k)) as u8,
            ));
            k += 1;
        }
        assert(le_u128(u).subrange(0, 16) =~= le_u128(u));
        assert(uuids@.subrange(0, i + 1).drop_last() =~= uuids@.subrange(0, i as int));
        i += 1;
    }
    assert(uuids@.subrange(0, uuids@.len() as int) =~= uuids@);
    r
}

/// Writes one AD structure at `at` when it fits before `limit`, and returns
/// the new end of the written data (`at` itself when it does not fit).
fn put_structure(buffer: &mut [u8], at: usize, limit: usize, ad_type: u8, value: &Vec<u8>) -> (r: usize)
    requires
        at <= limit <= old(buffer)@.len(),
    ensures
        final(buffer)@.len() == old(buffer)@.len(),
        fits(0, value@.len(), (limit - at) as nat) ==> {
            &&& r == at + AD_LENGTH_SIZE + AD_TYPE_SIZE + value@.len()
            &&& final(buffer)@ == old(buffer)@.subrange(0, at as int) + ad_structure(ad_type, value@)
                + old(buffer)@.subrange(r as int, old(buffer)@.len() as int)
        },
        !fits(0, value@.len(), (limit - at) as nat) ==> r == at && final(buffer)@ == old(buffer)@,
{
    let len = value.len();
    if len > AD_VALUE_SIZE_MAX || limit - at < AD_LENGTH_SIZE + AD_TYPE_SIZE + len {
        return at;
    }
    let ghost b0 = buffer@;
    buffer[at] = (AD_TYPE_SIZE + len) as u8;
    buffer[at + 1] = ad_type;
    let start = at + AD_LENGTH_SIZE + AD_TYPE_SIZE;
    let mut j: usize = 0;
    while j < len
        invariant
            j <= len == value@.len(),
            start == at + 2,
            start + len <= buffer.len(),
            buffer@.len() == b0.len(),
            buffer@ == b0.subrange(0, at as int) + seq![(len + 1) as u8, ad_type]
                + value@.subrange(0, j as int) + b0.subrange(start + j, b0.len() as int),
        decreases len - j,
    {
        buffer[start + j] = value[j];
        assert(buffer@ =~= b0.subrange(0, at as int) + seq![(len + 1) as u8, ad_type]
            + value@.subrange(0, j + 1) + b0.subrange(start + j + 1, b0.len() as int));
        j += 1;
    }
    assert(value@.subrange(0, len as int) =~= value@);
    assert(buffer@ =~= b0.subrange(0, at as int) + ad_structure(ad_type, value@)
        + b0.subrange(start + len, b0.len() as int));
    start + len
}

/// Number of fields an advertisement can hold.
pub const FIELD_COUNT: usize = 15;

/// The optional fields of an advertisement. Fields are encoded in the order
/// they are declared here, which is their priority.
pub struct AdFields<'a> {
    pub incomplete_list_service_uuid_16: Option<&'a [u16]>,
    pub complete_list_service_uuid_16: Option<&'a [u16]>,
    pub incomplete_list_service_uuid_32: Option<&'a [u32]>,
    pub complete_list_service_uuid_32: Option<&'a [u32]>,
    pub incomplete_list_service_uuid_128: Option<&'a [u128]>,
    pub complete_list_service_uuid_128: Option<&'a [u128]>,
    pub local_name: Option<&'a str>,
    pub short_name: Option<&'a str>,
    /// see the `FLAGS_*` bits
    pub flags: Option<u8>,
    /// must hold at least the 2-byte company identifier
    pub manufacturer_specific_data: Option<&'a [u8]>,
    pub tx_power_level: Option<i8>,
    pub appearance: Option<u16>,
    pub le_bluetooth_device_address: Option<&'a LeBluetoothDeviceAddress>,
    pub le_role: Option<LeRole>,
    pub uri: Option<&'a str>,
}

impl<'a> Default for AdFields<'a> {
    /// A field set with no field present.
    fn default() -> (r: Self)
        ensures
            r.is_empty(),
            r.incomplete_list_service_uuid_16 is None,
            r.complete_list_service_uuid_16 is None,
            r.incomplete_list_service_uuid_32 is None,
            r.complete_list_service_uuid_32 is None,
            r.incomplete_list_service_uuid_128 is None,
            r.complete_list_service_uuid_128 is None,
            r.local_name is None,
            r.short_name is None,
            r.flags is None,
            r.manufacturer_specific_data is None,
            r.tx_power_level is None,
            r.appearance is None,
            r.le_bluetooth_device_address is None,
            r.le_role is None,
            r.uri is None,
    {
        AdFields {
            incomplete_list_service_uuid_16: None,
            complete_list_service_uuid_16: None,
            incomplete_list_service_uuid_32: None,
            complete_list_service_uuid_32: None,
            incomplete_list_service_uuid_128: None,
            complete_list_service_uuid_128: None,
            local_name: None,
            short_name: None,
            flags: None,
            manufacturer_specific_data: None,
            tx_power_level: None,
            appearance: None,
            le_bluetooth_device_address: None,
            le_role: None,
            uri: None,
        }
    }
}

impl<'a> AdFields<'a> {
    /// No field is present.
    pub open spec fn is_empty(&self) -> bool {
        forall|k: int| 0 <= k < self.fields().len() ==> #[trigger] self.fields()[k] is None
    }

    /// A valid field set: manufacturer data, when present, holds a company identifier.
    pub open spec fn wf(&self) -> bool {
        self.manufacturer_specific_data matches Some(d) ==> d@.len() >= 2
    }

    /// The field at priority `k`, with its AD type and value bytes when present.
    pub open spec fn field_spec(&self, k: int) -> Option<(u8, Seq<u8>)> {
        if k == 0 {
            match self.incomplete_list_service_uuid_16 {
                Some(u) => Some((AD_TYPE_INCOMPLETE_UUID16, uuid16_list_bytes(u@))),
                None => None,
            }
        } else if k == 1 {
            match self.complete_list_service_uuid_16 {
                Some(u) => Some((AD_TYPE_COMPLETE_UUID16, uuid16_list_bytes(u@))),
                None => None,
            }
        } else if k == 2 {
            match self.incomplete_list_service_uuid_32 {
                Some(u) => Some((AD_TYPE_INCOMPLETE_UUID32, uuid32_list_bytes(u@))),
                None => None,
            }
        } else if k == 3 {
            match self.complete_list_service_uuid_32 {
                Some(u) => Some((AD_TYPE_COMPLETE_UUID32, uuid32_list_bytes(u@))),
                None => None,
            }
        } else if k == 4 {
            match self.incomplete_list_service_uuid_128 {
                Some(u) => Some((AD_TYPE_INCOMPLETE_UUID128, uuid128_list_bytes(u@))),
                None => None,
            }
        } else if k == 5 {
            match self.complete_list_service_uuid_128 {
                Some(u) => Some((AD_TYPE_COMPLETE_UUID128, uuid128_list_bytes(u@))),
                None => None,
            }
        } else if k == 6 {
            match self.local_name {
                Some(s) => Some((AD_TYPE_COMPLETE_LOCAL_NAME, s.spec_bytes())),
                None => None,
            }
        } else if k == 7 {
            match self.short_name {
                Some(s) => Some((AD_TYPE_SHORTENED_LOCAL_NAME, s.spec_bytes())),
                None => None,
            }
        } else if k == 8 {
            match self.flags {
                Some(f) => Some((AD_TYPE_FLAGS, seq![f])),
                None => None,
            }
        } else if k == 9 {
            match self.manufacturer_specific_data {
                Some(d) => Some((AD_TYPE_MANUFACTURER_SPECIFIC_DATA, d@)),
                None => None,
            }
        } else if k == 10 {
            match self.tx_power_level {
                Some(p) => Some((AD_TYPE_TX_POWER_LEVEL, seq![p as u8])),
                None => None,
            }
        } else if k == 11 {
            match self.appearance {
                Some(a) => Some((AD_TYPE_APPEARANCE, le_u16(a))),
                None => None,
            }
        } else if k == 12 {
            match self.le_bluetooth_device_address {
                Some(a) => Some((AD_TYPE_LE_BLUETOOTH_DEVICE_ADDRESS, a@)),
                None => None,
            }
        } else if k == 13 {
            match self.le_role {
                Some(r) => Some((AD_TYPE_LE_ROLE, seq![r.spec_code()])),
                None => None,
            }
        } else {
            match self.uri {
                Some(s) => Some((AD_TYPE_URI, s.spec_bytes())),
                None => None,
            }
        }
    }

    /// Whether the field set is valid (see `wf`).
    pub fn is_valid(&self) -> (r: bool)
        ensures
            r == self.wf(),
    {
        match self.manufacturer_specific_data {
            Some(d) => d.len() >= 2,
            None => true,
        }
    }

    /// Each field in priority order, with its AD type and value bytes when present.
    pub open spec fn fields(&self) -> Seq<Option<(u8, Seq<u8>)>> {
        Seq::new(FIELD_COUNT as nat, |k: int| self.field_spec(k))
    }

    /// The field at priority `k`, with its AD type and value bytes, when present.
    fn field(&self, k: usize) -> (r: Option<(u8, Vec<u8>)>)
        requires
            k < FIELD_COUNT,
        ensures
            match r {
                Some((t, v)) => self.field_spec(k as int) == Some((t, v@)),
                None => self.field_spec(k as int) is None,
            },
    {
        match k {
            0 => match self.incomplete_list_service_uuid_16 {
                Some(u) => Some((AD_TYPE_INCOMPLETE_UUID16, uuid16_list_to_bytes(u))),
                None => None,
            },
            1 => match self.complete_list_service_uuid_16 {
                Some(u) => Some((AD_TYPE_COMPLETE_UUID16, uuid16_list_to_bytes(u))),
                None => None,
            },
            2 => match self.incomplete_list_service_uuid_32 {
                Some(u) => Some((AD_TYPE_INCOMPLETE_UUID32, uuid32_list_to_bytes(u))),
                None => None,
            },
            3 => match self.complete_list_service_uuid_32 {
                Some(u) => Some((AD_TYPE_COMPLETE_UUID32, uuid32_list_to_bytes(u))),
                None => None,
            },
            4 => match self.incomplete_list_service_uuid_128 {
                Some(u) => Some((AD_TYPE_INCOMPLETE_UUID128, uuid128_list_to_bytes(u))),
                None => None,
            },
            5 => match self.complete_list_service_uuid_128 {
                Some(u) => Some((AD_TYPE_COMPLETE_UUID128, uuid128_list_to_bytes(u))),
                None => None,
            },
            6 => match self.local_name {
                Some(s) => Some((AD_TYPE_COMPLETE_LOCAL_NAME, s.as_bytes_vec())),
                None => None,
            },
            7 => match self.short_name {
                Some(s) => Some((AD_TYPE_SHORTENED_LOCAL_NAME, s.as_bytes_vec())),
                None => None,
            },
            8 => match self.flags {
                Some(f) => Some((AD_TYPE_FLAGS, vec![f])),
                None => None,
            },
            9 => match self.manufacturer_specific_data {
                Some(d) => Some((AD_TYPE_MANUFACTURER_SPECIFIC_DATA, copy_bytes(d))),
                None => None,
            },
            10 => match self.tx_power_level {
                Some(p) => Some((AD_TYPE_TX_POWER_LEVEL, vec![p as u8])),
                None => None,
            },
            11 => match self.appearance {
                Some(a) => Some((AD_TYPE_APPEARANCE, vec![a as u8, (a >> 8u16) as u8])),
                None => None,
            },
            12 => match self.le_bluetooth_device_address {
                Some(a) => Some((AD_TYPE_LE_BLUETOOTH_DEVICE_ADDRESS, copy_bytes(a.as_slice()))),
                None => None,
            },
            13 => match self.le_role {
                Some(r) => Some((AD_TYPE_LE_ROLE, vec![r.code()])),
                None => None,
            },
            _ => match self.uri {
                Some(s) => Some((AD_TYPE_URI, s.as_bytes_vec())),
                None => None,
            },
        }
    }

    /// Places the fields, in priority order, as AD structures at the start of
    /// `buffer`; a field that does not fit in the space left is skipped and
    /// the following fields are still tried. Returns the number of bytes written.
    pub fn write(&self, buffer: &mut [u8]) -> (r: usize)
        requires
            self.wf(),
        ensures
            final(buffer)@.len() == old(buffer)@.len(),
            r == self.encoded(old(buffer)@.len()).len(),
            final(buffer)@ == self.encoded(old(buffer)@.len()) + old(buffer)@.subrange(
                r as int,
                old(buffer)@.len() as int,
            ),
    {
        let ghost b0 = buffer@;
        let limit = buffer.len();
        let r = self.write_within(buffer, 0, limit);
        assert(b0.subrange(0, 0) + self.encoded(b0.len()) =~= self.encoded(b0.len()));
        r
    }

    /// As `write`, into the part of `buffer` from `start` up to `limit`.
    pub fn write_within(&self, buffer: &mut [u8], start: usize, limit: usize) -> (r: usize)
        requires
            self.wf(),
            start <= limit <= old(buffer)@.len(),
        ensures
            final(buffer)@.len() == old(buffer)@.len(),
            r == self.encoded((limit - start) as nat).len(),
            start + r <= limit,
            final(buffer)@ == old(buffer)@.subrange(0, start as int) + self.encoded(
                (limit - start) as nat,
            ) + old(buffer)@.subrange(start + r, old(buffer)@.len() as int),
    {
        let ghost b0 = buffer@;
        let ghost cap = (limit - start) as nat;
        let ghost all = self.fields();
        let mut size: usize = 0;
        let mut k: usize = 0;
        while k < FIELD_COUNT
            invariant
                k <= FIELD_COUNT,
                all == self.fields(),
                start <= limit <= b0.len(),
                cap == limit - start,
                size == encode_fields(all.subrange(0, k as int), cap).len(),
                start + size <= limit,
                buffer@ == b0.subrange(0, start as int) + encode_fields(all.subrange(0, k as int), cap)
                    + b0.subrange(start + size, b0.len() as int),
            decreases FIELD_COUNT - k,
        {
            let ghost prev = buffer@;
            let ghost done = encode_fields(all.subrange(0, k as int), cap);
            assert(all.subrange(0, k + 1).drop_last() =~= all.subrange(0, k as int));
            match self.field(k) {
                Some((t, v)) => {
                    let at = start + size;
                    let end = put_structure(buffer, at, limit, t, &v);
                    if end != at {
                        assert(prev.subrange(0, at as int) =~= b0.subrange(0, start as int) + done);
                        assert(prev.subrange(end as int, prev.len() as int) =~= b0.subrange(
                            end as int,
                            b0.len() as int,
                        ));
                        assert(buffer@ =~= b0.subrange(0, start as int) + (done + ad_structure(t, v@))
                            + b0.subrange(end as int, b0.len() as int));
                    }
                    size = end - start;
                },
                None => {},
            }
            k += 1;
        }
        assert(all.subrange(0, FIELD_COUNT as int) =~= all);
        size
    }

    /// Whether every present field fits in `capacity` bytes: `Ok` when
    /// `write` into a buffer of that size keeps them all, and
    /// `EncodingTruncated` when it leaves some out.
    pub fn check_fit(&self, capacity: usize) -> (r: Result<(), BleError>)
        ensures
            r is Ok <==> !encoding_drops(self.fields(), capacity as nat),
            r is Err ==> r == Err::<(), BleError>(BleError::EncodingTruncated),
    {
        let ghost all = self.fields();
        let mut size: usize = 0;
        let mut dropped = false;
        let mut k: usize = 0;
        while k < FIELD_COUNT
            invariant
                k <= FIELD_COUNT,
                all == self.fields(),
                size == encode_fields(all.subrange(0, k as int), capacity as nat).len(),
                size <= capacity,
                dropped == encoding_drops(all.subrange(0, k as int), capacity as nat),
            decreases FIELD_COUNT - k,
        {
            assert(all.subrange(0, k + 1).drop_last() =~= all.subrange(0, k as int));
            match self.field(k) {
                Some((_, v)) => {
                    let len = v.len();
                    if len <= AD_VALUE_SIZE_MAX && capacity - size >= AD_LENGTH_SIZE + AD_TYPE_SIZE + len {
                        size = size + AD_LENGTH_SIZE + AD_TYPE_SIZE + len;
                    } else {
                        dropped = true;
                    }
                },
                None => {},
            }
            k += 1;
        }
        assert(all.subrange(0, FIELD_COUNT as int) =~= all);
        if dropped {
            Err(BleError::EncodingTruncated)
        } else {
            Ok(())
        }
    }

    /// The advertising data these fields encode to within `capacity` bytes.
    pub open spec fn encoded(&self, capacity: nat) -> Seq<u8> {
        encode_fields(self.fields(), capacity)
    }
}

/// Encoding never rewrites what earlier fields produced: the encoding of the
/// first `j` fields is a prefix of the encoding of the first `n`.
pub proof fn lemma_encoding_extends(fields: Seq<Option<(u8, Seq<u8>)>>, capacity: nat, j: int, n: int)
    requires
        0 <= j <= n <= fields.len(),
    ensures
        encode_fields(fields.subrange(0, n), capacity).len() >= encode_fields(
            fields.subrange(0, j),
            capacity,
        ).len(),
        encode_fields(fields.subrange(0, n), capacity).subrange(
            0,
            encode_fields(fields.subrange(0, j), capacity).len() as int,
        ) == encode_fields(fields.subrange(0, j), capacity),
    decreases n - j,
{
    let e_j = encode_fields(fields.subrange(0, j), capacity);
    if j == n {
        assert(encode_fields(fields.subrange(0, n), capacity).subrange(0, e_j.len() as int) =~= e_j);
    } else {
        lemma_encoding_extends(fields, capacity, j, n - 1);
        assert(fields.subrange(0, n).drop_last() =~= fields.subrange(0, n - 1));
        let e_m = encode_fields(fields.subrange(0, n - 1), capacity);
        let e_n = encode_fields(fields.subrange(0, n), capacity);
        assert(e_n.subrange(0, e_m.len() as int) =~= e_m);
        assert(e_n.subrange(0, e_j.len() as int) =~= e_m.subrange(0, e_j.len() as int));
    }
}

/// The encoding never takes more than the capacity it was given.
pub proof fn lemma_encoding_within_capacity(fields: Seq<Option<(u8, Seq<u8>)>>, capacity: nat)
    ensures
        encode_fields(fields, capacity).len() <= capacity,
    decreases fields.len(),
{
    if fields.len() > 0 {
        lemma_encoding_within_capacity(fields.drop_last(), capacity);
    }
}

/// Fields that are all absent encode to nothing.
pub proof fn lemma_absent_fields_encode_empty(fields: Seq<Option<(u8, Seq<u8>)>>, capacity: nat)
    requires
        forall|k: int| 0 <= k < fields.len() ==> #[trigger] fields[k] is None,
    ensures
        encode_fields(fields, capacity) == Seq::<u8>::empty(),
    decreases fields.len(),
{
    if fields.len() > 0 {
        let rest = fields.drop_last();
        assert forall|k: int| 0 <= k < rest.len() implies #[trigger] rest[k] is None by {
            assert(rest[k] == fields[k]);
        }
        lemma_absent_fields_encode_empty(rest, capacity);
    }
}

/// With a single field present, and room for it, the output is exactly that
/// field's AD structure.
proof fn lemma_single_field_encoding(
    fields: Seq<Option<(u8, Seq<u8>)>>,
    capacity: nat,
    k: int,
    t: u8,
    v: Seq<u8>,
)
    requires
        0 <= k < fields.len(),
        fields[k] == Some((t, v)),
        forall|j: int| 0 <= j < fields.len() && j != k ==> #[trigger] fields[j] is None,
        fits(0, v.len(), capacity),
    ensures
        encode_fields(fields, capacity) == ad_structure(t, v),
    decreases fields.len(),
{
    let rest = fields.drop_last();
    if k == fields.len() - 1 {
        assert forall|j: int| 0 <= j < rest.len() implies #[trigger] rest[j] is None by {
            assert(rest[j] == fields[j]);
        }
        lemma_absent_fields_encode_empty(rest, capacity);
        assert(Seq::<u8>::empty() + ad_structure(t, v) =~= ad_structure(t, v));
    } else {
        assert forall|j: int| 0 <= j < rest.len() && j != k implies #[trigger] rest[j] is None by {
            assert(rest[j] == fields[j]);
        }
        assert(rest[k] == fields[k]);
        lemma_single_field_encoding(rest, capacity, k, t, v);
    }
}

/// When exactly one field is present and fits, the output is that field's
/// AD structure: its first byte is the output's length less one and its
/// second byte is the field's AD type.
pub proof fn lemma_single_field_header(f: AdFields, capacity: nat, k: int)
    requires
        0 <= k < FIELD_COUNT,
        f.field_spec(k) is Some,
        fits(0, f.field_spec(k).unwrap().1.len(), capacity),
        forall|j: int| 0 <= j < FIELD_COUNT && j != k ==> #[trigger] f.field_spec(j) is None,
    ensures
        f.encoded(capacity) == ad_structure(f.field_spec(k).unwrap().0, f.field_spec(k).unwrap().1),
        f.encoded(capacity).len() >= 2,
        f.encoded(capacity)[0] == f.encoded(capacity).len() - 1,
        f.encoded(capacity)[1] == f.field_spec(k).unwrap().0,
{
    let (t, v) = f.field_spec(k).unwrap();
    assert forall|j: int| 0 <= j < f.fields().len() && j != k implies #[trigger] f.fields()[j] is None by {
        assert(f.fields()[j] == f.field_spec(j));
    }
    lemma_single_field_encoding(f.fields(), capacity, k, t, v);
}

/// Fields before `k` that are absent or could not fit even alone emit nothing.
proof fn lemma_nothing_before(fields: Seq<Option<(u8, Seq<u8>)>>, capacity: nat, k: int)
    requires
        0 <= k <= fields.len(),
        forall|j: int| 0 <= j < k ==> match #[trigger] fields[j] {
            Some((t, v)) => !fits(0, v.len(), capacity),
            None => true,
        },
    ensures
        encode_fields(fields.subrange(0, k), capacity) == Seq::<u8>::empty(),
    decreases k,
{
    if k > 0 {
        lemma_nothing_before(fields, capacity, k - 1);
        assert(fields.subrange(0, k).drop_last() =~= fields.subrange(0, k - 1));
        assert(fields.subrange(0, k).last() == fields[k - 1]);
    }
}

/// Whatever fields are present, the output opens with the AD structure of the
/// first field that can be emitted at all: its first byte is that field's
/// length and its second byte that field's AD type.
pub proof fn lemma_first_structure(f: AdFields, capacity: nat, k: int)
    requires
        0 <= k < FIELD_COUNT,
        f.field_spec(k) is Some,
        fits(0, f.field_spec(k).unwrap().1.len(), capacity),
        forall|j: int| 0 <= j < k ==> match #[trigger] f.field_spec(j) {
            Some((t, v)) => !fits(0, v.len(), capacity),
            None => true,
        },
    ensures
        f.encoded(capacity).len() >= f.field_spec(k).unwrap().1.len() + 2,
        f.encoded(capacity).subrange(0, f.field_spec(k).unwrap().1.len() + 2int) == ad_structure(
            f.field_spec(k).unwrap().0,
            f.field_spec(k).unwrap().1,
        ),
        f.encoded(capacity)[0] == f.field_spec(k).unwrap().1.len() + 1,
        f.encoded(capacity)[1] == f.field_spec(k).unwrap().0,
{
    let all = f.fields();
    let (t, v) = f.field_spec(k).unwrap();
    assert forall|j: int| 0 <= j < k implies match #[trigger] all[j] {
        Some((t, v)) => !fits(0, v.len(), capacity),
        None => true,
    } by {
        assert(all[j] == f.field_spec(j));
    }
    lemma_nothing_before(all, capacity, k);
    assert(all.subrange(0, k + 1).drop_last() =~= all.subrange(0, k));
    assert(all.subrange(0, k + 1).last() == Some((t, v)));
    assert(encode_fields(all.subrange(0, k + 1), capacity) =~= ad_structure(t, v));
    lemma_encoding_extends(all, capacity, k + 1, FIELD_COUNT as int);
    assert(all.subrange(0, FIELD_COUNT as int) =~= all);
    let out = f.encoded(capacity);
    assert(out[0] == out.subrange(0, v.len() + 2int)[0]);
    assert(out[1] == out.subrange(0, v.len() + 2int)[1]);
}

/// Encoding the same fields into two buffers of the same size gives the same bytes.
pub proof fn lemma_encoding_deterministic(f: AdFields, g: AdFields, capacity: nat)
    requires
        f.fields() == g.fields(),
    ensures
        f.encoded(capacity) == g.encoded(capacity),
{
}

/// A local name that does not fit in the space the earlier fields left is
/// dropped, and the bytes of those earlier fields stay in place at the start
/// of the output.
pub proof fn lemma_oversized_name_dropped(f: AdFields, capacity: nat)
    requires
        f.local_name is Some,
        !fits(
            encode_fields(f.fields().subrange(0, 6), capacity).len(),
            f.local_name.unwrap().spec_bytes().len(),
            capacity,
        ),
    ensures
        encode_fields(f.fields().subrange(0, 7), capacity) == encode_fields(
            f.fields().subrange(0, 6),
            capacity,
        ),
        f.encoded(capacity).subrange(0, encode_fields(f.fields().subrange(0, 6), capacity).len() as int)
            == encode_fields(f.fields().subrange(0, 6), capacity),
{
    let all = f.fields();
    assert(all.subrange(0, 7).drop_last() =~= all.subrange(0, 6));
    assert(all.subrange(0, 7).last() == all[6]);
    lemma_encoding_extends(all, capacity, 6, 15);
    assert(all.subrange(0, 15) =~= all);
}

} // verus!
