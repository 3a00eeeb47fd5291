//! Link-layer definitions: RF channels, PDU types and the advertising PDUs.
use vstd::prelude::*;

use crate::gap::{lemma_absent_fields_encode_empty, lemma_encoding_within_capacity, AdFields};

verus! {

/// A link-layer RF channel (0 to 39); 37, 38 and 39 are the advertising channels.
#[derive(Copy, Clone, PartialEq, Eq, Structural, Debug)]
pub enum Channel {
    CH0, CH1, CH2, CH3, CH4, CH5, CH6, CH7, CH8, CH9,
    CH10, CH11, CH12, CH13, CH14, CH15, CH16, CH17, CH18, CH19,
    CH20, CH21, CH22, CH23, CH24, CH25, CH26, CH27, CH28, CH29,
    CH30, CH31, CH32, CH33, CH34, CH35, CH36,
    CH37, CH38, CH39,
}

/// Frequency of a channel, as an offset in MHz from 2400 MHz.
pub open spec fn frequency_offset(index: nat) -> nat {
    if index <= 10 {
        4 + 2 * index
    } else if index <= 36 {
        6 + 2 * index
    } else if index == 37 {
        2
    } else if index == 38 {
        26
    } else {
        80
    }
}

impl Channel {
    /// The channel number.
    pub open spec fn spec_index(self) -> nat {
        match self {
            Channel::CH0 => 0, Channel::CH1 => 1, Channel::CH2 => 2, Channel::CH3 => 3,
            Channel::CH4 => 4, Channel::CH5 => 5, Channel::CH6 => 6, Channel::CH7 => 7,
            Channel::CH8 => 8, Channel::CH9 => 9, Channel::CH10 => 10, Channel::CH11 => 11,
            Channel::CH12 => 12, Channel::CH13 => 13, Channel::CH14 => 14, Channel::CH15 => 15,
            Channel::CH16 => 16, Channel::CH17 => 17, Channel::CH18 => 18, Channel::CH19 => 19,
            Channel::CH20 => 20, Channel::CH21 => 21, Channel::CH22 => 22, Channel::CH23 => 23,
            Channel::CH24 => 24, Channel::CH25 => 25, Channel::CH26 => 26, Channel::CH27 => 27,
            Channel::CH28 => 28, Channel::CH29 => 29, Channel::CH30 => 30, Channel::CH31 => 31,
            Channel::CH32 => 32, Channel::CH33 => 33, Channel::CH34 => 34, Channel::CH35 => 35,
            Channel::CH36 => 36, Channel::CH37 => 37, Channel::CH38 => 38, Channel::CH39 => 39,
        }
    }

    /// The channel number (0 to 39).
    pub fn index(&self) -> (r: u8)
        ensures
            r as nat == self.spec_index(),
            r < 40,
    {
        match self {
            Channel::CH0 => 0, Channel::CH1 => 1, Channel::CH2 => 2, Channel::CH3 => 3,
            Channel::CH4 => 4, Channel::CH5 => 5, Channel::CH6 => 6, Channel::CH7 => 7,
            Channel::CH8 => 8, Channel::CH9 => 9, Channel::CH10 => 10, Channel::CH11 => 11,
            Channel::CH12 => 12, Channel::CH13 => 13, Channel::CH14 => 14, Channel::CH15 => 15,
            Channel::CH16 => 16, Channel::CH17 => 17, Channel::CH18 => 18, Channel::CH19 => 19,
            Channel::CH20 => 20, Channel::CH21 => 21, Channel::CH22 => 22, Channel::CH23 => 23,
            Channel::CH24 => 24, Channel::CH25 => 25, Channel::CH26 => 26, Channel::CH27 => 27,
            Channel::CH28 => 28, Channel::CH29 => 29, Channel::CH30 => 30, Channel::CH31 => 31,
            Channel::CH32 => 32, Channel::CH33 => 33, Channel::CH34 => 34, Channel::CH35 => 35,
            Channel::CH36 => 36, Channel::CH37 => 37, Channel::CH38 => 38, Channel::CH39 => 39,
        }
    }

    /// The RF frequency of the channel, in MHz above 2400 MHz.
    pub fn frequency(&self) -> (r: u8)
        ensures
            r as nat == frequency_offset(self.spec_index()),
    {
        let table: [u8; 40] = [
            4, 6, 8, 10, 12, 14, 16, 18, 20, 22,
            24, 28, 30, 32, 34, 36, 38, 40, 42, 44,
            46, 48, 50, 52, 54, 56, 58, 60, 62, 64,
            66, 68, 70, 72, 74, 76, 78, 2, 26, 80,
        ];
        let i = self.index();
        assert(table@ =~= seq![
            4u8, 6, 8, 10, 12, 14, 16, 18, 20, 22,
            24, 28, 30, 32, 34, 36, 38, 40, 42, 44,
            46, 48, 50, 52, 54, 56, 58, 60, 62, 64,
            66, 68, 70, 72, 74, 76, 78, 2, 26, 80,
        ]);
        table[i as usize]
    }
}

/// Largest PDU the radio hardware handles.
pub const PDU_SIZE_MAX: usize = 255;

/// A scratch buffer for one PDU.
pub type PduBuffer = [u8; PDU_SIZE_MAX];

/// Largest payload (AdvA and AdvData) of a legacy advertising PDU.
pub const ADV_PDU_SIZE_MAX: usize = 37;

/// Largest AdvData of a legacy advertising PDU.
pub const ADV_DATA_SIZE_MAX: usize = 31;

/// Size of the PDU header: the header byte and the length byte.
pub const PDU_HEADER_SIZE: usize = 2;

/// Size of a device address.
pub const ADDRESS_LEN: usize = 6;

pub type AccessAddress = u32;

/// Access address of the advertising physical channel.
pub const ADV_ACCESS_ADDRESS: AccessAddress = 0x8E89BED6;

pub type CrcInit = u32;

/// CRC initial value on the advertising physical channel.
pub const ADV_CRCINIT: CrcInit = 0x555555;

/// The CRC-24 polynomial.
pub const CRC_POLYNOMIAL: u32 = 0x65B;

/// Inter frame space, in microseconds.
pub const T_IFS_US: u8 = 150;

// Header bit positions (LSB first): bits 0-3 PDU type, bit 5 ChSel, bit 6 TxAdd, bit 7 RxAdd.
pub const PDU_TYPE_MASK: u8 = 0x0F;
pub const CHSEL_BIT: u8 = 0x20;
pub const TXADD_BIT: u8 = 0x40;
pub const RXADD_BIT: u8 = 0x80;

impl Channel {
    /// Whether this is one of the three advertising channels (37, 38, 39).
    pub fn is_advertising(&self) -> (r: bool)
        ensures
            r == (self.spec_index() >= 37),
    {
        matches!(self, Channel::CH37 | Channel::CH38 | Channel::CH39)
    }
}

/// The link-layer PDU types.
#[allow(non_camel_case_types)]
#[derive(Copy, Clone, PartialEq, Eq, Structural, Debug)]
pub enum PDU_TYPE {
    /// Connectable Scannable Undirected advertising
    ADV_IND,
    /// Connectable Directed advertising
    ADV_DIRECT_IND,
    /// Non-Connectable Non-Scannable Undirected advertising
    ADV_NONCONN_IND,
    /// Scannable Undirected advertising
    ADV_SCAN_IND,
    /// also AUX_ADV_IND, AUX_SYNC_IND, AUX_CHAIN_IND
    ADV_EXT_IND,
    /// also AUX_SCAN_REQ
    SCAN_REQ,
    /// also AUX_SCAN_RSP
    SCAN_RSP,
    /// connection request (also AUX_CONNECT_REQ)
    CONNECT_IND,
    /// connection request response
    AUX_CONNECT_RSP,
}

/// The PDU type that a 4-bit type code stands for, if any.
pub open spec fn pdu_type_of_code(code: u8) -> Option<PDU_TYPE> {
    if code == 0 {
        Some(PDU_TYPE::ADV_IND)
    } else if code == 1 {
        Some(PDU_TYPE::ADV_DIRECT_IND)
    } else if code == 2 {
        Some(PDU_TYPE::ADV_NONCONN_IND)
    } else if code == 3 {
        Some(PDU_TYPE::SCAN_REQ)
    } else if code == 4 {
        Some(PDU_TYPE::SCAN_RSP)
    } else if code == 5 {
        Some(PDU_TYPE::CONNECT_IND)
    } else if code == 6 {
        Some(PDU_TYPE::ADV_SCAN_IND)
    } else if code == 7 {
        Some(PDU_TYPE::ADV_EXT_IND)
    } else if code == 8 {
        Some(PDU_TYPE::AUX_CONNECT_RSP)
    } else {
        None
    }
}

impl PDU_TYPE {
    /// The 4-bit code of this type in a PDU header.
    pub open spec fn spec_code(self) -> u8 {
        match self {
            PDU_TYPE::ADV_IND => 0b0000,
            PDU_TYPE::ADV_DIRECT_IND => 0b0001,
            PDU_TYPE::ADV_NONCONN_IND => 0b0010,
            PDU_TYPE::SCAN_REQ => 0b0011,
            PDU_TYPE::SCAN_RSP => 0b0100,
            PDU_TYPE::CONNECT_IND => 0b0101,
            PDU_TYPE::ADV_SCAN_IND => 0b0110,
            PDU_TYPE::ADV_EXT_IND => 0b0111,
            PDU_TYPE::AUX_CONNECT_RSP => 0b1000,
        }
    }

    /// The 4-bit code of this type in a PDU header.
    pub fn code(&self) -> (r: u8)
        ensures
            r == self.spec_code(),
            r < 16,
            pdu_type_of_code(r) == Some(*self),
    {
        match self {
            PDU_TYPE::ADV_IND => 0b0000,
            PDU_TYPE::ADV_DIRECT_IND => 0b0001,
            PDU_TYPE::ADV_NONCONN_IND => 0b0010,
            PDU_TYPE::SCAN_REQ => 0b0011,
            PDU_TYPE::SCAN_RSP => 0b0100,
            PDU_TYPE::CONNECT_IND => 0b0101,
            PDU_TYPE::ADV_SCAN_IND => 0b0110,
            PDU_TYPE::ADV_EXT_IND => 0b0111,
            PDU_TYPE::AUX_CONNECT_RSP => 0b1000,
        }
    }

    /// The type of a PDU, read from the low four bits of its header byte;
    /// `None` for a reserved code.
    pub fn of(pdu: &[u8]) -> (r: Option<PDU_TYPE>)
        requires
            pdu@.len() >= 1,
        ensures
            r == pdu_type_of_code(pdu@[0] & PDU_TYPE_MASK),
            pdu@[0] & PDU_TYPE_MASK == pdu@[0] % 16,
    {
        let header = pdu[0];
        assert(header & PDU_TYPE_MASK == header % 16) by (bit_vector);
        match header & PDU_TYPE_MASK {
            0 => Some(PDU_TYPE::ADV_IND),
            1 => Some(PDU_TYPE::ADV_DIRECT_IND),
            2 => Some(PDU_TYPE::ADV_NONCONN_IND),
            3 => Some(PDU_TYPE::SCAN_REQ),
            4 => Some(PDU_TYPE::SCAN_RSP),
            5 => Some(PDU_TYPE::CONNECT_IND),
            6 => Some(PDU_TYPE::ADV_SCAN_IND),
            7 => Some(PDU_TYPE::ADV_EXT_IND),
            8 => Some(PDU_TYPE::AUX_CONNECT_RSP),
            _ => None,
        }
    }
}

/// Whether the advertiser supports channel selection algorithm #2.
#[derive(Copy, Clone, PartialEq, Eq, Structural, Debug)]
pub enum ChSel {
    Unsupported,
    Supported,
}

/// A device address.
pub type Address = [u8; ADDRESS_LEN];

/// A device address tagged with its kind; any kind but public is random.
#[derive(Copy, Clone, Debug)]
pub enum TxRxAdvAddress {
    Public(Address),
    RandomStatic(Address),
    PrivateStatic(Address),
}

/// The advertiser's address.
pub type AdvA = TxRxAdvAddress;

/// The scanner's address.
pub type ScanA = TxRxAdvAddress;

/// Advertising data.
pub type AdvData<'a> = AdFields<'a>;

impl TxRxAdvAddress {
    /// The six address bytes.
    pub open spec fn spec_bytes(self) -> Seq<u8> {
        match self {
            TxRxAdvAddress::Public(a) => a@,
            TxRxAdvAddress::RandomStatic(a) => a@,
            TxRxAdvAddress::PrivateStatic(a) => a@,
        }
    }

    /// Whether the address is random (sets TxAdd or RxAdd in a header).
    pub open spec fn spec_is_random(self) -> bool {
        !(self is Public)
    }

    /// The six address bytes.
    pub fn bytes(&self) -> (r: &Address)
        ensures
            r@ == self.spec_bytes(),
    {
        match self {
            TxRxAdvAddress::Public(a) => a,
            TxRxAdvAddress::RandomStatic(a) => a,
            TxRxAdvAddress::PrivateStatic(a) => a,
        }
    }

    /// Whether the address is random rather than public.
    pub fn is_random(&self) -> (r: bool)
        ensures
            r == self.spec_is_random(),
    {
        !matches!(self, TxRxAdvAddress::Public(..))
    }

    /// Writes the six address bytes at `at` and returns how many were written.
    pub fn write_address(&self, buffer: &mut [u8], at: usize) -> (r: usize)
        requires
            at + ADDRESS_LEN <= old(buffer)@.len(),
        ensures
            r == ADDRESS_LEN,
            final(buffer)@ == old(buffer)@.subrange(0, at as int) + self.spec_bytes()
                + old(buffer)@.subrange(at + ADDRESS_LEN, old(buffer)@.len() as int),
    {
        let ghost b0 = buffer@;
        let address = self.bytes();
        let mut i: usize = 0;
        while i < ADDRESS_LEN
            invariant
                i <= ADDRESS_LEN,
                at + ADDRESS_LEN <= buffer.len(),
                at + ADDRESS_LEN <= b0.len(),
                address@ == self.spec_bytes(),
                address@.len() == ADDRESS_LEN,
                buffer@ == b0.subrange(0, at as int) + address@.subrange(0, i as int)
                    + b0.subrange(at + i, b0.len() as int),
            decreases ADDRESS_LEN - i,
        {
            buffer[at + i] = address[i];
            assert(buffer@ =~= b0.subrange(0, at as int) + address@.subrange(0, i + 1)
                + b0.subrange(at + i + 1, b0.len() as int));
            i += 1;
        }
        assert(address@.subrange(0, ADDRESS_LEN as int) =~= address@);
        ADDRESS_LEN
    }
}

/// A header byte: the type code with the ChSel, TxAdd and RxAdd bits as given.
pub open spec fn header_byte(pdu_type: PDU_TYPE, ch_sel: bool, tx_add: bool, rx_add: bool) -> u8 {
    pdu_type.spec_code() | (if ch_sel { CHSEL_BIT } else { 0 }) | (if tx_add { TXADD_BIT } else { 0 })
        | (if rx_add { RXADD_BIT } else { 0 })
}

/// A PDU: header byte, length byte (size of what follows), then the payload.
pub open spec fn pdu_bytes(header: u8, payload: Seq<u8>) -> Seq<u8> {
    seq![header, payload.len() as u8] + payload
}

/// How much of a buffer of `capacity` bytes AdvData may take after the
/// header and one address: what is left, and never more than the legacy limit.
pub open spec fn adv_data_budget(capacity: nat) -> nat {
    let left = capacity - PDU_HEADER_SIZE - ADDRESS_LEN;
    if left < ADV_DATA_SIZE_MAX {
        left as nat
    } else {
        ADV_DATA_SIZE_MAX as nat
    }
}

/// The header byte for a PDU type and its flag bits.
fn header(pdu_type: PDU_TYPE, ch_sel: bool, tx_add: bool, rx_add: bool) -> (r: u8)
    ensures
        r == header_byte(pdu_type, ch_sel, tx_add, rx_add),
{
    pdu_type.code() | (if ch_sel { CHSEL_BIT } else { 0 }) | (if tx_add { TXADD_BIT } else { 0 })
        | (if rx_add { RXADD_BIT } else { 0 })
}

/// Writes header, AdvA and AdvData (within the legacy limit) and back-fills
/// the length byte; returns the size of the PDU.
fn write_adv_pdu(header: u8, adv_a: &AdvA, adv_data: &AdvData, buffer: &mut [u8]) -> (r: usize)
    requires
        old(buffer)@.len() >= PDU_HEADER_SIZE + ADDRESS_LEN,
        adv_data.wf(),
    ensures
        final(buffer)@.len() == old(buffer)@.len(),
        final(buffer)@ == pdu_bytes(
            header,
            adv_a.spec_bytes() + adv_data.encoded(adv_data_budget(old(buffer)@.len() as nat)),
        ) + old(buffer)@.subrange(r as int, old(buffer)@.len() as int),
        r == PDU_HEADER_SIZE + ADDRESS_LEN + adv_data.encoded(
            adv_data_budget(old(buffer)@.len() as nat),
        ).len(),
{
    let ghost b0 = buffer@;
    let ghost addr = adv_a.spec_bytes();
    buffer[0] = header;
    let mut size: usize = PDU_HEADER_SIZE;
    size = size + adv_a.write_address(buffer, size);
    let left = buffer.len() - size;
    let limit = if left < ADV_DATA_SIZE_MAX { buffer.len() } else { size + ADV_DATA_SIZE_MAX };
    let ghost b1 = buffer@;
    assert(b1 =~= seq![header, b0[1]] + addr + b0.subrange(size as int, b0.len() as int));
    let ghost data = adv_data.encoded(adv_data_budget(b0.len() as nat));
    assert(limit - size == adv_data_budget(b0.len() as nat));
    let n = adv_data.write_within(buffer, size, limit);
    assert(b1.subrange(0, size as int) =~= seq![header, b0[1]] + addr);
    assert(b1.subrange(size + n, b1.len() as int) =~= b0.subrange(size + n, b0.len() as int));
    size = size + n;
    assert(buffer@ =~= seq![header, b0[1]] + addr + data + b0.subrange(size as int, b0.len() as int));
    buffer[1] = (size - PDU_HEADER_SIZE) as u8;
    assert(buffer@ =~= pdu_bytes(header, addr + data) + b0.subrange(size as int, b0.len() as int));
    size
}

/// Connectable scannable undirected advertising PDU.
pub struct AdvIndPdu<'a> {
    pub ch_sel: ChSel,
    pub adv_a: &'a AdvA,
    pub adv_data: &'a AdvData<'a>,
}

impl<'a> AdvIndPdu<'a> {
    /// The PDU encoded into a buffer of `capacity` bytes.
    pub open spec fn spec_bytes(&self, capacity: nat) -> Seq<u8> {
        pdu_bytes(
            header_byte(PDU_TYPE::ADV_IND, self.ch_sel == ChSel::Supported, self.adv_a.spec_is_random(), false),
            self.adv_a.spec_bytes() + self.adv_data.encoded(adv_data_budget(capacity)),
        )
    }

    /// Writes the PDU at the start of `buffer` and returns its size.
    pub fn write(&self, buffer: &mut [u8]) -> (r: usize)
        requires
            old(buffer)@.len() >= PDU_HEADER_SIZE + ADDRESS_LEN,
            self.adv_data.wf(),
        ensures
            final(buffer)@.len() == old(buffer)@.len(),
            r == self.spec_bytes(old(buffer)@.len() as nat).len(),
            final(buffer)@ == self.spec_bytes(old(buffer)@.len() as nat) + old(buffer)@.subrange(
                r as int,
                old(buffer)@.len() as int,
            ),
    {
        let h = header(PDU_TYPE::ADV_IND, self.ch_sel == ChSel::Supported, self.adv_a.is_random(), false);
        write_adv_pdu(h, self.adv_a, self.adv_data, buffer)
    }
}

/// Non-connectable non-scannable undirected advertising PDU.
pub struct AdvNonConnIndPdu<'a> {
    pub adv_a: &'a AdvA,
    pub adv_data: &'a AdvData<'a>,
}

impl<'a> AdvNonConnIndPdu<'a> {
    /// The PDU encoded into a buffer of `capacity` bytes.
    pub open spec fn spec_bytes(&self, capacity: nat) -> Seq<u8> {
        pdu_bytes(
            header_byte(PDU_TYPE::ADV_NONCONN_IND, false, self.adv_a.spec_is_random(), false),
            self.adv_a.spec_bytes() + self.adv_data.encoded(adv_data_budget(capacity)),
        )
    }

    /// Writes the PDU at the start of `buffer` and returns its size.
    pub fn write(&self, buffer: &mut [u8]) -> (r: usize)
        requires
            old(buffer)@.len() >= PDU_HEADER_SIZE + ADDRESS_LEN,
            self.adv_data.wf(),
        ensures
            final(buffer)@.len() == old(buffer)@.len(),
            r == self.spec_bytes(old(buffer)@.len() as nat).len(),
            final(buffer)@ == self.spec_bytes(old(buffer)@.len() as nat) + old(buffer)@.subrange(
                r as int,
                old(buffer)@.len() as int,
            ),
    {
        let h = header(PDU_TYPE::ADV_NONCONN_IND, false, self.adv_a.is_random(), false);
        write_adv_pdu(h, self.adv_a, self.adv_data, buffer)
    }
}

/// Scan request: a scanner (ScanA) asks an advertiser (AdvA) for more data.
pub struct ScanReqPdu<'a> {
    pub scan_a: &'a ScanA,
    pub adv_a: &'a AdvA,
}

impl<'a> ScanReqPdu<'a> {
    /// The PDU: TxAdd tells the kind of ScanA, RxAdd the kind of AdvA.
    pub open spec fn spec_bytes(&self) -> Seq<u8> {
        pdu_bytes(
            header_byte(PDU_TYPE::SCAN_REQ, false, self.scan_a.spec_is_random(), self.adv_a.spec_is_random()),
            self.scan_a.spec_bytes() + self.adv_a.spec_bytes(),
        )
    }

    /// Writes the PDU at the start of `buffer` and returns its size.
    pub fn write(&self, buffer: &mut [u8]) -> (r: usize)
        requires
            old(buffer)@.len() >= PDU_HEADER_SIZE + 2 * ADDRESS_LEN,
        ensures
            final(buffer)@.len() == old(buffer)@.len(),
            r == PDU_HEADER_SIZE + 2 * ADDRESS_LEN,
            r == self.spec_bytes().len(),
            final(buffer)@ == self.spec_bytes() + old(buffer)@.subrange(r as int, old(buffer)@.len() as int),
    {
        let ghost b0 = buffer@;
        buffer[0] = header(PDU_TYPE::SCAN_REQ, false, self.scan_a.is_random(), self.adv_a.is_random());
        let mut size: usize = PDU_HEADER_SIZE;
        size = size + self.scan_a.write_address(buffer, size);
        size = size + self.adv_a.write_address(buffer, size);
        buffer[1] = (size - PDU_HEADER_SIZE) as u8;
        assert(buffer@ =~= self.spec_bytes() + b0.subrange(size as int, b0.len() as int));
        size
    }
}

/// Scan response: the advertiser's answer to a scan request.
pub struct ScanRspPdu<'a> {
    pub adv_a: &'a AdvA,
    pub scan_rsp_data: &'a AdvData<'a>,
}

impl<'a> ScanRspPdu<'a> {
    /// The PDU encoded into a buffer of `capacity` bytes.
    pub open spec fn spec_bytes(&self, capacity: nat) -> Seq<u8> {
        pdu_bytes(
            header_byte(PDU_TYPE::SCAN_RSP, false, self.adv_a.spec_is_random(), false),
            self.adv_a.spec_bytes() + self.scan_rsp_data.encoded(adv_data_budget(capacity)),
        )
    }

    /// Writes the PDU at the start of `buffer` and returns its size.
    pub fn write(&self, buffer: &mut [u8]) -> (r: usize)
        requires
            old(buffer)@.len() >= PDU_HEADER_SIZE + ADDRESS_LEN,
            self.scan_rsp_data.wf(),
        ensures
            final(buffer)@.len() == old(buffer)@.len(),
            r == self.spec_bytes(old(buffer)@.len() as nat).len(),
            final(buffer)@ == self.spec_bytes(old(buffer)@.len() as nat) + old(buffer)@.subrange(
                r as int,
                old(buffer)@.len() as int,
            ),
    {
        let h = header(PDU_TYPE::SCAN_RSP, false, self.adv_a.is_random(), false);
        write_adv_pdu(h, self.adv_a, self.scan_rsp_data, buffer)
    }
}

proof fn lemma_header_bits(c: u8, s: u8, t: u8, r: u8)
    requires
        c < 16,
        s == 0 || s == 0x20,
        t == 0 || t == 0x40,
        r == 0 || r == 0x80,
    ensures
        (c | s | t | r) & 0x0F == c,
        (c | s | t | r) & 0x40 == t,
        (c | s | t | r) & 0x80 == r,
        (c | s | t | r) & 0x20 == s,
{
    assert((c | s | t | r) & 0x0F == c) by (bit_vector)
        requires
            c < 16,
            s == 0 || s == 0x20,
            t == 0 || t == 0x40,
            r == 0 || r == 0x80,
    ;
    assert((c | s | t | r) & 0x40 == t) by (bit_vector)
        requires
            c < 16,
            s == 0 || s == 0x20,
            t == 0 || t == 0x40,
            r == 0 || r == 0x80,
    ;
    assert((c | s | t | r) & 0x80 == r) by (bit_vector)
        requires
            c < 16,
            s == 0 || s == 0x20,
            t == 0 || t == 0x40,
            r == 0 || r == 0x80,
    ;
    assert((c | s | t | r) & 0x20 == s) by (bit_vector)
        requires
            c < 16,
            s == 0 || s == 0x20,
            t == 0 || t == 0x40,
            r == 0 || r == 0x80,
    ;
}

/// A header byte keeps each of its fields apart: the type code decodes back
/// to the type, and the ChSel, TxAdd and RxAdd bits read back as given.
pub proof fn lemma_header_fields(pdu_type: PDU_TYPE, ch_sel: bool, tx_add: bool, rx_add: bool)
    ensures
        pdu_type_of_code(header_byte(pdu_type, ch_sel, tx_add, rx_add) & PDU_TYPE_MASK) == Some(pdu_type),
        (header_byte(pdu_type, ch_sel, tx_add, rx_add) & CHSEL_BIT != 0) == ch_sel,
        (header_byte(pdu_type, ch_sel, tx_add, rx_add) & TXADD_BIT != 0) == tx_add,
        (header_byte(pdu_type, ch_sel, tx_add, rx_add) & RXADD_BIT != 0) == rx_add,
{
    lemma_header_bits(
        pdu_type.spec_code(),
        if ch_sel { CHSEL_BIT } else { 0 },
        if tx_add { TXADD_BIT } else { 0 },
        if rx_add { RXADD_BIT } else { 0 },
    );
}

/// A legacy advertising PDU (header, AdvA, AdvData) is at most 39 bytes,
/// and its length byte is its size less the two header bytes.
pub proof fn lemma_adv_pdu_size(header: u8, adv_a: AdvA, adv_data: AdvData, capacity: nat)
    requires
        capacity >= PDU_HEADER_SIZE + ADDRESS_LEN,
    ensures
        pdu_bytes(header, adv_a.spec_bytes() + adv_data.encoded(adv_data_budget(capacity))).len()
            <= PDU_HEADER_SIZE + ADV_PDU_SIZE_MAX,
        pdu_bytes(header, adv_a.spec_bytes() + adv_data.encoded(adv_data_budget(capacity)))[1]
            == pdu_bytes(header, adv_a.spec_bytes() + adv_data.encoded(adv_data_budget(capacity))).len()
            - PDU_HEADER_SIZE,
{
    lemma_encoding_within_capacity(adv_data.fields(), adv_data_budget(capacity));
    assert(adv_a.spec_bytes().len() == ADDRESS_LEN) by {
        match adv_a {
            TxRxAdvAddress::Public(a) => {},
            TxRxAdvAddress::RandomStatic(a) => {},
            TxRxAdvAddress::PrivateStatic(a) => {},
        }
    }
}

/// Decoding the type of an encoded ADV_NONCONN_IND gives ADV_NONCONN_IND back.
pub proof fn lemma_adv_nonconn_ind_round_trip(pdu: AdvNonConnIndPdu, capacity: nat)
    ensures
        pdu_type_of_code(pdu.spec_bytes(capacity)[0] & PDU_TYPE_MASK) == Some(PDU_TYPE::ADV_NONCONN_IND),
{
    lemma_header_fields(PDU_TYPE::ADV_NONCONN_IND, false, pdu.adv_a.spec_is_random(), false);
}

/// Decoding the type of any advertising PDU this codec encodes gives its type back.
pub proof fn lemma_pdu_types_round_trip(
    adv_ind: AdvIndPdu,
    scan_req: ScanReqPdu,
    scan_rsp: ScanRspPdu,
    capacity: nat,
)
    ensures
        pdu_type_of_code(adv_ind.spec_bytes(capacity)[0] & PDU_TYPE_MASK) == Some(PDU_TYPE::ADV_IND),
        pdu_type_of_code(scan_req.spec_bytes()[0] & PDU_TYPE_MASK) == Some(PDU_TYPE::SCAN_REQ),
        pdu_type_of_code(scan_rsp.spec_bytes(capacity)[0] & PDU_TYPE_MASK) == Some(PDU_TYPE::SCAN_RSP),
{
    lemma_header_fields(
        PDU_TYPE::ADV_IND,
        adv_ind.ch_sel == ChSel::Supported,
        adv_ind.adv_a.spec_is_random(),
        false,
    );
    lemma_header_fields(
        PDU_TYPE::SCAN_REQ,
        false,
        scan_req.scan_a.spec_is_random(),
        scan_req.adv_a.spec_is_random(),
    );
    lemma_header_fields(PDU_TYPE::SCAN_RSP, false, scan_rsp.adv_a.spec_is_random(), false);
}

/// An ADV_NONCONN_IND without advertising data is the header and AdvA alone:
/// its length byte is 6.
pub proof fn lemma_empty_adv_nonconn_ind(pdu: AdvNonConnIndPdu, capacity: nat)
    requires
        pdu.adv_data.is_empty(),
        capacity >= PDU_HEADER_SIZE + ADDRESS_LEN,
    ensures
        pdu.spec_bytes(capacity).len() == PDU_HEADER_SIZE + ADDRESS_LEN,
        pdu.spec_bytes(capacity)[1] == 6,
{
    let fields = pdu.adv_data.fields();
    assert forall|k: int| 0 <= k < fields.len() implies #[trigger] fields[k] is None by {
        assert(pdu.adv_data.fields()[k] is None);
    }
    lemma_absent_fields_encode_empty(fields, adv_data_budget(capacity));
    assert(pdu.adv_a.spec_bytes().len() == ADDRESS_LEN) by {
        match *pdu.adv_a {
            TxRxAdvAddress::Public(a) => {},
            TxRxAdvAddress::RandomStatic(a) => {},
            TxRxAdvAddress::PrivateStatic(a) => {},
        }
    }
}

/// TxAdd (header bit 6) of an advertising PDU is set exactly when AdvA is random.
pub proof fn lemma_tx_add_follows_adv_a(ch_sel: ChSel, adv_a: AdvA, adv_data: AdvData, capacity: nat)
    ensures
        ((AdvIndPdu { ch_sel, adv_a: &adv_a, adv_data: &adv_data }).spec_bytes(capacity)[0]
            & TXADD_BIT != 0) == adv_a.spec_is_random(),
        ((AdvNonConnIndPdu { adv_a: &adv_a, adv_data: &adv_data }).spec_bytes(capacity)[0]
            & TXADD_BIT != 0) == adv_a.spec_is_random(),
        ((ScanRspPdu { adv_a: &adv_a, scan_rsp_data: &adv_data }).spec_bytes(capacity)[0]
            & TXADD_BIT != 0) == adv_a.spec_is_random(),
        adv_a is Public ==> ((AdvNonConnIndPdu { adv_a: &adv_a, adv_data: &adv_data }).spec_bytes(
            capacity,
        )[0] & TXADD_BIT) == 0,
{
    lemma_header_fields(PDU_TYPE::ADV_IND, ch_sel == ChSel::Supported, adv_a.spec_is_random(), false);
    lemma_header_fields(PDU_TYPE::ADV_NONCONN_IND, false, adv_a.spec_is_random(), false);
    lemma_header_fields(PDU_TYPE::SCAN_RSP, false, adv_a.spec_is_random(), false);
}

} // verus!
