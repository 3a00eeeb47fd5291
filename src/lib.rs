//! A Bluetooth Low Energy peripheral stack: advertising-data encoding,
//! link-layer PDU framing, the RF channel model, a monotonic clock built on
//! an overflowing hardware counter, and the task model that drives them.
use vstd::prelude::*;

pub mod clock;
pub mod gap;
pub mod l2cap;
pub mod link_layer;
pub mod radio;
pub mod tasks;

use crate::gap::AdFields;
use crate::link_layer::{
    header_byte, lemma_adv_pdu_size, pdu_type_of_code, AdvA, AdvIndPdu, AdvNonConnIndPdu, ChSel,
    Channel, ScanRspPdu, ADDRESS_LEN, ADV_ACCESS_ADDRESS, ADV_CRCINIT, ADV_PDU_SIZE_MAX,
    PDU_HEADER_SIZE, PDU_SIZE_MAX, PDU_TYPE, PDU_TYPE_MASK,
};
use crate::radio::BleError;

verus! {

/// A PDU waiting in the scratch buffer, and where to send it.
#[derive(Copy, Clone, PartialEq, Eq, Structural, Debug)]
pub struct Transmission {
    pub channel: Channel,
    pub access_address: u32,
    pub crc_init: u32,
    /// size of the PDU at the start of the scratch buffer
    pub length: usize,
}

/// Whether `pdu` is a scan request addressed to `adv_a`.
pub open spec fn is_scan_request_for(pdu: Seq<u8>, adv_a: AdvA) -> bool {
    &&& pdu.len() >= PDU_HEADER_SIZE + 2 * ADDRESS_LEN
    &&& pdu_type_of_code(pdu[0] & PDU_TYPE_MASK) == Some(PDU_TYPE::SCAN_REQ)
    &&& pdu.subrange(8, 14) == adv_a.spec_bytes()
}

/// The shared BLE context: the device address, the advertised fields and
/// one scratch buffer for the PDU being sent.
pub struct Ble<'a> {
    adv_a: AdvA,
    ad_fields: AdFields<'a>,
    buffer: Vec<u8>,
    channel: Channel,
    connected: bool,
    scan_request: bool,
}

impl<'a> Ble<'a> {
    pub closed spec fn spec_adv_a(&self) -> AdvA {
        self.adv_a
    }

    pub closed spec fn spec_ad_fields(&self) -> AdFields<'a> {
        self.ad_fields
    }

    /// The scratch buffer.
    pub closed spec fn spec_buffer(&self) -> Seq<u8> {
        self.buffer@
    }

    /// The channel last used to send.
    pub closed spec fn spec_channel(&self) -> Channel {
        self.channel
    }

    pub closed spec fn spec_connected(&self) -> bool {
        self.connected
    }

    /// Whether a scan request waits for its response.
    pub closed spec fn spec_scan_request(&self) -> bool {
        self.scan_request
    }

    pub closed spec fn wf(&self) -> bool {
        &&& self.buffer@.len() == PDU_SIZE_MAX
        &&& self.ad_fields.wf()
    }

    /// A context for a device with address `adv_a` that advertises `ad_fields`;
    /// fails when the field set is invalid.
    pub fn new(adv_a: AdvA, ad_fields: AdFields<'a>) -> (r: Result<Self, BleError>)
        ensures
            match r {
                Ok(ble) => {
                    &&& ad_fields.wf()
                    &&& ble.wf()
                    &&& ble.spec_adv_a() == adv_a
                    &&& ble.spec_ad_fields() == ad_fields
                    &&& !ble.spec_connected()
                    &&& !ble.spec_scan_request()
                    &&& ble.spec_channel() == Channel::CH37
                },
                Err(e) => !ad_fields.wf() && e == BleError::InvalidConfiguration,
            },
    {
        if !ad_fields.is_valid() {
            return Err(BleError::InvalidConfiguration);
        }
        Ok(Ble {
            adv_a,
            ad_fields,
            buffer: vec![0u8; PDU_SIZE_MAX],
            channel: Channel::CH37,
            connected: false,
            scan_request: false,
        })
    }

    /// Whether a link is established (advertising pauses while it is).
    pub fn is_connected(&self) -> (r: bool)
        ensures
            r == self.spec_connected(),
    {
        self.connected
    }

    /// Records whether a link is established.
    pub fn set_connected(&mut self, connected: bool)
        ensures
            final(self).spec_connected() == connected,
            final(self).wf() == old(self).wf(),
            final(self).spec_adv_a() == old(self).spec_adv_a(),
            final(self).spec_ad_fields() == old(self).spec_ad_fields(),
            final(self).spec_buffer() == old(self).spec_buffer(),
            final(self).spec_channel() == old(self).spec_channel(),
            final(self).spec_scan_request() == old(self).spec_scan_request(),
    {
        self.connected = connected;
    }

    /// The device address.
    pub fn adv_a(&self) -> (r: &AdvA)
        ensures
            *r == self.spec_adv_a(),
    {
        &self.adv_a
    }

    /// The scratch buffer; a `Transmission` names the PDU at its start.
    pub fn pdu(&self) -> (r: &[u8])
        ensures
            r@ == self.spec_buffer(),
    {
        self.buffer.as_slice()
    }

    /// The advertising PDU of `pdu_type` for this context.
    pub open spec fn spec_adv_pdu(&self, pdu_type: PDU_TYPE) -> Seq<u8> {
        if pdu_type == PDU_TYPE::ADV_IND {
            (AdvIndPdu {
                ch_sel: ChSel::Unsupported,
                adv_a: &self.spec_adv_a(),
                adv_data: &self.spec_ad_fields(),
            }).spec_bytes(PDU_SIZE_MAX as nat)
        } else {
            (AdvNonConnIndPdu { adv_a: &self.spec_adv_a(), adv_data: &self.spec_ad_fields() }).spec_bytes(
                PDU_SIZE_MAX as nat,
            )
        }
    }

    /// Builds an advertising PDU (ADV_IND or ADV_NONCONN_IND) in the scratch
    /// buffer, for sending on an advertising channel.
    pub fn advertise(&mut self, channel: Channel, pdu_type: PDU_TYPE) -> (tx: Transmission)
        requires
            old(self).wf(),
            channel.spec_index() >= 37,
            pdu_type == PDU_TYPE::ADV_IND || pdu_type == PDU_TYPE::ADV_NONCONN_IND,
        ensures
            final(self).wf(),
            tx == (Transmission {
                channel,
                access_address: ADV_ACCESS_ADDRESS,
                crc_init: ADV_CRCINIT,
                length: old(self).spec_adv_pdu(pdu_type).len() as usize,
            }),
            final(self).spec_buffer().subrange(0, tx.length as int) == old(self).spec_adv_pdu(pdu_type),
            final(self).spec_channel() == channel,
            final(self).spec_adv_a() == old(self).spec_adv_a(),
            final(self).spec_ad_fields() == old(self).spec_ad_fields(),
            final(self).spec_connected() == old(self).spec_connected(),
            final(self).spec_scan_request() == old(self).spec_scan_request(),
    {
        let length = if pdu_type == PDU_TYPE::ADV_IND {
            let pdu = AdvIndPdu {
                ch_sel: ChSel::Unsupported,
                adv_a: &self.adv_a,
                adv_data: &self.ad_fields,
            };
            pdu.write(self.buffer.as_mut_slice())
        } else {
            let pdu = AdvNonConnIndPdu { adv_a: &self.adv_a, adv_data: &self.ad_fields };
            pdu.write(self.buffer.as_mut_slice())
        };
        self.channel = channel;
        Transmission { channel, access_address: ADV_ACCESS_ADDRESS, crc_init: ADV_CRCINIT, length }
    }
    /// The Advertiser task's step: while no link is established, builds one
    /// ADV_NONCONN_IND for `channel`; while one is, does nothing. Either way
    /// the task runs again `ADVERTISING_INTERVAL_MS` later.
    pub fn advertiser(&mut self, channel: Channel) -> (r: Option<Transmission>)
        requires
            old(self).wf(),
            channel.spec_index() >= 37,
        ensures
            final(self).wf(),
            old(self).spec_connected() ==> r is None && *final(self) == *old(self),
            !old(self).spec_connected() ==> {
                &&& r == Some(
                    Transmission {
                        channel,
                        access_address: ADV_ACCESS_ADDRESS,
                        crc_init: ADV_CRCINIT,
                        length: old(self).spec_adv_pdu(PDU_TYPE::ADV_NONCONN_IND).len() as usize,
                    },
                )
                &&& final(self).spec_buffer().subrange(0, r.unwrap().length as int) == old(
                    self,
                ).spec_adv_pdu(PDU_TYPE::ADV_NONCONN_IND)
                &&& final(self).spec_channel() == channel
                &&& final(self).spec_adv_a() == old(self).spec_adv_a()
                &&& final(self).spec_ad_fields() == old(self).spec_ad_fields()
                &&& final(self).spec_connected() == old(self).spec_connected()
                &&& final(self).spec_scan_request() == old(self).spec_scan_request()
            },
    {
        if self.connected {
            return None;
        }
        Some(self.advertise(channel, PDU_TYPE::ADV_NONCONN_IND))
    }

    /// Whether bytes 8 to 13 of `pdu` are this device's address.
    fn addressed_to_me(&self, pdu: &[u8]) -> (r: bool)
        requires
            pdu@.len() >= PDU_HEADER_SIZE + 2 * ADDRESS_LEN,
        ensures
            r == (pdu@.subrange(8, 14) == self.spec_adv_a().spec_bytes()),
    {
        let mine = self.adv_a.bytes();
        let mut i: usize = 0;
        while i < ADDRESS_LEN
            invariant
                i <= ADDRESS_LEN,
                pdu@.len() >= 14,
                mine@ == self.spec_adv_a().spec_bytes(),
                mine@.len() == ADDRESS_LEN,
                forall|j: int| 0 <= j < i ==> pdu@[8 + j] == mine@[j],
            decreases ADDRESS_LEN - i,
        {
            if pdu[8 + i] != mine[i] {
                assert(pdu@.subrange(8, 14)[i as int] != mine@[i as int]);
                return false;
            }
            i += 1;
        }
        assert(pdu@.subrange(8, 14) =~= mine@);
        true
    }

    /// The RadioEvent task's step, for a received PDU: a scan request
    /// addressed to this device is recorded for the Worker, and `Ok(true)`
    /// says that the Worker must be spawned. A PDU of a reserved type is
    /// dropped with `UnknownPduType`; anything else needs no work.
    pub fn radio_event(&mut self, received: &[u8]) -> (r: Result<bool, BleError>)
        requires
            old(self).wf(),
        ensures
            final(self).wf(),
            received@.len() == 0 ==> r == Ok::<bool, BleError>(false) && *final(self) == *old(self),
            received@.len() > 0 && pdu_type_of_code(received@[0] & PDU_TYPE_MASK) is None ==> r == Err::<
                bool,
                BleError,
            >(BleError::UnknownPduType) && *final(self) == *old(self),
            received@.len() > 0 && pdu_type_of_code(received@[0] & PDU_TYPE_MASK) is Some ==> r == Ok::<
                bool,
                BleError,
            >(is_scan_request_for(received@, old(self).spec_adv_a())),
            final(self).spec_scan_request() == (old(self).spec_scan_request() || is_scan_request_for(
                received@,
                old(self).spec_adv_a(),
            )),
            !is_scan_request_for(received@, old(self).spec_adv_a()) ==> *final(self) == *old(self),
            final(self).spec_buffer() == old(self).spec_buffer(),
            final(self).spec_channel() == old(self).spec_channel(),
            final(self).spec_adv_a() == old(self).spec_adv_a(),
            final(self).spec_ad_fields() == old(self).spec_ad_fields(),
            final(self).spec_connected() == old(self).spec_connected(),
    {
        if received.len() == 0 {
            return Ok(false);
        }
        match PDU_TYPE::of(received) {
            None => Err(BleError::UnknownPduType),
            Some(PDU_TYPE::SCAN_REQ) => {
                if received.len() >= PDU_HEADER_SIZE + 2 * ADDRESS_LEN && self.addressed_to_me(received) {
                    self.scan_request = true;
                    Ok(true)
                } else {
                    Ok(false)
                }
            },
            Some(_) => Ok(false),
        }
    }

    /// The SCAN_RSP this context answers a scan request with.
    pub open spec fn spec_scan_response(&self) -> Seq<u8> {
        (ScanRspPdu { adv_a: &self.spec_adv_a(), scan_rsp_data: &self.spec_ad_fields() }).spec_bytes(
            PDU_SIZE_MAX as nat,
        )
    }

    /// The Worker task's step: answers a recorded scan request with a
    /// SCAN_RSP, built in the scratch buffer for the channel last used.
    pub fn work(&mut self) -> (r: Option<Transmission>)
        requires
            old(self).wf(),
        ensures
            final(self).wf(),
            !old(self).spec_scan_request() ==> r is None && *final(self) == *old(self),
            old(self).spec_scan_request() ==> {
                &&& r == Some(
                    Transmission {
                        channel: old(self).spec_channel(),
                        access_address: ADV_ACCESS_ADDRESS,
                        crc_init: ADV_CRCINIT,
                        length: old(self).spec_scan_response().len() as usize,
                    },
                )
                &&& final(self).spec_buffer().subrange(0, r.unwrap().length as int) == old(
                    self,
                ).spec_scan_response()
                &&& old(self).spec_scan_response().len() <= PDU_HEADER_SIZE + ADV_PDU_SIZE_MAX
                &&& !final(self).spec_scan_request()
                &&& final(self).spec_channel() == old(self).spec_channel()
                &&& final(self).spec_adv_a() == old(self).spec_adv_a()
                &&& final(self).spec_ad_fields() == old(self).spec_ad_fields()
                &&& final(self).spec_connected() == old(self).spec_connected()
            },
    {
        if !self.scan_request {
            return None;
        }
        proof {
            lemma_adv_pdu_size(
                header_byte(PDU_TYPE::SCAN_RSP, false, self.adv_a.spec_is_random(), false),
                self.adv_a,
                self.ad_fields,
                PDU_SIZE_MAX as nat,
            );
        }
        let pdu = ScanRspPdu { adv_a: &self.adv_a, scan_rsp_data: &self.ad_fields };
        let length = pdu.write(self.buffer.as_mut_slice());
        self.scan_request = false;
        Some(
            Transmission {
                channel: self.channel,
                access_address: ADV_ACCESS_ADDRESS,
                crc_init: ADV_CRCINIT,
                length,
            },
        )
    }

    /// Handles a received PDU at once: the RadioEvent step followed by the
    /// Worker step, so that a scan request addressed to this device (or one
    /// still waiting) is answered with a SCAN_RSP built in the scratch buffer.
    pub fn handle_packet(&mut self, received: &[u8]) -> (r: Result<Option<Transmission>, BleError>)
        requires
            old(self).wf(),
        ensures
            final(self).wf(),
            received@.len() > 0 && pdu_type_of_code(received@[0] & PDU_TYPE_MASK) is None ==> r == Err::<
                Option<Transmission>,
                BleError,
            >(BleError::UnknownPduType) && *final(self) == *old(self),
            (received@.len() == 0 || pdu_type_of_code(received@[0] & PDU_TYPE_MASK) is Some) ==> {
                &&& !final(self).spec_scan_request()
                &&& (old(self).spec_scan_request() || is_scan_request_for(received@, old(self).spec_adv_a()))
                    ==> {
                    &&& r == Ok::<Option<Transmission>, BleError>(
                        Some(
                            Transmission {
                                channel: old(self).spec_channel(),
                                access_address: ADV_ACCESS_ADDRESS,
                                crc_init: ADV_CRCINIT,
                                length: old(self).spec_scan_response().len() as usize,
                            },
                        ),
                    )
                    &&& final(self).spec_buffer().subrange(
                        0,
                        old(self).spec_scan_response().len() as int,
                    ) == old(self).spec_scan_response()
                }
                &&& !(old(self).spec_scan_request() || is_scan_request_for(
                    received@,
                    old(self).spec_adv_a(),
                )) ==> r == Ok::<Option<Transmission>, BleError>(None) && *final(self) == *old(self)
            },
            final(self).spec_adv_a() == old(self).spec_adv_a(),
            final(self).spec_ad_fields() == old(self).spec_ad_fields(),
            final(self).spec_channel() == old(self).spec_channel(),
            final(self).spec_connected() == old(self).spec_connected(),
    {
        match self.radio_event(received) {
            Err(e) => Err(e),
            Ok(_) => Ok(self.work()),
        }
    }
}

} // verus!
