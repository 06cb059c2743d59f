//! The value-level half of the vendor-driver interface: the fixed message
//! record the driver exchanges, its translation to and from [`Message`], the
//! driver's timestamp pair, its status-bit classification, and the table of
//! supported bitrates.
//!
//! The driver itself is a shared library spoken to over a C function table;
//! issuing those calls is left to the caller. Everything here is plain
//! computation on the records and status words those calls produce.

use vstd::prelude::*;
use vstd::slice::slice_subrange;

use crate::wire::{lemma_div_mod_parts, zero_pad8};
use crate::{frame_error_to_error, CanFrameError, Message, MessageView, RemoteFrameView};

verus! {

/// A driver channel handle.
pub type Handle = u16;

/// Status bit: the transmit buffer is full.
pub const PCAN_ERROR_XMTFULL: u32 = 0x1;

/// Status bit: a receive buffer was overrun.
pub const PCAN_ERROR_OVERRUN: u32 = 0x2;

/// Status bit: bus error, light warning limit reached.
pub const PCAN_ERROR_BUSLIGHT: u32 = 0x4;

/// Status bit: bus error, heavy warning limit reached.
pub const PCAN_ERROR_BUSHEAVY: u32 = 0x8;

/// Status bit: the controller is in bus-off state.
pub const PCAN_ERROR_BUSOFF: u32 = 0x10;

/// Status bit: the receive queue is empty.
pub const PCAN_ERROR_QRCVEMPTY: u32 = 0x20;

/// Status bit: the controller is error-passive.
pub const PCAN_ERROR_BUSPASSIVE: u32 = 0x4_0000;

/// All bus-health status bits together.
pub const PCAN_ERROR_ANYBUSERR: u32 = 0x4_001C;

/// Status value: the channel is already initialized (or was never
/// initialized, when reported by a teardown call).
pub const PCAN_ERROR_INITIALIZE: u32 = 0x400_0000;

/// Message-type bit: the record is a remote-frame request.
pub const PCAN_MESSAGE_RTR: u8 = 0x1;

/// Message-type bit: the record uses extended 29-bit addressing.
pub const PCAN_MESSAGE_EXTENDED: u8 = 0x2;

/// Whether `bitrate`, in bits per second, is one of the rates the driver can
/// be initialized with.
pub open spec fn supported_bitrate(bitrate: u32) -> bool {
    ||| bitrate == 5000
    ||| bitrate == 10000
    ||| bitrate == 20000
    ||| bitrate == 33000
    ||| bitrate == 47000
    ||| bitrate == 50000
    ||| bitrate == 83000
    ||| bitrate == 95000
    ||| bitrate == 100000
    ||| bitrate == 125000
    ||| bitrate == 250000
    ||| bitrate == 500000
    ||| bitrate == 800000
    ||| bitrate == 1000000
}

/// The driver's register code for a supported bitrate.
pub open spec fn baud_code(bitrate: u32) -> u16
    recommends
        supported_bitrate(bitrate),
{
    if bitrate == 5000 {
        0x7F7F
    } else if bitrate == 10000 {
        0x672F
    } else if bitrate == 20000 {
        0x532F
    } else if bitrate == 33000 {
        0x8B2F
    } else if bitrate == 47000 {
        0x1414
    } else if bitrate == 50000 {
        0x472F
    } else if bitrate == 83000 {
        0x852B
    } else if bitrate == 95000 {
        0xC34E
    } else if bitrate == 100000 {
        0x432F
    } else if bitrate == 125000 {
        0x031C
    } else if bitrate == 250000 {
        0x011C
    } else if bitrate == 500000 {
        0x001C
    } else if bitrate == 800000 {
        0x0016
    } else {
        0x0014
    }
}

/// Map a bitrate to the driver's register code; any value outside the fixed
/// supported set is rejected before it could reach a driver call.
pub fn get_baud(bitrate: u32) -> (r: Result<u16, crate::Error>)
    ensures
        r is Ok <==> supported_bitrate(bitrate),
        r matches Ok(c) ==> c == baud_code(bitrate),
        r matches Err(e) ==> e is InvalidBitRate,
{
    let ret: u16 = match bitrate {
        5000 => 0x7F7F,
        10000 => 0x672F,
        20000 => 0x532F,
        33000 => 0x8B2F,
        47000 => 0x1414,
        50000 => 0x472F,
        83000 => 0x852B,
        95000 => 0xC34E,
        100000 => 0x432F,
        125000 => 0x031C,
        250000 => 0x011C,
        500000 => 0x001C,
        800000 => 0x0016,
        1000000 => 0x0014,
        _ => {
            return Err(crate::Error::InvalidBitRate);
        },
    };
    Ok(ret)
}

/// The fixed message record the driver reads and writes: an identifier, a
/// type-flag byte, a declared length and an 8-byte payload buffer.
pub struct PCanMessage {
    pub id: u32,
    pub tp: u8,
    pub len: u8,
    pub data: Vec<u8>,
}

impl PCanMessage {
    /// The record's payload buffer always holds exactly 8 bytes.
    pub open spec fn wf(self) -> bool {
        self.data@.len() == 8
    }
}

/// The type-flag byte of a message: bit 1 selects extended addressing, bit 0
/// marks a remote-frame request.
pub open spec fn type_flags(m: MessageView) -> u8 {
    ((if m.ext_id() {
        PCAN_MESSAGE_EXTENDED as int
    } else {
        0int
    }) + (if m.is_remote() {
        PCAN_MESSAGE_RTR as int
    } else {
        0int
    })) as u8
}

/// The message read back from a driver record, validated exactly as the
/// message constructors validate: the identifier against the addressing mode
/// and the declared length against the 8-byte maximum.
pub open spec fn pcan_decode(id: u32, tp: u8, len: u8, data: Seq<u8>) -> Result<
    MessageView,
    CanFrameError,
> {
    let ext_id = (tp / 2) % 2 == 1;
    let rtr = tp % 2 == 1;
    if !crate::id_in_range(id, ext_id) {
        Err(CanFrameError::IdTooLong)
    } else if len > 8 {
        Err(CanFrameError::DataTooLong)
    } else if rtr {
        Ok(MessageView::Remote(RemoteFrameView { id, ext_id, dlc: len }))
    } else {
        Ok(MessageView::Data(crate::DataFrameView { id, ext_id, data: data.take(len as int) }))
    }
}

impl PCanMessage {
    /// Build the driver record for a message.
    pub fn from_message(msg: Message) -> (r: Result<PCanMessage, CanFrameError>)
        requires
            msg@.valid(),
        ensures
            r matches Ok(pm) && pm.wf() && pm.id == msg@.id() && pm.tp == type_flags(msg@)
                && pm.len == msg@.dlc() && pm.data@ == zero_pad8(msg@.data()),
    {
        let id = msg.id();
        let ext_id = msg.ext_id();
        let len = msg.dlc();
        let rtr = match &msg {
            Message::Data(_) => false,
            Message::Remote(_) => true,
        };
        let tp: u8 = (if ext_id {
            2u8
        } else {
            0u8
        }) + (if rtr {
            1u8
        } else {
            0u8
        });
        let mut data: Vec<u8> = Vec::new();
        match &msg {
            Message::Data(f) => {
                let payload = f.data();
                let mut i: usize = 0;
                while i < 8
                    invariant
                        i <= 8,
                        payload@.len() <= 8,
                        data@ =~= Seq::new(
                            i as nat,
                            |k: int| if k < payload@.len() {
                                payload@[k]
                            } else {
                                0u8
                            },
                        ),
                    decreases 8 - i,
                {
                    if i < payload.len() {
                        data.push(payload[i]);
                    } else {
                        data.push(0u8);
                    }
                    i += 1;
                }
                assert(data@ =~= zero_pad8(msg@.data()));
            },
            Message::Remote(_) => {
                let mut i: usize = 0;
                while i < 8
                    invariant
                        i <= 8,
                        data@ =~= Seq::new(i as nat, |k: int| 0u8),
                    decreases 8 - i,
                {
                    data.push(0u8);
                    i += 1;
                }
                assert(data@ =~= zero_pad8(msg@.data()));
            },
        }
        Ok(PCanMessage { id, tp, len, data })
    }

    /// Read the record back as a message; fails where the record's fields
    /// would not form a valid message.
    pub fn into_message(self) -> (r: Result<Message, crate::Error>)
        requires
            self.wf(),
        ensures
            r matches Ok(m) ==> pcan_decode(self.id, self.tp, self.len, self.data@) == Ok::<
                MessageView,
                CanFrameError,
            >(m@) && m@.valid(),
            r matches Err(e) ==> pcan_decode(self.id, self.tp, self.len, self.data@) matches Err(
                fe,
            ) && e == frame_error_to_error(fe),
    {
        let ext_id = (self.tp / 2) % 2 == 1;
        let rtr = self.tp % 2 == 1;
        if rtr {
            match Message::new_remote(self.id, ext_id, self.len) {
                Ok(m) => Ok(m),
                Err(e) => Err(crate::Error::from(e)),
            }
        } else {
            if self.len > 8 {
                match CanFrameError::validate_id(self.id, ext_id) {
                    Ok(()) => Err(crate::Error::DataTooLong),
                    Err(e) => Err(crate::Error::from(e)),
                }
            } else {
                let payload = slice_subrange(self.data.as_slice(), 0, self.len as usize);
                proof {
                    assert(self.data@.subrange(0, self.len as int) =~= self.data@.take(
                        self.len as int,
                    ));
                }
                match Message::new_data(self.id, ext_id, payload) {
                    Ok(m) => Ok(m),
                    Err(e) => Err(crate::Error::from(e)),
                }
            }
        }
    }
}

/// Building a record from a valid message and reading it back yields the
/// message again.
pub proof fn lemma_pcan_round_trip(m: MessageView)
    requires
        m.valid(),
    ensures
        pcan_decode(m.id(), type_flags(m), m.dlc() as u8, zero_pad8(m.data())) == Ok::<
            MessageView,
            CanFrameError,
        >(m),
{
    let e1: int = if m.ext_id() {
        1int
    } else {
        0int
    };
    let r1: int = if m.is_remote() {
        1int
    } else {
        0int
    };
    let tp = type_flags(m) as int;
    assert(tp == e1 * 2 + r1);
    lemma_div_mod_parts(tp, 2, e1, r1);
    lemma_div_mod_parts(e1, 2, 0, e1);
    match m {
        MessageView::Data(f) => {
            assert(zero_pad8(f.data).take(f.data.len() as int) =~= f.data);
            assert(pcan_decode(m.id(), type_flags(m), m.dlc() as u8, zero_pad8(m.data()))
                matches Ok(m2) && m2 =~~= m);
        },
        MessageView::Remote(f) => {
            assert(pcan_decode(m.id(), type_flags(m), m.dlc() as u8, zero_pad8(m.data()))
                matches Ok(m2) && m2 =~~= m);
        },
    }
}

/// The driver's record filter: a record read from the driver is a CAN
/// message only when its type byte carries no flags beyond addressing and
/// remote-request, or is zero (a plain standard data frame).
pub fn accept_read_record(tp: u8) -> (r: bool)
    ensures
        r == (tp % 4 > 0 || tp == 0),
{
    tp % 4 > 0 || tp == 0
}

/// The driver's two-part timestamp: milliseconds plus residual microseconds.
pub struct Timestamp {
    pub millis: u32,
    pub millis_overflow: u16,
    pub micros: u16,
}

impl From<Timestamp> for crate::Timestamp {
    fn from(val: Timestamp) -> (r: crate::Timestamp) {
        crate::Timestamp { micros: (val.millis as u64) * 1000 + (val.micros as u64) }
    }
}

impl vstd::std_specs::convert::FromSpecImpl<Timestamp> for crate::Timestamp {
    open spec fn obeys_from_spec() -> bool {
        true
    }

    open spec fn from_spec(val: Timestamp) -> crate::Timestamp {
        crate::Timestamp { micros: (val.millis * 1000 + val.micros) as u64 }
    }
}

/// A nonzero driver status word.
pub struct Error {
    pub code: u32,
}

/// The bus-health bits of a status word.
pub open spec fn spec_bus_error(code: u32) -> u32 {
    code & PCAN_ERROR_ANYBUSERR
}

/// The bits of a status word beyond bus health, transmit-buffer-full,
/// receive overrun and receive-queue-empty.
pub open spec fn spec_other_error(code: u32) -> u32 {
    code & !(PCAN_ERROR_ANYBUSERR | PCAN_ERROR_XMTFULL | PCAN_ERROR_OVERRUN
        | PCAN_ERROR_QRCVEMPTY)
}

impl Error {
    /// A status word as an error: zero means success.
    pub fn new(status: u32) -> (r: Option<Error>)
        ensures
            r is Some <==> status != 0,
            r matches Some(e) ==> e.code == status,
    {
        if status == 0 {
            None
        } else {
            Some(Error { code: status })
        }
    }

    /// A status word as a result: zero means success.
    pub fn result(status: u32) -> (r: Result<(), Error>)
        ensures
            r is Ok <==> status == 0,
            r matches Err(e) ==> e.code == status,
    {
        if status == 0 {
            Ok(())
        } else {
            Err(Error { code: status })
        }
    }

    /// The bus-health bits of this status.
    pub fn bus_error(&self) -> (r: u32)
        ensures
            r == spec_bus_error(self.code),
    {
        self.code & PCAN_ERROR_ANYBUSERR
    }

    /// The bits of this status beyond the individually handled conditions.
    pub fn other_error(&self) -> (r: u32)
        ensures
            r == spec_other_error(self.code),
    {
        self.code & !(PCAN_ERROR_ANYBUSERR | PCAN_ERROR_XMTFULL | PCAN_ERROR_OVERRUN
            | PCAN_ERROR_QRCVEMPTY)
    }

    /// Whether a receive buffer was overrun.
    pub fn rx_overflow(&self) -> (r: bool)
        ensures
            r == (self.code & PCAN_ERROR_OVERRUN > 0),
    {
        self.code & PCAN_ERROR_OVERRUN > 0
    }

    /// Whether the transmit buffer is full.
    pub fn tx_overflow(&self) -> (r: bool)
        ensures
            r == (self.code & PCAN_ERROR_XMTFULL > 0),
    {
        self.code & PCAN_ERROR_XMTFULL > 0
    }

    /// Whether the receive queue is empty.
    pub fn rx_empty(&self) -> (r: bool)
        ensures
            r == (self.code & PCAN_ERROR_QRCVEMPTY > 0),
    {
        self.code & PCAN_ERROR_QRCVEMPTY > 0
    }
}

/// The bus-health classification of a status word, most severe first.
pub open spec fn spec_parse_bus_error(err: u32) -> crate::BusError
    recommends
        spec_bus_error(err) != 0,
{
    if err & PCAN_ERROR_BUSOFF > 0 {
        crate::BusError::Off
    } else if err & PCAN_ERROR_BUSPASSIVE > 0 {
        crate::BusError::Passive
    } else if err & PCAN_ERROR_BUSHEAVY > 0 {
        crate::BusError::HeavyWarning
    } else {
        crate::BusError::LightWarning
    }
}

/// Classify the bus-health bits of a status word into the bus-error taxonomy.
pub fn parse_bus_error(err: u32) -> (r: crate::BusError)
    requires
        spec_bus_error(err) != 0,
    ensures
        r == spec_parse_bus_error(err),
{
    if err & PCAN_ERROR_BUSOFF > 0 {
        crate::BusError::Off
    } else if err & PCAN_ERROR_BUSPASSIVE > 0 {
        crate::BusError::Passive
    } else if err & PCAN_ERROR_BUSHEAVY > 0 {
        crate::BusError::HeavyWarning
    } else if err & PCAN_ERROR_BUSLIGHT > 0 {
        crate::BusError::LightWarning
    } else {
        proof {
            assert(!(err & 0x10 > 0) && !(err & 0x4_0000 > 0) && !(err & 0x8 > 0) && !(err & 0x4
                > 0) ==> err & 0x4_001C == 0) by (bit_vector);
        }
        crate::BusError::LightWarning
    }
}

} // verus!
