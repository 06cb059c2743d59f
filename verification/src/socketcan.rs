//! The wire codec for the kernel CAN socket, and device-list helpers.
//!
//! A kernel CAN socket exchanges fixed 16-byte frames: a 32-bit identifier
//! word whose bit 31 flags extended addressing, bit 30 flags a remote-frame
//! request and bit 29 is reserved for an error indicator (tolerated but never
//! produced here), with the numeric identifier in the low 29 bits; then a
//! data-length byte, three reserved bytes, and 8 payload bytes. The
//! identifier word is stored least significant byte first, matching the
//! kernel's in-memory layout on the usual targets.
//!
//! The functions here translate between [`Message`] values and such frames;
//! reading and writing the socket itself, and talking to the link-management
//! service for device listing and up/down toggling, are left to the caller.

use vstd::prelude::*;
use vstd::pervasive::unreached;
use vstd::slice::slice_subrange;

use crate::wire::{
    lemma_div_mod_parts, lemma_le_round_trip, u32_from_le, u32_le_bytes, zero_pad8,
};

use crate::{CanFrameError, DeviceInfo, Message, MessageView, RemoteFrameView};

verus! {

/// Number of bytes in one socket frame.
pub const FRAME_LEN: usize = 16;

/// Identifier-word flag for extended (29-bit) addressing.
pub const CAN_EFF_FLAG: u32 = 0x8000_0000;

/// Identifier-word flag for a remote-frame request.
pub const CAN_RTR_FLAG: u32 = 0x4000_0000;

/// Identifier-word flag reserved for an error indicator.
pub const CAN_ERR_FLAG: u32 = 0x2000_0000;

/// The identifier word of a message: the numeric identifier with the
/// extended-addressing and remote-frame flags folded into the top bits.
pub open spec fn raw_id(m: MessageView) -> u32 {
    (m.id() + (if m.ext_id() {
        CAN_EFF_FLAG as int
    } else {
        0int
    }) + (if m.is_remote() {
        CAN_RTR_FLAG as int
    } else {
        0int
    })) as u32
}

/// The 16-byte socket encoding of a message.
pub open spec fn sc_encode(m: MessageView) -> Seq<u8> {
    u32_le_bytes(raw_id(m)) + seq![(m.dlc() as u8), 0u8, 0u8, 0u8] + zero_pad8(m.data())
}

/// The message read back from a 16-byte socket frame. The identifier is
/// masked to the width selected by the extended-addressing flag, which also
/// discards a set error-indicator bit; only a declared length over 8 is
/// rejected.
pub open spec fn sc_decode(b: Seq<u8>) -> Result<MessageView, CanFrameError>
    recommends
        b.len() == FRAME_LEN,
{
    let raw = u32_from_le(b[0], b[1], b[2], b[3]);
    let ext_id = raw / 0x8000_0000 == 1;
    let rtr = (raw / 0x4000_0000) % 2 == 1;
    let id = if ext_id {
        (raw % 0x2000_0000) as u32
    } else {
        (raw % 0x800) as u32
    };
    let dlc = b[4];
    if dlc > 8 {
        Err(CanFrameError::DataTooLong)
    } else if rtr {
        Ok(MessageView::Remote(RemoteFrameView { id, ext_id, dlc }))
    } else {
        Ok(
            MessageView::Data(
                crate::DataFrameView { id, ext_id, data: b.subrange(8, 8 + dlc as int) },
            ),
        )
    }
}

/// Serialize a message into its 16-byte socket frame.
pub fn encode_frame(msg: &Message) -> (r: Vec<u8>)
    requires
        msg@.valid(),
    ensures
        r@ == sc_encode(msg@),
        r@.len() == FRAME_LEN,
{
    let id = msg.id();
    let ext_id = msg.ext_id();
    let dlc = msg.dlc();
    let rtr = match msg {
        Message::Data(_) => false,
        Message::Remote(_) => true,
    };
    let raw: u32 = id + (if ext_id {
        0x8000_0000u32
    } else {
        0u32
    }) + (if rtr {
        0x4000_0000u32
    } else {
        0u32
    });
    let mut buf: Vec<u8> = Vec::new();
    buf.push((raw % 0x100) as u8);
    buf.push(((raw / 0x100) % 0x100) as u8);
    buf.push(((raw / 0x1_0000) % 0x100) as u8);
    buf.push((raw / 0x100_0000) as u8);
    buf.push(dlc);
    buf.push(0u8);
    buf.push(0u8);
    buf.push(0u8);
    let ghost hdr = u32_le_bytes(raw_id(msg@)) + seq![(msg@.dlc() as u8), 0u8, 0u8, 0u8];
    assert(buf@ =~= hdr);
    match msg {
        Message::Data(f) => {
            let data = f.data();
            let mut i: usize = 0;
            while i < 8
                invariant
                    i <= 8,
                    data@.len() <= 8,
                    buf@ =~= hdr + Seq::new(
                        i as nat,
                        |k: int| if k < data@.len() {
                            data@[k]
                        } else {
                            0u8
                        },
                    ),
                decreases 8 - i,
            {
                if i < data.len() {
                    buf.push(data[i]);
                } else {
                    buf.push(0u8);
                }
                i += 1;
            }
            assert(buf@ =~= hdr + zero_pad8(msg@.data()));
        }
        Message::Remote(_) => {
            let mut i: usize = 0;
            while i < 8
                invariant
                    i <= 8,
                    buf@ =~= hdr + Seq::new(i as nat, |k: int| 0u8),
                decreases 8 - i,
            {
                buf.push(0u8);
                i += 1;
            }
            assert(buf@ =~= hdr + zero_pad8(msg@.data()));
        }
    }
    buf
}

/// Reconstruct a message from a 16-byte socket frame.
pub fn decode_frame(buf: &[u8]) -> (r: Result<Message, CanFrameError>)
    requires
        buf@.len() == FRAME_LEN,
    ensures
        r matches Ok(m) ==> sc_decode(buf@) == Ok::<MessageView, CanFrameError>(m@) && m@.valid(),
        r matches Err(e) ==> sc_decode(buf@) == Err::<MessageView, CanFrameError>(e),
{
    let raw: u32 = (buf[0] as u32) + (buf[1] as u32) * 0x100 + (buf[2] as u32) * 0x1_0000 + (
    buf[3] as u32) * 0x100_0000;
    let ext_id = raw / 0x8000_0000 == 1;
    let rtr = (raw / 0x4000_0000) % 2 == 1;
    let id: u32 = if ext_id {
        raw % 0x2000_0000
    } else {
        raw % 0x800
    };
    let dlc = buf[4];
    if dlc > 8 {
        return Err(CanFrameError::DataTooLong);
    }
    if rtr {
        match Message::new_remote(id, ext_id, dlc) {
            Ok(m) => Ok(m),
            Err(_) => unreached(),
        }
    } else {
        let data = slice_subrange(buf, 8, 8 + dlc as usize);
        match Message::new_data(id, ext_id, data) {
            Ok(m) => Ok(m),
            Err(_) => unreached(),
        }
    }
}

/// Encoding a valid message to the 16-byte socket frame and decoding the
/// frame yields the message again.
pub proof fn lemma_socket_round_trip(m: MessageView)
    requires
        m.valid(),
    ensures
        sc_decode(sc_encode(m)) == Ok::<MessageView, CanFrameError>(m),
{
    let b = sc_encode(m);
    let e1: int = if m.ext_id() {
        1int
    } else {
        0int
    };
    let r1: int = if m.is_remote() {
        1int
    } else {
        0int
    };
    let id = m.id() as int;
    let raw = raw_id(m) as int;
    assert(raw == id + e1 * 0x8000_0000 + r1 * 0x4000_0000);
    lemma_le_round_trip(raw_id(m));
    assert(u32_from_le(b[0], b[1], b[2], b[3]) == raw_id(m));
    lemma_div_mod_parts(raw, 0x8000_0000, e1, id + r1 * 0x4000_0000);
    lemma_div_mod_parts(raw, 0x4000_0000, e1 * 2 + r1, id);
    lemma_div_mod_parts(e1 * 2 + r1, 2, e1, r1);
    if m.ext_id() {
        lemma_div_mod_parts(raw, 0x2000_0000, e1 * 4 + r1 * 2, id);
    } else {
        lemma_div_mod_parts(raw, 0x800, e1 * 0x10_0000 + r1 * 0x8_0000, id);
    }
    match m {
        MessageView::Data(f) => {
            assert(b[4] == m.dlc() as u8);
            assert(b.subrange(8, 8 + f.data.len() as int) =~= f.data);
            assert(sc_decode(b) matches Ok(m2) && m2 =~~= m);
        }
        MessageView::Remote(f) => {
            assert(sc_decode(b) matches Ok(m2) && m2 =~~= m);
        }
    }
}

/// Find the first listed device with the given interface name and return its
/// numeric index.
pub fn find_device_index(devices: &Vec<DeviceInfo>, name: &String) -> (r: Option<u32>)
    ensures
        r is None ==> forall|i: int|
            0 <= i < devices@.len() ==> devices@[i].interface_name@ != name@,
        r matches Some(ix) ==> exists|i: int|
            0 <= i < devices@.len() && devices@[i].interface_name@ == name@
                && devices@[i].index == ix && (forall|j: int|
                0 <= j < i ==> devices@[j].interface_name@ != name@),
{
    let mut i: usize = 0;
    while i < devices.len()
        invariant
            i <= devices@.len(),
            forall|j: int| 0 <= j < i ==> devices@[j].interface_name@ != name@,
        decreases devices@.len() - i,
    {
        if devices[i].interface_name == *name {
            return Some(devices[i].index);
        }
        i += 1;
    }
    None
}

} // verus!
