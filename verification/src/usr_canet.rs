//! The wire codec for a TCP-to-CAN gateway device.
//!
//! The device frames each CAN message in a fixed 13-byte record on top of a
//! TCP stream: byte 0 carries the extended-addressing flag (bit 7), the
//! remote-frame flag (bit 6) and the data length (bits 3-0); bytes 1-4 hold
//! the 32-bit identifier in big-endian order; bytes 5-12 hold up to 8 payload
//! bytes, zero-padded.
//!
//! The functions here translate between [`Message`] values and such records;
//! moving the records over a TCP stream is left to the caller.

use vstd::prelude::*;
use vstd::slice::slice_subrange;

use crate::wire::{
    lemma_be_round_trip, lemma_div_mod_parts, u32_be_bytes, u32_from_be, zero_pad8,
};

use crate::{CanFrameError, Message, MessageView, RemoteFrameView, id_in_range, CAN_MAX_DLC};

verus! {

/// Number of bytes in one gateway frame.
pub const FRAME_LEN: usize = 13;

/// The first byte of a gateway frame: flags and data length combined.
pub open spec fn flags_byte(m: MessageView) -> u8 {
    ((if m.ext_id() {
        0x80int
    } else {
        0int
    }) + (if m.is_remote() {
        0x40int
    } else {
        0int
    }) + m.dlc()) as u8
}

/// The 13-byte gateway encoding of a message.
pub open spec fn gw_encode(m: MessageView) -> Seq<u8> {
    seq![flags_byte(m)] + u32_be_bytes(m.id()) + zero_pad8(m.data())
}

/// The message read back from a 13-byte gateway record: the identifier is
/// validated against the addressing mode and the data length against the
/// 8-byte maximum, exactly as the message constructors do.
pub open spec fn gw_decode(b: Seq<u8>) -> Result<MessageView, CanFrameError>
    recommends
        b.len() == FRAME_LEN,
{
    let ext_id = b[0] / 0x80 == 1;
    let rtr = (b[0] / 0x40) % 2 == 1;
    let dlc = (b[0] % 0x10) as u8;
    let id = u32_from_be(b[1], b[2], b[3], b[4]);
    if !id_in_range(id, ext_id) {
        Err(CanFrameError::IdTooLong)
    } else if dlc > 8 {
        Err(CanFrameError::DataTooLong)
    } else if rtr {
        Ok(MessageView::Remote(RemoteFrameView { id, ext_id, dlc }))
    } else {
        Ok(
            MessageView::Data(
                crate::DataFrameView { id, ext_id, data: b.subrange(5, 5 + dlc as int) },
            ),
        )
    }
}

/// Serialize a message into its 13-byte gateway record.
pub fn encode_frame(msg: &Message) -> (r: Vec<u8>)
    requires
        msg@.valid(),
    ensures
        r@ == gw_encode(msg@),
        r@.len() == FRAME_LEN,
{
    let id = msg.id();
    let ext_id = msg.ext_id();
    let dlc = msg.dlc();
    let rtr = match msg {
        Message::Data(_) => false,
        Message::Remote(_) => true,
    };
    let b0: u8 = (if ext_id {
        0x80u8
    } else {
        0u8
    }) + (if rtr {
        0x40u8
    } else {
        0u8
    }) + dlc;
    let mut buf: Vec<u8> = Vec::new();
    buf.push(b0);
    buf.push((id / 0x100_0000) as u8);
    buf.push(((id / 0x1_0000) % 0x100) as u8);
    buf.push(((id / 0x100) % 0x100) as u8);
    buf.push((id % 0x100) as u8);
    let ghost hdr = seq![flags_byte(msg@)] + u32_be_bytes(msg@.id());
    assert(buf@ =~= hdr);
    match msg {
        Message::Data(f) => {
            let data = f.data();
            let mut i: usize = 0;
            while i < 8
                invariant
                    i <= 8,
                    data@.len() <= 8,
                    buf@ =~= hdr + Seq::new(
                        i as nat,
                        |k: int| if k < data@.len() {
                            data@[k]
                        } else {
                            0u8
                        },
                    ),
                decreases 8 - i,
            {
                if i < data.len() {
                    buf.push(data[i]);
                } else {
                    buf.push(0u8);
                }
                i += 1;
            }
            assert(buf@ =~= hdr + zero_pad8(msg@.data()));
        }
        Message::Remote(_) => {
            let mut i: usize = 0;
            while i < 8
                invariant
                    i <= 8,
                    buf@ =~= hdr + Seq::new(i as nat, |k: int| 0u8),
                decreases 8 - i,
            {
                buf.push(0u8);
                i += 1;
            }
            assert(buf@ =~= hdr + zero_pad8(msg@.data()));
        }
    }
    buf
}

/// Reconstruct a message from a 13-byte gateway record.
pub fn decode_frame(buf: &[u8]) -> (r: Result<Message, CanFrameError>)
    requires
        buf@.len() == FRAME_LEN,
    ensures
        r matches Ok(m) ==> gw_decode(buf@) == Ok::<MessageView, CanFrameError>(m@) && m@.valid(),
        r matches Err(e) ==> gw_decode(buf@) == Err::<MessageView, CanFrameError>(e),
{
    let b0 = buf[0];
    let ext_id = b0 / 0x80 == 1;
    let rtr = (b0 / 0x40) % 2 == 1;
    let dlc = b0 % 0x10;
    let id: u32 = (buf[1] as u32) * 0x100_0000 + (buf[2] as u32) * 0x1_0000 + (buf[3] as u32)
        * 0x100 + (buf[4] as u32);
    if rtr {
        Message::new_remote(id, ext_id, dlc)
    } else {
        if dlc as usize > CAN_MAX_DLC {
            match CanFrameError::validate_id(id, ext_id) {
                Ok(()) => Err(CanFrameError::DataTooLong),
                Err(e) => Err(e),
            }
        } else {
            let data = slice_subrange(buf, 5, 5 + dlc as usize);
            Message::new_data(id, ext_id, data)
        }
    }
}

/// Encoding a valid message to the 13-byte gateway record and decoding the
/// record yields the message again.
pub proof fn lemma_gateway_round_trip(m: MessageView)
    requires
        m.valid(),
    ensures
        gw_decode(gw_encode(m)) == Ok::<MessageView, CanFrameError>(m),
{
    let b = gw_encode(m);
    let e: int = if m.ext_id() {
        0x80
    } else {
        0
    };
    let r: int = if m.is_remote() {
        0x40
    } else {
        0
    };
    let d = m.dlc();
    assert(b[0] == (e + r + d) as u8);
    lemma_div_mod_parts(e + r + d, 0x80, if m.ext_id() { 1int } else { 0int }, r + d);
    lemma_div_mod_parts(
        e + r + d,
        0x40,
        (if m.ext_id() {
            2int
        } else {
            0int
        }) + (if m.is_remote() {
            1int
        } else {
            0int
        }),
        d,
    );
    lemma_div_mod_parts(
        (if m.ext_id() {
            2int
        } else {
            0int
        }) + (if m.is_remote() {
            1int
        } else {
            0int
        }),
        2,
        if m.ext_id() {
            1int
        } else {
            0int
        },
        if m.is_remote() {
            1int
        } else {
            0int
        },
    );
    lemma_div_mod_parts(
        e + r + d,
        0x10,
        (if m.ext_id() {
            8int
        } else {
            0int
        }) + (if m.is_remote() {
            4int
        } else {
            0int
        }),
        d,
    );
    lemma_be_round_trip(m.id());
    assert(u32_from_be(b[1], b[2], b[3], b[4]) == m.id());
    match m {
        MessageView::Data(f) => {
            assert(b.subrange(5, 5 + d) =~= f.data);
            assert(gw_decode(b) matches Ok(m2) && m2 =~~= m);
        }
        MessageView::Remote(f) => {
            assert(gw_decode(b) matches Ok(m2) && m2 =~~= m);
        }
    }
}

} // verus!
