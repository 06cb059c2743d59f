//! The vendor-driver transport's decision logic.
//!
//! The vendor driver is a synchronous, handle-based C API: it can read one
//! frame or report not-ready, and nothing more. Everything the transport
//! decides around those calls is here, as plain functions from status words
//! and records to the next action: resolving textual interface names
//! ("usb1".."usb8", "pci1".."pci8") to channel handles, validating the
//! bitrate before any driver call, classifying a read's outcome into
//! deliver / report / wait / leave, mapping write failures into the error
//! taxonomy, and treating an already-initialized channel as success. The
//! caller owns the driver handle, the worker thread and the wake primitive,
//! and consults these functions at each step.

use vstd::prelude::*;

use crate::{Message, MessageView, Timestamp};

pub mod api;

use api::Handle;

verus! {

/// The driver handle of the first USB channel sits at this offset above the
/// 1-based interface number.
pub const USB_HANDLE_OFFSET: u16 = 0x50;

/// The driver handle of the first PCI channel sits at this offset above the
/// 1-based interface number.
pub const PCI_HANDLE_OFFSET: u16 = 0x40;

/// Whether `c` is a decimal digit.
pub open spec fn is_digit_char(c: char) -> bool {
    48 <= c as u32 <= 57
}

/// The numeric value of a decimal digit.
pub open spec fn digit_value(c: char) -> int {
    c as u32 - 48
}

/// The number written by a sequence of decimal digits, most significant
/// first.
pub open spec fn digits_value(s: Seq<char>) -> int
    decreases s.len(),
{
    if s.len() == 0 {
        0
    } else {
        digits_value(s.drop_last()) * 10 + digit_value(s.last())
    }
}

/// Whether every character of `s` is a decimal digit.
pub open spec fn all_digits(s: Seq<char>) -> bool {
    forall|i: int| 0 <= i < s.len() ==> is_digit_char(#[trigger] s[i])
}

/// The number parsed from `s` as the standard library parses an unsigned
/// integer: an optional leading plus sign, then at least one digit, with the
/// value within the 16-bit range.
pub open spec fn parse_number(s: Seq<char>) -> Option<u16> {
    let t = if s.len() > 0 && s[0] == '+' {
        s.drop_first()
    } else {
        s
    };
    if t.len() > 0 && all_digits(t) && digits_value(t) <= 0xFFFF {
        Some(digits_value(t) as u16)
    } else {
        None
    }
}

/// Whether `s` starts with "usb" in any letter case.
pub open spec fn is_usb_name(s: Seq<char>) -> bool {
    s.len() >= 3 && (s[0] == 'u' || s[0] == 'U') && (s[1] == 's' || s[1] == 'S') && (s[2] == 'b'
        || s[2] == 'B')
}

/// Whether `s` starts with "pci" in any letter case.
pub open spec fn is_pci_name(s: Seq<char>) -> bool {
    s.len() >= 3 && (s[0] == 'p' || s[0] == 'P') && (s[1] == 'c' || s[1] == 'C') && (s[2] == 'i'
        || s[2] == 'I')
}

/// The driver channel handle an interface name resolves to: "usb1".."usb8"
/// and "pci1".."pci8", case-insensitively, with the number written as the
/// standard library accepts it.
pub open spec fn ifname_handle(s: Seq<char>) -> Option<Handle> {
    if is_usb_name(s) {
        match parse_number(s.skip(3)) {
            Some(num) => if 1 <= num <= 8 {
                Some((num + USB_HANDLE_OFFSET) as Handle)
            } else {
                None
            },
            None => None,
        }
    } else if is_pci_name(s) {
        match parse_number(s.skip(3)) {
            Some(num) => if 1 <= num <= 8 {
                Some((num + PCI_HANDLE_OFFSET) as Handle)
            } else {
                None
            },
            None => None,
        }
    } else {
        None
    }
}

/// A sequence of digits never writes a negative number.
proof fn lemma_digits_value_nonneg(s: Seq<char>)
    requires
        all_digits(s),
    ensures
        digits_value(s) >= 0,
    decreases s.len(),
{
    if s.len() > 0 {
        assert forall|i: int| 0 <= i < s.drop_last().len() implies is_digit_char(
            #[trigger] s.drop_last()[i],
        ) by {
            assert(s.drop_last()[i] == s[i]);
        }
        lemma_digits_value_nonneg(s.drop_last());
    }
}

/// Extending a digit sequence never shrinks the number it writes.
proof fn lemma_digits_prefix_le(s: Seq<char>, j: int)
    requires
        all_digits(s),
        0 <= j <= s.len(),
    ensures
        digits_value(s.take(j)) <= digits_value(s),
    decreases s.len() - j,
{
    if j == s.len() {
        assert(s.take(j) =~= s);
    } else {
        lemma_digits_prefix_le(s, j + 1);
        assert(s.take(j + 1).drop_last() =~= s.take(j));
        assert(s.take(j + 1).last() == s[j]);
        assert forall|i: int| 0 <= i < s.take(j).len() implies is_digit_char(
            #[trigger] s.take(j)[i],
        ) by {
            assert(s.take(j)[i] == s[i]);
        }
        lemma_digits_value_nonneg(s.take(j));
    }
}

/// Resolve an interface name to the driver's channel handle.
#[verifier::loop_isolation(false)]
pub fn parse_ifname(ifname: &str) -> (r: Result<Handle, crate::Error>)
    ensures
        r matches Ok(h) ==> ifname_handle(ifname@) == Some(h),
        r matches Err(e) ==> ifname_handle(ifname@) is None && e is InvalidInterfaceAddress,
{
    let n = ifname.unicode_len();
    if n < 3 {
        return Err(crate::Error::InvalidInterfaceAddress);
    }
    let c0 = ifname.get_char(0);
    let c1 = ifname.get_char(1);
    let c2 = ifname.get_char(2);
    let usb = (c0 == 'u' || c0 == 'U') && (c1 == 's' || c1 == 'S') && (c2 == 'b' || c2 == 'B');
    let pci = (c0 == 'p' || c0 == 'P') && (c1 == 'c' || c1 == 'C') && (c2 == 'i' || c2 == 'I');
    if !usb && !pci {
        return Err(crate::Error::InvalidInterfaceAddress);
    }
    let ghost s3 = ifname@.skip(3);
    let mut i: usize = 3;
    if i < n && ifname.get_char(i) == '+' {
        i += 1;
    }
    let start: usize = i;
    let ghost t = ifname@.skip(start as int);
    proof {
        if start == 4 {
            assert(s3[0] == ifname@[3]);
            assert(s3.drop_first() =~= t);
        }
    }
    if start == n {
        return Err(crate::Error::InvalidInterfaceAddress);
    }
    let mut acc: u32 = 0;
    while i < n
        invariant
            start <= i <= n,
            start == 3 || start == 4,
            start < n,
            n == ifname@.len(),
            t == ifname@.skip(start as int),
            t.len() == n - start,
            acc <= 0xFFFF,
            acc == digits_value(t.take((i - start) as int)),
            all_digits(t.take((i - start) as int)),
            parse_number(s3) == (if t.len() > 0 && all_digits(t) && digits_value(t) <= 0xFFFF {
                Some(digits_value(t) as u16)
            } else {
                None::<u16>
            }),
        decreases n - i,
    {
        let ghost k = (i - start) as int;
        let c = ifname.get_char(i);
        let cv: u32 = c as u32;
        proof {
            assert(t[k] == ifname@[i as int]);
        }
        if cv < 48 || cv > 57 {
            proof {
                assert(!is_digit_char(t[k]));
                assert(!all_digits(t));
                assert(ifname_handle(ifname@) is None);
            }
            return Err(crate::Error::InvalidInterfaceAddress);
        }
        let d: u32 = cv - 48;
        proof {
            assert(t.take(k + 1).drop_last() =~= t.take(k));
            assert(t.take(k + 1).last() == t[k]);
            assert(digits_value(t.take(k + 1)) == digits_value(t.take(k)) * 10 + digit_value(
                t[k],
            ));
            assert forall|j: int| 0 <= j < k + 1 implies is_digit_char(
                #[trigger] t.take(k + 1)[j],
            ) by {
                assert(t.take(k + 1)[j] == t[j]);
                if j < k {
                    assert(t.take(k)[j] == t[j]);
                }
            }
        }
        acc = acc * 10 + d;
        if acc > 0xFFFF {
            proof {
                if all_digits(t) {
                    lemma_digits_prefix_le(t, k + 1);
                    assert(digits_value(t) > 0xFFFF);
                }
                assert(ifname_handle(ifname@) is None);
            }
            return Err(crate::Error::InvalidInterfaceAddress);
        }
        i += 1;
    }
    proof {
        assert(t.take((n - start) as int) =~= t);
    }
    let num: u16 = acc as u16;
    if num == 0 || num > 8 {
        return Err(crate::Error::InvalidInterfaceAddress);
    }
    if usb {
        Ok(num + USB_HANDLE_OFFSET)
    } else {
        Ok(num + PCI_HANDLE_OFFSET)
    }
}

/// Validate a connection request: the bitrate against the fixed supported
/// set, then the interface name against the naming convention. Both checks
/// pass before anything may touch the driver, so an invalid request is
/// rejected without any driver call being made.
pub fn connect_plan(ifname: &str, bitrate: u32) -> (r: Result<(Handle, u16), crate::Error>)
    ensures
        r is Ok <==> api::supported_bitrate(bitrate) && ifname_handle(ifname@) is Some,
        r matches Ok(p) ==> ifname_handle(ifname@) == Some(p.0) && p.1 == api::baud_code(bitrate),
        r matches Err(e) ==> ((e is InvalidBitRate && !api::supported_bitrate(bitrate)) || (
        e is InvalidInterfaceAddress && api::supported_bitrate(bitrate) && ifname_handle(ifname@)
            is None)),
{
    let baud = match api::get_baud(bitrate) {
        Ok(b) => b,
        Err(e) => {
            return Err(e);
        },
    };
    let handle = match parse_ifname(ifname) {
        Ok(h) => h,
        Err(e) => {
            return Err(e);
        },
    };
    Ok((handle, baud))
}

/// Map an initialization or teardown status: success and "already
/// initialized" both count as success (an idempotent reconnect), anything
/// else is an initialization failure carrying the driver's description.
pub fn initialize_result(status: u32, desc: String) -> (r: Result<(), crate::Error>)
    ensures
        r is Ok <==> (status == 0 || status == api::PCAN_ERROR_INITIALIZE),
        r matches Err(e) ==> e == crate::Error::PCanInitFailed(status, desc),
{
    if status == 0 || status == api::PCAN_ERROR_INITIALIZE {
        Ok(())
    } else {
        Err(crate::Error::PCanInitFailed(status, desc))
    }
}

/// Whether a channel that reported its current nominal bitrate has to be
/// torn down before initialization: only when the report succeeded and the
/// bitrate differs from the requested one.
pub fn needs_reinitialize(speed_status: u32, current_bitrate: u32, bitrate: u32) -> (r: bool)
    ensures
        r == (speed_status == 0 && current_bitrate != bitrate),
{
    speed_status == 0 && current_bitrate != bitrate
}

/// What the receive worker does after one driver read.
pub enum ReceiveStep {
    /// Hand the consumer an error, a decoded message, both (the error first),
    /// or nothing, and poll again.
    Report { error: Option<crate::Error>, message: Option<(Message, Timestamp)> },
    /// Nothing to read: block on the waiter before polling again.
    WaitForEvent,
}

/// The message and receipt time a driver read handed over, if its record
/// decodes to a valid message.
pub open spec fn decoded_record(rec: Option<(api::PCanMessage, api::Timestamp)>) -> Option<
    (MessageView, Timestamp),
> {
    match rec {
        None => None,
        Some(p) => match api::pcan_decode(p.0.id, p.0.tp, p.0.len, p.0.data@) {
            Ok(mv) => Some((mv, Timestamp { micros: (p.1.millis * 1000 + p.1.micros) as u64 })),
            Err(_) => None,
        },
    }
}

/// Whether a delivered message-and-timestamp pair carries exactly the given
/// decoded content.
pub open spec fn delivered_matches(
    m: Option<(Message, Timestamp)>,
    v: Option<(MessageView, Timestamp)>,
) -> bool {
    match (m, v) {
        (Some(p), Some(q)) => p.0@ == q.0 && p.1 == q.1,
        (None, None) => true,
        _ => false,
    }
}

/// Decide what the receive worker does with the outcome of one driver read:
/// a failure beyond the individually handled conditions is reported (without
/// ending the loop), an empty or overrun receive queue sends the worker to
/// the waiter, any other failure is reported as a read failure, and a record
/// that decodes to a valid message is delivered after any report. `desc` is
/// the driver's description of `status`.
pub fn receive_step(
    status: u32,
    rec: Option<(api::PCanMessage, api::Timestamp)>,
    desc: String,
) -> (r: ReceiveStep)
    requires
        rec matches Some(p) ==> p.0.wf(),
    ensures
        status == 0 ==> (r matches ReceiveStep::Report { error, message } && error is None
            && delivered_matches(message, decoded_record(rec))),
        status != 0 && api::spec_other_error(status) != 0 ==> (r matches ReceiveStep::Report {
            error,
            message,
        } && error == Some(crate::Error::PCanReadFailed(api::spec_other_error(status), desc))
            && delivered_matches(message, decoded_record(rec))),
        status != 0 && api::spec_other_error(status) == 0 && (status & api::PCAN_ERROR_QRCVEMPTY
            > 0 || status & api::PCAN_ERROR_OVERRUN > 0) ==> r is WaitForEvent,
        status != 0 && api::spec_other_error(status) == 0 && !(status & api::PCAN_ERROR_QRCVEMPTY
            > 0) && !(status & api::PCAN_ERROR_OVERRUN > 0) ==> (r matches ReceiveStep::Report {
            error,
            message,
        } && error == Some(crate::Error::PCanReadFailed(status, desc)) && delivered_matches(
            message,
            decoded_record(rec),
        )),
{
    let message: Option<(Message, Timestamp)> = match rec {
        Some((pm, ts)) => {
            match pm.into_message() {
                Ok(m) => Some((m, crate::Timestamp::from(ts))),
                Err(_) => None,
            }
        },
        None => None,
    };
    if status == 0 {
        return ReceiveStep::Report { error: None, message };
    }
    let err = api::Error { code: status };
    let other = err.other_error();
    if other != 0 {
        ReceiveStep::Report {
            error: Some(crate::Error::PCanReadFailed(other, desc)),
            message,
        }
    } else if err.rx_empty() || err.rx_overflow() {
        ReceiveStep::WaitForEvent
    } else {
        ReceiveStep::Report {
            error: Some(crate::Error::PCanReadFailed(status, desc)),
            message,
        }
    }
}

/// What the receive worker does after blocking on the waiter.
pub enum WaitStep {
    /// A plain wake-up: poll the driver again.
    Retry,
    /// Cancellation was requested: leave the loop.
    Exit,
    /// The waiter failed: report the failure, then leave the loop.
    FailAndExit(crate::Error),
}

/// Decide what the receive worker does with the waiter's outcome. In
/// particular, a wake-up that reports cancellation always ends the loop.
pub fn wait_step(outcome: Result<bool, crate::Error>) -> (r: WaitStep)
    ensures
        outcome == Ok::<bool, crate::Error>(false) ==> r is Retry,
        outcome == Ok::<bool, crate::Error>(true) ==> r is Exit,
        outcome matches Err(e) ==> r == WaitStep::FailAndExit(e),
{
    match outcome {
        Ok(false) => WaitStep::Retry,
        Ok(true) => WaitStep::Exit,
        Err(e) => WaitStep::FailAndExit(e),
    }
}

/// Map a failed driver write into the error taxonomy: a failure beyond the
/// individually handled conditions is a write failure carrying the driver's
/// description of those bits, bus-health bits become the bus-error taxonomy,
/// a full transmit buffer becomes [`crate::Error::TransmitQueueFull`], and
/// anything else is an unknown write failure. `desc` is the driver's
/// description of the bits beyond the individually handled conditions.
pub fn map_write_error(status: u32, desc: String) -> (r: crate::Error)
    requires
        status != 0,
    ensures
        api::spec_other_error(status) != 0 ==> r == crate::Error::PCanWriteFailed(
            api::spec_other_error(status),
            desc,
        ),
        api::spec_other_error(status) == 0 && api::spec_bus_error(status) != 0 ==> r
            == crate::Error::BusError(api::spec_parse_bus_error(api::spec_bus_error(status))),
        api::spec_other_error(status) == 0 && api::spec_bus_error(status) == 0 && status
            & api::PCAN_ERROR_XMTFULL > 0 ==> r is TransmitQueueFull,
        api::spec_other_error(status) == 0 && api::spec_bus_error(status) == 0 && !(status
            & api::PCAN_ERROR_XMTFULL > 0) ==> (r matches crate::Error::PCanWriteFailed(c, s) && c
            == 0 && s@ == "Unknown Error"@),
{
    let err = api::Error { code: status };
    let other = err.other_error();
    if other != 0 {
        crate::Error::PCanWriteFailed(other, desc)
    } else {
        let bus = err.bus_error();
        if bus != 0 {
            proof {
                let st = status;
                assert((st & 0x4_001Cu32) & 0x4_001C == st & 0x4_001C) by (bit_vector);
            }
            crate::Error::BusError(api::parse_bus_error(bus))
        } else if err.tx_overflow() {
            crate::Error::TransmitQueueFull
        } else {
            crate::Error::PCanWriteFailed(0, "Unknown Error".to_owned())
        }
    }
}

/// Information about one attached driver channel.
#[derive(Clone, Debug)]
pub struct DeviceInfo {
    handle: Handle,
}

impl View for DeviceInfo {
    type V = Handle;

    closed spec fn view(&self) -> Handle {
        self.handle
    }
}

/// The interface name a driver channel handle maps back to, within the USB
/// and PCI channel ranges.
pub open spec fn spec_interface_name(h: Handle) -> Option<Seq<char>> {
    if h == 0x51 {
        Some("usb1"@)
    } else if h == 0x52 {
        Some("usb2"@)
    } else if h == 0x53 {
        Some("usb3"@)
    } else if h == 0x54 {
        Some("usb4"@)
    } else if h == 0x55 {
        Some("usb5"@)
    } else if h == 0x56 {
        Some("usb6"@)
    } else if h == 0x57 {
        Some("usb7"@)
    } else if h == 0x58 {
        Some("usb8"@)
    } else if h == 0x41 {
        Some("pci1"@)
    } else if h == 0x42 {
        Some("pci2"@)
    } else if h == 0x43 {
        Some("pci3"@)
    } else if h == 0x44 {
        Some("pci4"@)
    } else if h == 0x45 {
        Some("pci5"@)
    } else if h == 0x46 {
        Some("pci6"@)
    } else if h == 0x47 {
        Some("pci7"@)
    } else if h == 0x48 {
        Some("pci8"@)
    } else {
        None
    }
}

/// A four-character interface name whose last character is the digit of a
/// channel number resolves to the channel at that offset.
proof fn lemma_name_resolves(s: Seq<char>, num: u16)
    requires
        s.len() == 4,
        is_usb_name(s) || is_pci_name(s),
        is_digit_char(s[3]),
        digit_value(s[3]) == num,
        1 <= num <= 8,
    ensures
        is_usb_name(s) ==> ifname_handle(s) == Some((num + USB_HANDLE_OFFSET) as Handle),
        !is_usb_name(s) ==> ifname_handle(s) == Some((num + PCI_HANDLE_OFFSET) as Handle),
{
    let t = s.skip(3);
    assert(t.len() == 1);
    assert(t[0] == s[3]);
    assert(t[0] != '+');
    assert(t.drop_last() =~= Seq::<char>::empty());
    assert(digits_value(t.drop_last()) == 0);
    assert(digits_value(t) == num);
    assert forall|i: int| 0 <= i < t.len() implies is_digit_char(#[trigger] t[i]) by {
        assert(t[i] == s[3]);
    }
}

/// Every interface name the library prints for a channel is accepted back by
/// the name parser and resolves to the same channel handle.
pub proof fn lemma_interface_name_round_trip(h: Handle, s: Seq<char>)
    requires
        spec_interface_name(h) == Some(s),
    ensures
        ifname_handle(s) == Some(h),
{
    if h == 0x51 {
        reveal_strlit("usb1");
        lemma_name_resolves("usb1"@, 1);
    } else if h == 0x52 {
        reveal_strlit("usb2");
        lemma_name_resolves("usb2"@, 2);
    } else if h == 0x53 {
        reveal_strlit("usb3");
        lemma_name_resolves("usb3"@, 3);
    } else if h == 0x54 {
        reveal_strlit("usb4");
        lemma_name_resolves("usb4"@, 4);
    } else if h == 0x55 {
        reveal_strlit("usb5");
        lemma_name_resolves("usb5"@, 5);
    } else if h == 0x56 {
        reveal_strlit("usb6");
        lemma_name_resolves("usb6"@, 6);
    } else if h == 0x57 {
        reveal_strlit("usb7");
        lemma_name_resolves("usb7"@, 7);
    } else if h == 0x58 {
        reveal_strlit("usb8");
        lemma_name_resolves("usb8"@, 8);
    } else if h == 0x41 {
        reveal_strlit("pci1");
        lemma_name_resolves("pci1"@, 1);
    } else if h == 0x42 {
        reveal_strlit("pci2");
        lemma_name_resolves("pci2"@, 2);
    } else if h == 0x43 {
        reveal_strlit("pci3");
        lemma_name_resolves("pci3"@, 3);
    } else if h == 0x44 {
        reveal_strlit("pci4");
        lemma_name_resolves("pci4"@, 4);
    } else if h == 0x45 {
        reveal_strlit("pci5");
        lemma_name_resolves("pci5"@, 5);
    } else if h == 0x46 {
        reveal_strlit("pci6");
        lemma_name_resolves("pci6"@, 6);
    } else if h == 0x47 {
        reveal_strlit("pci7");
        lemma_name_resolves("pci7"@, 7);
    } else {
        reveal_strlit("pci8");
        lemma_name_resolves("pci8"@, 8);
    }
}

impl DeviceInfo {
    /// Record an attached channel under its driver handle.
    pub fn new(handle: Handle) -> (r: DeviceInfo)
        ensures
            r@ == handle,
    {
        DeviceInfo { handle }
    }

    /// The interface name that [`connect_plan`] and [`parse_ifname`] accept
    /// for this channel; fails for a handle outside the USB and PCI ranges.
    pub fn interface_name(&self) -> (r: Result<String, crate::Error>)
        ensures
            r matches Ok(s) ==> spec_interface_name(self@) == Some(s@),
            r matches Err(e) ==> spec_interface_name(self@) is None && e
                == crate::Error::PCanUnknownInterfaceType(self@),
    {
        let h = self.handle;
        if h == 0x51 {
            Ok("usb1".to_owned())
        } else if h == 0x52 {
            Ok("usb2".to_owned())
        } else if h == 0x53 {
            Ok("usb3".to_owned())
        } else if h == 0x54 {
            Ok("usb4".to_owned())
        } else if h == 0x55 {
            Ok("usb5".to_owned())
        } else if h == 0x56 {
            Ok("usb6".to_owned())
        } else if h == 0x57 {
            Ok("usb7".to_owned())
        } else if h == 0x58 {
            Ok("usb8".to_owned())
        } else if h == 0x41 {
            Ok("pci1".to_owned())
        } else if h == 0x42 {
            Ok("pci2".to_owned())
        } else if h == 0x43 {
            Ok("pci3".to_owned())
        } else if h == 0x44 {
            Ok("pci4".to_owned())
        } else if h == 0x45 {
            Ok("pci5".to_owned())
        } else if h == 0x46 {
            Ok("pci6".to_owned())
        } else if h == 0x47 {
            Ok("pci7".to_owned())
        } else if h == 0x48 {
            Ok("pci8".to_owned())
        } else {
            Err(crate::Error::PCanUnknownInterfaceType(h))
        }
    }
}

} // verus!
