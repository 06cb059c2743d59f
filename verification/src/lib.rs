//! An asynchronous-friendly CAN communication stack: a shared frame model with
//! validated construction, the wire codecs for a kernel CAN socket and a
//! TCP-to-CAN gateway device, the decision logic of a vendor-driver transport,
//! and an in-process loopback channel.
//!
//! Frame values are immutable after construction and every constructor
//! validates the identifier range and the payload length, so an invalid
//! [`Message`] never exists.

use vstd::prelude::*;

pub mod loopback;
pub mod pcan;
pub mod socketcan;
pub mod usr_canet;
pub mod wire;

verus! {

/// Maximum value for a CAN ID if the extended 29-bit ID is selected.
pub const CAN_EXT_ID_MASK: u32 = 0x1FFF_FFFF;

/// Maximum value for a CAN ID if the standard 11-bit ID is selected.
pub const CAN_STD_ID_MASK: u32 = 0x7FF;

/// Maximum data length (or dlc) in a CAN message.
pub const CAN_MAX_DLC: usize = 8;

/// Whether `id` fits the addressing mode selected by `ext_id`.
pub open spec fn id_in_range(id: u32, ext_id: bool) -> bool {
    if ext_id {
        id <= CAN_EXT_ID_MASK
    } else {
        id <= CAN_STD_ID_MASK
    }
}

/// Errors that may occur when attempting to create or validate CAN message fields.
#[derive(Debug)]
pub enum CanFrameError {
    IdTooLong,
    DataTooLong,
}

impl CanFrameError {
    /// Check that `id` fits the selected addressing mode.
    pub fn validate_id(id: u32, ext_id: bool) -> (r: Result<(), CanFrameError>)
        ensures
            r is Ok <==> id_in_range(id, ext_id),
            r matches Err(e) ==> e is IdTooLong,
    {
        if ext_id {
            if id > CAN_EXT_ID_MASK {
                return Err(CanFrameError::IdTooLong);
            }
        } else if id > CAN_STD_ID_MASK {
            return Err(CanFrameError::IdTooLong);
        }
        Ok(())
    }
}

/// The mathematical content of a [`DataFrame`].
#[verifier::ext_equal]
pub struct DataFrameView {
    pub id: u32,
    pub ext_id: bool,
    pub data: Seq<u8>,
}

impl DataFrameView {
    /// The construction invariant of a data frame.
    pub open spec fn valid(self) -> bool {
        id_in_range(self.id, self.ext_id) && self.data.len() <= CAN_MAX_DLC
    }
}

/// The mathematical content of a [`RemoteFrame`].
#[verifier::ext_equal]
pub struct RemoteFrameView {
    pub id: u32,
    pub ext_id: bool,
    pub dlc: u8,
}

impl RemoteFrameView {
    /// The construction invariant of a remote frame.
    pub open spec fn valid(self) -> bool {
        id_in_range(self.id, self.ext_id) && self.dlc <= CAN_MAX_DLC
    }
}

/// The mathematical content of a [`Message`].
#[verifier::ext_equal]
pub enum MessageView {
    Data(DataFrameView),
    Remote(RemoteFrameView),
}

impl MessageView {
    pub open spec fn id(self) -> u32 {
        match self {
            MessageView::Data(f) => f.id,
            MessageView::Remote(f) => f.id,
        }
    }

    pub open spec fn ext_id(self) -> bool {
        match self {
            MessageView::Data(f) => f.ext_id,
            MessageView::Remote(f) => f.ext_id,
        }
    }

    /// The declared payload length: a data frame's is its payload's length.
    pub open spec fn dlc(self) -> int {
        match self {
            MessageView::Data(f) => f.data.len() as int,
            MessageView::Remote(f) => f.dlc as int,
        }
    }

    pub open spec fn is_remote(self) -> bool {
        self is Remote
    }

    /// The payload of a data frame; a remote frame carries none.
    pub open spec fn data(self) -> Seq<u8> {
        match self {
            MessageView::Data(f) => f.data,
            MessageView::Remote(f) => Seq::empty(),
        }
    }

    /// The construction invariant of a message.
    pub open spec fn valid(self) -> bool {
        match self {
            MessageView::Data(f) => f.valid(),
            MessageView::Remote(f) => f.valid(),
        }
    }
}

/// A CAN data frame, i.e. the RTR bit is set to 0.
#[derive(Debug, Clone, PartialEq, Eq)]
pub struct DataFrame {
    id: u32,
    ext_id: bool,
    data: Vec<u8>,
}

impl View for DataFrame {
    type V = DataFrameView;

    closed spec fn view(&self) -> DataFrameView {
        DataFrameView { id: self.id, ext_id: self.ext_id, data: self.data@ }
    }
}

impl DataFrame {
    /// Create a new [`DataFrame`]; fails if the ID is out of range or the data is too long.
    pub fn new(id: u32, ext_id: bool, data: Vec<u8>) -> (r: Result<DataFrame, CanFrameError>)
        ensures
            r is Ok <==> id_in_range(id, ext_id) && data@.len() <= CAN_MAX_DLC,
            r matches Ok(f) ==> f@ == (DataFrameView { id, ext_id, data: data@ }),
            r matches Err(e) ==> ((e is IdTooLong) <==> !id_in_range(id, ext_id)),
    {
        match CanFrameError::validate_id(id, ext_id) {
            Ok(()) => {}
            Err(e) => {
                return Err(e);
            }
        }
        if data.len() > CAN_MAX_DLC {
            return Err(CanFrameError::DataTooLong);
        }
        Ok(DataFrame { id, ext_id, data })
    }

    pub fn id(&self) -> (r: u32)
        ensures
            r == self@.id,
    {
        self.id
    }

    pub fn ext_id(&self) -> (r: bool)
        ensures
            r == self@.ext_id,
    {
        self.ext_id
    }

    pub fn data(&self) -> (r: &[u8])
        ensures
            r@ == self@.data,
    {
        self.data.as_slice()
    }

    pub fn dlc(&self) -> (r: u8)
        requires
            self@.valid(),
        ensures
            r == self@.data.len(),
    {
        self.data.len() as u8
    }

    pub fn take_data(self) -> (r: Vec<u8>)
        ensures
            r@ == self@.data,
    {
        self.data
    }
}

/// A CAN remote frame, i.e. the RTR bit is set to 1. This type of frame
/// does not have a data field, only a requested data length.
#[derive(Debug, Clone, PartialEq, Eq)]
pub struct RemoteFrame {
    id: u32,
    ext_id: bool,
    dlc: u8,
}

impl View for RemoteFrame {
    type V = RemoteFrameView;

    closed spec fn view(&self) -> RemoteFrameView {
        RemoteFrameView { id: self.id, ext_id: self.ext_id, dlc: self.dlc }
    }
}

impl RemoteFrame {
    /// Create a new [`RemoteFrame`]; fails if the ID is out of range or the dlc is too long.
    pub fn new(id: u32, ext_id: bool, dlc: u8) -> (r: Result<RemoteFrame, CanFrameError>)
        ensures
            r is Ok <==> id_in_range(id, ext_id) && dlc <= CAN_MAX_DLC,
            r matches Ok(f) ==> f@ == (RemoteFrameView { id, ext_id, dlc }),
            r matches Err(e) ==> ((e is IdTooLong) <==> !id_in_range(id, ext_id)),
    {
        match CanFrameError::validate_id(id, ext_id) {
            Ok(()) => {}
            Err(e) => {
                return Err(e);
            }
        }
        if dlc as usize > CAN_MAX_DLC {
            return Err(CanFrameError::DataTooLong);
        }
        Ok(RemoteFrame { id, ext_id, dlc })
    }

    pub fn id(&self) -> (r: u32)
        ensures
            r == self@.id,
    {
        self.id
    }

    pub fn ext_id(&self) -> (r: bool)
        ensures
            r == self@.ext_id,
    {
        self.ext_id
    }

    pub fn dlc(&self) -> (r: u8)
        ensures
            r == self@.dlc,
    {
        self.dlc
    }
}

/// A timestamp defining when a CAN message was received on the bus, in
/// microseconds since a transport-local reference point.
#[derive(Debug, Clone, PartialEq, Eq, Structural)]
pub struct Timestamp {
    pub micros: u64,
}

/// A message on the CAN bus: either a [`DataFrame`] or a [`RemoteFrame`].
#[derive(Debug, Clone, PartialEq, Eq)]
pub enum Message {
    Data(DataFrame),
    Remote(RemoteFrame),
}

impl View for Message {
    type V = MessageView;

    open spec fn view(&self) -> MessageView {
        match self {
            Message::Data(f) => MessageView::Data(f@),
            Message::Remote(f) => MessageView::Remote(f@),
        }
    }
}

impl Message {
    /// Create a new message containing a data frame; fails if the ID is out of
    /// range or the data is too long.
    pub fn new_data(id: u32, ext_id: bool, data: &[u8]) -> (r: Result<Message, CanFrameError>)
        ensures
            r is Ok <==> id_in_range(id, ext_id) && data@.len() <= CAN_MAX_DLC,
            r matches Ok(m) ==> m@ == MessageView::Data(DataFrameView { id, ext_id, data: data@ }),
            r matches Err(e) ==> ((e is IdTooLong) <==> !id_in_range(id, ext_id)),
    {
        match CanFrameError::validate_id(id, ext_id) {
            Ok(()) => {}
            Err(e) => {
                return Err(e);
            }
        }
        if data.len() > CAN_MAX_DLC {
            return Err(CanFrameError::DataTooLong);
        }
        Ok(Message::Data(DataFrame { id, ext_id, data: vstd::slice::slice_to_vec(data) }))
    }

    /// Create a new message containing a remote frame; fails if the ID is out
    /// of range or the dlc is too long.
    pub fn new_remote(id: u32, ext_id: bool, dlc: u8) -> (r: Result<Message, CanFrameError>)
        ensures
            r is Ok <==> id_in_range(id, ext_id) && dlc <= CAN_MAX_DLC,
            r matches Ok(m) ==> m@ == MessageView::Remote(RemoteFrameView { id, ext_id, dlc }),
            r matches Err(e) ==> ((e is IdTooLong) <==> !id_in_range(id, ext_id)),
    {
        match RemoteFrame::new(id, ext_id, dlc) {
            Ok(f) => Ok(Message::Remote(f)),
            Err(e) => Err(e),
        }
    }

    pub fn id(&self) -> (r: u32)
        ensures
            r == self@.id(),
    {
        match self {
            Message::Data(f) => f.id(),
            Message::Remote(f) => f.id(),
        }
    }

    pub fn ext_id(&self) -> (r: bool)
        ensures
            r == self@.ext_id(),
    {
        match self {
            Message::Data(f) => f.ext_id(),
            Message::Remote(f) => f.ext_id(),
        }
    }

    pub fn dlc(&self) -> (r: u8)
        requires
            self@.valid(),
        ensures
            r == self@.dlc(),
    {
        match self {
            Message::Data(f) => f.dlc(),
            Message::Remote(f) => f.dlc(),
        }
    }
}

/// This enum encodes errors and warnings that may occur on the CAN bus.
#[derive(Debug, Clone, PartialEq, Eq, Structural)]
pub enum BusError {
    LightWarning,
    HeavyWarning,
    Passive,
    Off,
}

/// Error type encoding all possible errors of this crate.
#[derive(Debug, Clone)]
pub enum Error {
    /// An OS-level failure, carrying the underlying error's description.
    Io(String),
    InvalidInterfaceAddress,
    InvalidBitRate,
    PCanInitFailed(u32, String),
    PCanWriteFailed(u32, String),
    PCanReadFailed(u32, String),
    BusError(BusError),
    TransmitQueueFull,
    IdTooLong,
    DataTooLong,
    PCanUnknownInterfaceType(u16),
    PCanOtherError(u32, String),
    Other(String),
}

/// The top-level error a frame-validation error converts into.
pub open spec fn frame_error_to_error(x: CanFrameError) -> Error {
    match x {
        CanFrameError::IdTooLong => Error::IdTooLong,
        CanFrameError::DataTooLong => Error::DataTooLong,
    }
}

impl From<CanFrameError> for Error {
    fn from(x: CanFrameError) -> (r: Error) {
        match x {
            CanFrameError::IdTooLong => Error::IdTooLong,
            CanFrameError::DataTooLong => Error::DataTooLong,
        }
    }
}

impl vstd::std_specs::convert::FromSpecImpl<CanFrameError> for Error {
    open spec fn obeys_from_spec() -> bool {
        true
    }

    open spec fn from_spec(x: CanFrameError) -> Error {
        frame_error_to_error(x)
    }
}

/// Captures CAN device information of devices connected to the host.
#[derive(Clone, Debug)]
pub struct DeviceInfo {
    pub interface_name: String,
    pub is_ready: bool,
    pub index: u32,
}

} // verus!
