//! A device of one enumeration and the session on it: its descriptor, its
//! handle, and the rules by which the handle is taken and given back.
use crate::status::{
    status_result, status_to_result, FTError, FT_DEVICE_NOT_OPENED, FT_INVALID_HANDLE, FT_OK,
};
use crate::text::{field_text, read_field_text};
use vstd::prelude::*;

verus! {

/// The capacity of the serial number field of a descriptor, in bytes.
pub const SERIAL_NUMBER_CAPACITY: usize = 16;

/// The capacity of the description field of a descriptor, in bytes.
pub const DESCRIPTION_CAPACITY: usize = 64;

/// The flag bit that is set while the device is open.
pub const FT_FLAGS_OPENED: u32 = 1;

/// The flag bit that is set for a device enumerated as high-speed.
pub const FT_FLAGS_HISPEED: u32 = 2;

/// One record of the driver's device information list: what the driver said
/// of a device when the list was built.
#[derive(Debug, Clone, Copy, PartialEq, Eq)]
pub struct DeviceInfo {
    /// Bit 0: the device is open. Bit 1: the device is high-speed.
    pub flags: u32,
    /// The driver's code for the chip family.
    pub device_type: u32,
    /// Vendor and product identifier.
    pub id: u32,
    /// Location on the bus.
    pub loc_id: u32,
    /// Serial number, closed by a zero byte.
    pub serial_number: [u8; SERIAL_NUMBER_CAPACITY],
    /// Description, closed by a zero byte.
    pub description: [u8; DESCRIPTION_CAPACITY],
    /// The handle under which the device is open, or zero.
    pub handle: usize,
}

/// A device as found by one enumeration, and the session on it.
///
/// The session is closed while the handle is zero and open while it is not.
/// Only `open` and `close` change the handle.
#[derive(Debug)]
pub struct Device {
    index: usize,
    info: DeviceInfo,
}

/// What a `Device` stands for: its position in the enumeration and its
/// descriptor, the handle included.
pub struct DeviceView {
    pub index: nat,
    pub info: DeviceInfo,
}

/// Arguments of the driver call that sets the baud rate.
#[derive(Debug, Clone, Copy, PartialEq, Eq)]
pub struct BaudRateCall {
    pub handle: usize,
    pub rate: u32,
}

/// The device number under which the driver opens the device at `index`: the
/// low 32 bits of the index, read as a signed number.
pub open spec fn device_number(index: nat) -> int {
    let low = index % 0x1_0000_0000;
    if low < 0x8000_0000 {
        low as int
    } else {
        low - 0x1_0000_0000
    }
}

impl DeviceView {
    /// The session is open.
    pub open spec fn has_handle(self) -> bool {
        self.info.handle != 0
    }

    /// The same device with another handle.
    pub open spec fn with_handle(self, handle: usize) -> DeviceView {
        DeviceView { index: self.index, info: DeviceInfo { handle, ..self.info } }
    }

    /// The handle for a driver call that needs an open session.
    pub open spec fn session_handle(self) -> Result<usize, FTError> {
        if self.has_handle() {
            Ok(self.info.handle)
        } else {
            Err(FTError { status: FT_INVALID_HANDLE })
        }
    }

    /// What opening asks of the driver: nothing on an open session, else to
    /// open the device number of this device.
    pub open spec fn open_call(self) -> Result<i32, FTError> {
        if self.has_handle() {
            Err(FTError { status: FT_DEVICE_NOT_OPENED })
        } else {
            Ok(device_number(self.index) as i32)
        }
    }

    /// The result of opening, given the driver's status.
    pub open spec fn open_result(self, status: u32) -> Result<(), FTError> {
        if self.has_handle() {
            Err(FTError { status: FT_DEVICE_NOT_OPENED })
        } else {
            status_result(status)
        }
    }

    /// The device after opening, given the driver's status and the handle it
    /// gave.
    pub open spec fn after_open(self, status: u32, handle: usize) -> DeviceView {
        if !self.has_handle() && status == FT_OK {
            self.with_handle(handle)
        } else {
            self
        }
    }

    /// The result of a call that needs an open session and changes nothing,
    /// given the driver's status.
    pub open spec fn call_result(self, status: u32) -> Result<(), FTError> {
        if self.has_handle() {
            status_result(status)
        } else {
            Err(FTError { status: FT_INVALID_HANDLE })
        }
    }

    /// The device after closing, given the driver's status.
    pub open spec fn after_close(self, status: u32) -> DeviceView {
        if self.has_handle() && status == FT_OK {
            self.with_handle(0)
        } else {
            self
        }
    }
}

impl View for Device {
    type V = DeviceView;

    closed spec fn view(&self) -> DeviceView {
        DeviceView { index: self.index as nat, info: self.info }
    }
}

fn to_device_number(index: usize) -> (n: i32)
    ensures
        n == device_number(index as nat),
{
    let low: u32 = #[verifier::truncate]
    (index as u32);
    assert(low == (index as u64) % 0x1_0000_0000u64) by (bit_vector)
        requires
            low == index as u32,
    ;
    let n: i32 = #[verifier::truncate]
    (low as i32);
    assert(low < 0x8000_0000 ==> n == low) by (bit_vector)
        requires
            n == low as i32,
    ;
    assert(low >= 0x8000_0000 ==> n == low - 0x1_0000_0000) by (bit_vector)
        requires
            n == low as i32,
    ;
    n
}

impl Device {
    /// The device at position `index` of an enumeration, with the descriptor
    /// that the driver gave for it.
    pub(crate) fn new(index: usize, info: DeviceInfo) -> (d: Device)
        ensures
            d@ == (DeviceView { index: index as nat, info }),
    {
        Device { index, info }
    }

    /// Whether the device was open when it was enumerated: bit 0 of the flags.
    pub fn is_open(&self) -> (r: bool)
        ensures
            r == (self@.info.flags & 1 != 0),
    {
        self.info.flags & FT_FLAGS_OPENED != 0
    }

    /// Whether the device was enumerated as high-speed: bit 1 of the flags.
    pub fn is_high_speed(&self) -> (r: bool)
        ensures
            r == (self@.info.flags & 2 != 0),
    {
        self.info.flags & FT_FLAGS_HISPEED != 0
    }

    /// What opening asks of the driver. A closed session asks the driver to
    /// open the device by its number. An open session asks nothing and fails
    /// with `FT_DEVICE_NOT_OPENED`.
    pub fn open_request(&self) -> (r: Result<i32, FTError>)
        ensures
            r == self@.open_call(),
    {
        if self.info.handle != 0 {
            Err(FTError { status: FT_DEVICE_NOT_OPENED })
        } else {
            Ok(to_device_number(self.index))
        }
    }

    /// Takes the driver's answer to opening: its status and the handle it
    /// stored. On `FT_OK` a closed session keeps the handle; on any other
    /// status it fails with that status and stays closed. An open session
    /// fails with `FT_DEVICE_NOT_OPENED` and keeps the handle it has.
    pub fn open(&mut self, status: u32, handle: usize) -> (r: Result<(), FTError>)
        ensures
            r == old(self)@.open_result(status),
            final(self)@ == old(self)@.after_open(status, handle),
    {
        if self.info.handle != 0 {
            return Err(FTError { status: FT_DEVICE_NOT_OPENED });
        }
        status_to_result(status)?;
        self.info.handle = handle;
        Ok(())
    }

    /// What closing asks of the driver: to close the session's handle. A
    /// closed session asks nothing and fails with `FT_INVALID_HANDLE`.
    pub fn close_request(&self) -> (r: Result<usize, FTError>)
        ensures
            r == self@.session_handle(),
    {
        self.session_handle()
    }

    /// Takes the driver's answer to closing. On `FT_OK` the handle becomes
    /// zero; on any other status the call fails with that status and the
    /// handle stays. A closed session fails with `FT_INVALID_HANDLE` and is
    /// left as it is.
    pub fn close(&mut self, status: u32) -> (r: Result<(), FTError>)
        ensures
            r == old(self)@.call_result(status),
            final(self)@ == old(self)@.after_close(status),
    {
        if self.info.handle == 0 {
            return Err(FTError { status: FT_INVALID_HANDLE });
        }
        status_to_result(status)?;
        self.info.handle = 0;
        Ok(())
    }

    /// What setting the baud rate asks of the driver: the session's handle
    /// and `rate`, as given. A closed session asks nothing and fails with
    /// `FT_INVALID_HANDLE`.
    pub fn set_baud_rate_request(&self, rate: u32) -> (r: Result<BaudRateCall, FTError>)
        ensures
            r == match self@.session_handle() {
                Ok(handle) => Ok(BaudRateCall { handle, rate }),
                Err(e) => Err(e),
            },
    {
        match self.session_handle() {
            Ok(handle) => Ok(BaudRateCall { handle, rate }),
            Err(e) => Err(e),
        }
    }

    /// Takes the driver's answer to setting the baud rate. The session is
    /// left as it is.
    pub fn set_baud_rate(&mut self, status: u32) -> (r: Result<(), FTError>)
        ensures
            r == old(self)@.call_result(status),
            final(self)@ == old(self)@,
    {
        if self.info.handle == 0 {
            return Err(FTError { status: FT_INVALID_HANDLE });
        }
        status_to_result(status)
    }

    /// What reading the bit mode asks of the driver: the session's handle. A
    /// closed session asks nothing and fails with `FT_INVALID_HANDLE`.
    pub fn get_bitmode_request(&self) -> (r: Result<usize, FTError>)
        ensures
            r == self@.session_handle(),
    {
        self.session_handle()
    }

    /// Takes the driver's answer to reading the bit mode: its status and the
    /// mode it stored.
    pub fn get_bitmode(&self, status: u32, mode: u8) -> (r: Result<u8, FTError>)
        ensures
            r == match self@.call_result(status) {
                Ok(_) => Ok(mode),
                Err(e) => Err(e),
            },
    {
        if self.info.handle == 0 {
            return Err(FTError { status: FT_INVALID_HANDLE });
        }
        status_to_result(status)?;
        Ok(mode)
    }

    fn session_handle(&self) -> (r: Result<usize, FTError>)
        ensures
            r == self@.session_handle(),
    {
        if self.info.handle != 0 {
            Ok(self.info.handle)
        } else {
            Err(FTError { status: FT_INVALID_HANDLE })
        }
    }

    /// The flags of the descriptor.
    pub fn get_flags(&self) -> (r: u32)
        ensures
            r == self@.info.flags,
    {
        self.info.flags
    }

    /// The device type of the descriptor.
    pub fn get_type(&self) -> (r: u32)
        ensures
            r == self@.info.device_type,
    {
        self.info.device_type
    }

    /// The vendor and product identifier of the descriptor.
    pub fn get_id(&self) -> (r: u32)
        ensures
            r == self@.info.id,
    {
        self.info.id
    }

    /// The bus location of the descriptor.
    pub fn get_local_id(&self) -> (r: u32)
        ensures
            r == self@.info.loc_id,
    {
        self.info.loc_id
    }

    /// The serial number of the descriptor as text. There is none where the
    /// driver left the field without a closing zero byte or wrote bytes that
    /// are not UTF-8.
    pub fn get_serial_number(&self) -> (r: Option<&str>)
        ensures
            match r {
                Some(text) => field_text(self@.info.serial_number@) == Some(text@),
                None => field_text(self@.info.serial_number@) is None,
            },
    {
        read_field_text(self.info.serial_number.as_slice())
    }

    /// The description of the descriptor as text. There is none where the
    /// driver left the field without a closing zero byte or wrote bytes that
    /// are not UTF-8.
    pub fn get_description(&self) -> (r: Option<&str>)
        ensures
            match r {
                Some(text) => field_text(self@.info.description@) == Some(text@),
                None => field_text(self@.info.description@) is None,
            },
    {
        read_field_text(self.info.description.as_slice())
    }

    /// The session's handle: zero while the session is closed.
    pub fn get_handle(&self) -> (r: usize)
        ensures
            r == self@.info.handle,
    {
        self.info.handle
    }
}

/// A closed session that the driver refuses to open stays closed: the call
/// fails with the driver's status, the handle stays zero, and nothing else of
/// the session changes, whatever the driver left where the handle was to go.
pub proof fn lemma_refused_open_changes_nothing(d: DeviceView, status: u32, handle: usize)
    requires
        !d.has_handle(),
        status != FT_OK,
    ensures
        d.open_result(status) == Err::<(), FTError>(FTError { status }),
        d.after_open(status, handle) == d,
        !d.after_open(status, handle).has_handle(),
{
}

/// Opening a closed session and closing it again gives back the session as it
/// was before, with a zero handle. Closing it once more fails with
/// `FT_INVALID_HANDLE`, whatever the driver would have said, and changes
/// nothing.
pub proof fn lemma_close_after_open(d: DeviceView, handle: usize, status: u32)
    requires
        !d.has_handle(),
        handle != 0,
    ensures
        d.open_result(FT_OK) == Ok::<(), FTError>(()),
        d.after_open(FT_OK, handle).info.handle == handle,
        d.after_open(FT_OK, handle).call_result(FT_OK) == Ok::<(), FTError>(()),
        d.after_open(FT_OK, handle).after_close(FT_OK) == d,
        d.call_result(status) == Err::<(), FTError>(FTError { status: FT_INVALID_HANDLE }),
        d.after_close(status) == d,
{
}

/// A close that the driver refuses keeps the handle: the call fails with the
/// driver's status and the session stays open as it was.
pub proof fn lemma_refused_close_keeps_handle(d: DeviceView, status: u32)
    requires
        d.has_handle(),
        status != FT_OK,
    ensures
        d.call_result(status) == Err::<(), FTError>(FTError { status }),
        d.after_close(status) == d,
{
}

} // verus!
