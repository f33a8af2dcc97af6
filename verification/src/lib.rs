//! A safe access layer over the FTDI D2XX driver, written without I/O.
//!
//! The library holds everything that is decided around a driver call: how a
//! status code becomes a result, which sessions an enumeration yields, when a
//! session may be opened, closed, configured, read or written, and how the
//! fixed text fields that the driver fills are decoded. It makes no driver call
//! itself, and so has no unsafe code.
//!
//! Each operation on a session comes as a pair: a `*_request` function that
//! says whether the driver may be asked and with which arguments, and a
//! function named after the operation that takes the driver's answer and gives
//! the result and the session's next state. An enumeration takes the driver's
//! two answers in turn, with `scan_start` and `scan_devices`.
//!
//! A session that is asked for something it cannot do in its state fails with
//! the status that the driver has for it, without the driver being asked:
//! `FT_INVALID_HANDLE` where an open session is needed, `FT_DEVICE_NOT_OPENED`
//! where a session that is open is opened again. Reads and writes fail with
//! `StreamError::NotOpen`.
pub mod device;
pub mod program_data;
pub mod scan;
pub mod status;
pub mod stream;
pub mod text;

pub use device::{
    BaudRateCall, Device, DeviceInfo, DESCRIPTION_CAPACITY, FT_FLAGS_HISPEED, FT_FLAGS_OPENED,
    SERIAL_NUMBER_CAPACITY,
};
pub use program_data::{
    FTProgramData, ProgramDataCall, MANUFACTURER_CAPACITY, MANUFACTURER_ID_CAPACITY,
    PROGRAM_DATA_SIGNATURE1, PROGRAM_DATA_SIGNATURE2, PROGRAM_DATA_VERSION,
};
pub use scan::{scan_devices, scan_start, ScanStep};
pub use status::{status_to_result, FTError, FT_DEVICE_NOT_OPENED, FT_INVALID_HANDLE, FT_OK};
pub use stream::{StreamError, Transfer};
