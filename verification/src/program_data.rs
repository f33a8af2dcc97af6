//! Program data: the identity that the factory wrote into a device.
use crate::device::{Device, DESCRIPTION_CAPACITY, SERIAL_NUMBER_CAPACITY};
use crate::status::{status_to_result, FTError, FT_OK};
use crate::text::{field_text, read_field_text, store_text, stored_text};
use vstd::prelude::*;
use vstd::utf8::encode_utf8;

verus! {

/// The capacity of the manufacturer field of the program data, in bytes.
pub const MANUFACTURER_CAPACITY: usize = 32;

/// The capacity of the manufacturer identifier field of the program data, in
/// bytes.
pub const MANUFACTURER_ID_CAPACITY: usize = 16;

/// The first signature of a program data request.
pub const PROGRAM_DATA_SIGNATURE1: u32 = 0x0000_0000;

/// The second signature of a program data request.
pub const PROGRAM_DATA_SIGNATURE2: u32 = 0xffff_ffff;

/// The version of the program data layout that is asked for.
pub const PROGRAM_DATA_VERSION: u32 = 5;

/// Header of the driver call that reads the program data. With it go four
/// buffers for the driver to fill, one of the capacity of each field of the
/// program data.
#[derive(Debug, Clone, Copy, PartialEq, Eq)]
pub struct ProgramDataCall {
    pub handle: usize,
    pub signature1: u32,
    pub signature2: u32,
    pub version: u32,
}

/// The program data of a device: the header under which it was read and the
/// four text fields, each owned and closed by a zero byte.
#[derive(Debug, PartialEq, Eq)]
pub struct FTProgramData {
    manufacturer: [u8; MANUFACTURER_CAPACITY],
    manufacturer_id: [u8; MANUFACTURER_ID_CAPACITY],
    description: [u8; DESCRIPTION_CAPACITY],
    serial_number: [u8; SERIAL_NUMBER_CAPACITY],
    signature1: u32,
    signature2: u32,
    version: u32,
}

/// What an `FTProgramData` stands for.
pub struct ProgramDataView {
    pub manufacturer: Seq<u8>,
    pub manufacturer_id: Seq<u8>,
    pub description: Seq<u8>,
    pub serial_number: Seq<u8>,
    pub signature1: u32,
    pub signature2: u32,
    pub version: u32,
}

impl ProgramDataView {
    /// The fields have their capacities and the header is that of a request.
    pub open spec fn well_formed(self) -> bool {
        &&& self.manufacturer.len() == MANUFACTURER_CAPACITY
        &&& self.manufacturer_id.len() == MANUFACTURER_ID_CAPACITY
        &&& self.description.len() == DESCRIPTION_CAPACITY
        &&& self.serial_number.len() == SERIAL_NUMBER_CAPACITY
        &&& self.signature1 == PROGRAM_DATA_SIGNATURE1
        &&& self.signature2 == PROGRAM_DATA_SIGNATURE2
        &&& self.version == PROGRAM_DATA_VERSION
    }
}

impl View for FTProgramData {
    type V = ProgramDataView;

    closed spec fn view(&self) -> ProgramDataView {
        ProgramDataView {
            manufacturer: self.manufacturer@,
            manufacturer_id: self.manufacturer_id@,
            description: self.description@,
            serial_number: self.serial_number@,
            signature1: self.signature1,
            signature2: self.signature2,
            version: self.version,
        }
    }
}

impl FTProgramData {
    /// The program data that holds the given fields, under the header of a
    /// request.
    pub fn new(
        manufacturer: [u8; MANUFACTURER_CAPACITY],
        manufacturer_id: [u8; MANUFACTURER_ID_CAPACITY],
        description: [u8; DESCRIPTION_CAPACITY],
        serial_number: [u8; SERIAL_NUMBER_CAPACITY],
    ) -> (data: FTProgramData)
        ensures
            data@.well_formed(),
            data@.manufacturer == manufacturer@,
            data@.manufacturer_id == manufacturer_id@,
            data@.description == description@,
            data@.serial_number == serial_number@,
    {
        FTProgramData {
            manufacturer,
            manufacturer_id,
            description,
            serial_number,
            signature1: PROGRAM_DATA_SIGNATURE1,
            signature2: PROGRAM_DATA_SIGNATURE2,
            version: PROGRAM_DATA_VERSION,
        }
    }

    /// The program data of a device that was programmed with the given
    /// texts: each is stored as the driver stores it, cut to the capacity of
    /// its field less the closing zero byte.
    pub fn from_text(
        manufacturer: &str,
        manufacturer_id: &str,
        description: &str,
        serial_number: &str,
    ) -> (data: FTProgramData)
        ensures
            data@.well_formed(),
            data@.manufacturer == stored_text(
                encode_utf8(manufacturer@),
                MANUFACTURER_CAPACITY as nat,
            ),
            data@.manufacturer_id == stored_text(
                encode_utf8(manufacturer_id@),
                MANUFACTURER_ID_CAPACITY as nat,
            ),
            data@.description == stored_text(
                encode_utf8(description@),
                DESCRIPTION_CAPACITY as nat,
            ),
            data@.serial_number == stored_text(
                encode_utf8(serial_number@),
                SERIAL_NUMBER_CAPACITY as nat,
            ),
    {
        FTProgramData::new(
            store_text::<MANUFACTURER_CAPACITY>(manufacturer.as_bytes()),
            store_text::<MANUFACTURER_ID_CAPACITY>(manufacturer_id.as_bytes()),
            store_text::<DESCRIPTION_CAPACITY>(description.as_bytes()),
            store_text::<SERIAL_NUMBER_CAPACITY>(serial_number.as_bytes()),
        )
    }

    /// The two signatures and the version under which the data was read.
    pub fn get_header(&self) -> (header: (u32, u32, u32))
        ensures
            header == (self@.signature1, self@.signature2, self@.version),
    {
        (self.signature1, self.signature2, self.version)
    }

    /// The manufacturer as text. There is none where the driver left the
    /// field without a closing zero byte or wrote bytes that are not UTF-8.
    pub fn get_manufacturer(&self) -> (r: Option<&str>)
        ensures
            match r {
                Some(text) => field_text(self@.manufacturer) == Some(text@),
                None => field_text(self@.manufacturer) is None,
            },
    {
        read_field_text(self.manufacturer.as_slice())
    }

    /// The manufacturer's identifier as text. There is none where the driver
    /// left the field without a closing zero byte or wrote bytes that are not
    /// UTF-8.
    pub fn get_manufacturer_id(&self) -> (r: Option<&str>)
        ensures
            match r {
                Some(text) => field_text(self@.manufacturer_id) == Some(text@),
                None => field_text(self@.manufacturer_id) is None,
            },
    {
        read_field_text(self.manufacturer_id.as_slice())
    }

    /// The description as text. There is none where the driver left the
    /// field without a closing zero byte or wrote bytes that are not UTF-8.
    pub fn get_description(&self) -> (r: Option<&str>)
        ensures
            match r {
                Some(text) => field_text(self@.description) == Some(text@),
                None => field_text(self@.description) is None,
            },
    {
        read_field_text(self.description.as_slice())
    }

    /// The serial number as text. There is none where the driver left the
    /// field without a closing zero byte or wrote bytes that are not UTF-8.
    pub fn get_serial_number(&self) -> (r: Option<&str>)
        ensures
            match r {
                Some(text) => field_text(self@.serial_number) == Some(text@),
                None => field_text(self@.serial_number) is None,
            },
    {
        read_field_text(self.serial_number.as_slice())
    }
}

impl Device {
    /// What reading the program data asks of the driver: the session's
    /// handle, whatever it is, under the two signatures and the version of
    /// the layout. A closed session is not turned away here: the driver
    /// rejects its handle, and `query_program_data` hands that failure on.
    pub fn query_program_data_request(&self) -> (call: ProgramDataCall)
        ensures
            call == (ProgramDataCall {
                handle: self@.info.handle,
                signature1: PROGRAM_DATA_SIGNATURE1,
                signature2: PROGRAM_DATA_SIGNATURE2,
                version: PROGRAM_DATA_VERSION,
            }),
    {
        ProgramDataCall {
            handle: self.get_handle(),
            signature1: PROGRAM_DATA_SIGNATURE1,
            signature2: PROGRAM_DATA_SIGNATURE2,
            version: PROGRAM_DATA_VERSION,
        }
    }

    /// Takes the driver's answer to reading the program data: its status and
    /// the four buffers as it left them. A failure is handed on with its
    /// status. Else the program data holds the four buffers.
    pub fn query_program_data(
        &self,
        status: u32,
        manufacturer: [u8; MANUFACTURER_CAPACITY],
        manufacturer_id: [u8; MANUFACTURER_ID_CAPACITY],
        description: [u8; DESCRIPTION_CAPACITY],
        serial_number: [u8; SERIAL_NUMBER_CAPACITY],
    ) -> (r: Result<FTProgramData, FTError>)
        ensures
            status != FT_OK ==> r == Err::<FTProgramData, FTError>(FTError { status }),
            status == FT_OK ==> (r matches Ok(data) && data@.well_formed() && data@.manufacturer
                == manufacturer@ && data@.manufacturer_id == manufacturer_id@ && data@.description
                == description@ && data@.serial_number == serial_number@),
    {
        status_to_result(status)?;
        Ok(FTProgramData::new(manufacturer, manufacturer_id, description, serial_number))
    }
}

} // verus!
