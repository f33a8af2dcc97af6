//! Enumeration: from the driver's device information list to sessions.
use crate::device::{Device, DeviceInfo, DeviceView};
use crate::status::{status_to_result, FTError, FT_OK};
use vstd::prelude::*;

verus! {

/// How an enumeration goes on once the driver has built its list.
#[derive(Debug)]
pub enum ScanStep {
    /// The enumeration is over, with this result.
    Done(Result<Vec<Device>, FTError>),
    /// The driver is to be asked for this many records, which is not zero.
    Fetch(u32),
}

/// The devices that a list of records stands for: one for each record, in
/// the order of the list, each at its own position.
pub open spec fn enumerated(nodes: Seq<DeviceInfo>) -> Seq<DeviceView> {
    Seq::new(nodes.len(), |i: int| DeviceView { index: i as nat, info: nodes[i] })
}

/// What `devices` stand for, one by one.
pub open spec fn device_views(devices: Seq<Device>) -> Seq<DeviceView> {
    Seq::new(devices.len(), |i: int| devices[i]@)
}

/// Takes the driver's answer to building its device information list: its
/// status and the number of devices. A failure ends the enumeration with that
/// status. No device ends it with an empty list, which is a success. Else the
/// records are to be fetched.
pub fn scan_start(status: u32, num_devices: u32) -> (step: ScanStep)
    ensures
        status != FT_OK ==> step == ScanStep::Done(Err(FTError { status })),
        status == FT_OK && num_devices == 0 ==> (step matches ScanStep::Done(Ok(devices))
            && devices@.len() == 0),
        status == FT_OK && num_devices != 0 ==> step == ScanStep::Fetch(num_devices),
{
    match status_to_result(status) {
        Err(e) => ScanStep::Done(Err(e)),
        Ok(()) => if num_devices == 0 {
            ScanStep::Done(Ok(Vec::new()))
        } else {
            ScanStep::Fetch(num_devices)
        },
    }
}

/// Takes the driver's answer to fetching its device information list: its
/// status and the records it filled. A failure ends the enumeration with that
/// status, and no session is made. Else there is one session for each record,
/// in the driver's order, each at its position in that order and with the
/// descriptor and handle of its record.
pub fn scan_devices(status: u32, nodes: &[DeviceInfo]) -> (r: Result<Vec<Device>, FTError>)
    ensures
        status != FT_OK ==> r == Err::<Vec<Device>, FTError>(FTError { status }),
        status == FT_OK ==> (r matches Ok(devices) && devices@.len() == nodes@.len()
            && device_views(devices@) == enumerated(nodes@)),
{
    status_to_result(status)?;
    let mut devices: Vec<Device> = Vec::new();
    let mut index: usize = 0;
    while index < nodes.len()
        invariant
            index <= nodes@.len(),
            devices@.len() == index,
            forall|i: int|
                0 <= i < index ==> (#[trigger] devices@[i])@ == (DeviceView {
                    index: i as nat,
                    info: nodes@[i],
                }),
        decreases nodes@.len() - index,
    {
        devices.push(Device::new(index, nodes[index]));
        index += 1;
    }
    Ok(devices)
}

/// The sessions of one enumeration are as many as the records, each at a
/// position below their number, and no two at the same position.
pub proof fn lemma_enumerated_positions(nodes: Seq<DeviceInfo>)
    ensures
        enumerated(nodes).len() == nodes.len(),
        forall|i: int|
            0 <= i < nodes.len() ==> (#[trigger] enumerated(nodes)[i]).index == i
                && enumerated(nodes)[i].info == nodes[i],
        forall|i: int, j: int|
            0 <= i < nodes.len() && 0 <= j < nodes.len() && i != j ==> (#[trigger] enumerated(
                nodes,
            )[i]).index != (#[trigger] enumerated(nodes)[j]).index,
{
}

} // verus!
