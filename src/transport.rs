//! Delivery decisions: which single device receives a payload, and what the
//! caller is told afterwards. Enumerating devices and writing to them is done
//! by the caller, who hands the outcomes back here.
use vstd::prelude::*;
use vstd::string::StringExecFns;
use crate::payload::Payload;

verus! {

/// Why a payload did not reach a badge.
#[derive(Clone, Debug, PartialEq, Eq)]
pub enum TransportError {
    /// No badge is connected.
    NoDevice,
    /// More than one badge is connected; the count is given.
    MultipleDevices(usize),
    /// The devices could not be listed; the detail is given.
    Enumeration(String),
    /// The write to the badge failed; the detail is given.
    WriteFailed(String),
}

/// The one connected badge that a payload is written to.
#[derive(Clone, Debug, PartialEq, Eq)]
pub struct DeviceHandle {
    pub id: String,
}

/// Picks the only connected device. Zero devices and several devices are both
/// errors: there is no arbitrary pick.
pub fn select_single(devices: &Vec<String>) -> (r: Result<DeviceHandle, TransportError>)
    ensures
        devices@.len() == 0 ==> r == Err::<DeviceHandle, TransportError>(TransportError::NoDevice),
        devices@.len() > 1 ==> r == Err::<DeviceHandle, TransportError>(
            TransportError::MultipleDevices(devices@.len() as usize),
        ),
        devices@.len() == 1 ==> (r matches Ok(h) && h.id@ == devices@[0]@),
{
    if devices.len() == 0 {
        Err(TransportError::NoDevice)
    } else if devices.len() > 1 {
        Err(TransportError::MultipleDevices(devices.len()))
    } else {
        Ok(DeviceHandle { id: devices[0].clone() })
    }
}

/// What to do with a finished payload.
#[derive(Clone, Debug, PartialEq, Eq)]
pub enum Delivery {
    /// Write the payload to this device.
    Write { device: DeviceHandle, payload: Payload },
    /// Write nothing and report the error.
    Fail(TransportError),
}

/// Decides the delivery of `payload` from the outcome of listing the devices:
/// a write to the only device when exactly one is listed, and otherwise an
/// error with no write.
pub fn plan_delivery(payload: Payload, devices: Result<Vec<String>, String>) -> (r: Delivery)
    ensures
        match devices {
            Err(detail) => r == Delivery::Fail(TransportError::Enumeration(detail)),
            Ok(ids) => if ids@.len() == 0 {
                r == Delivery::Fail(TransportError::NoDevice)
            } else if ids@.len() > 1 {
                r == Delivery::Fail(TransportError::MultipleDevices(ids@.len() as usize))
            } else {
                r matches Delivery::Write { device, payload: p } && device.id@ == ids@[0]@
                    && p == payload
            },
        },
{
    match devices {
        Err(detail) => Delivery::Fail(TransportError::Enumeration(detail)),
        Ok(ids) => match select_single(&ids) {
            Ok(device) => Delivery::Write { device, payload },
            Err(e) => Delivery::Fail(e),
        },
    }
}

/// The text reported for a transport error.
pub open spec fn error_text(e: TransportError) -> Seq<char> {
    match e {
        TransportError::NoDevice => "no badge found"@,
        TransportError::MultipleDevices(_) => "more than one badge found"@,
        TransportError::Enumeration(d) => "could not list devices: "@ + d@,
        TransportError::WriteFailed(d) => "write to badge failed: "@ + d@,
    }
}

impl TransportError {
    /// A human-readable description, telling no device, several devices and a
    /// failed write apart.
    pub fn message(&self) -> (r: String)
        ensures
            r@ == error_text(*self),
    {
        match self {
            TransportError::NoDevice => String::from_str("no badge found"),
            TransportError::MultipleDevices(_) => String::from_str("more than one badge found"),
            TransportError::Enumeration(d) => {
                let mut s = String::from_str("could not list devices: ");
                s.append(d.as_str());
                s
            },
            TransportError::WriteFailed(d) => {
                let mut s = String::from_str("write to badge failed: ");
                s.append(d.as_str());
                s
            },
        }
    }
}

/// The text reported once a request has run: success, or the error.
pub fn report(outcome: &Result<(), TransportError>) -> (r: String)
    ensures
        match outcome {
            Ok(_) => r@ == "Success!"@,
            Err(e) => r@ == "Something went wrong: "@ + error_text(*e),
        },
{
    match outcome {
        Ok(_) => String::from_str("Success!"),
        Err(e) => {
            let mut s = String::from_str("Something went wrong: ");
            s.append(e.message().as_str());
            s
        },
    }
}

} // verus!
