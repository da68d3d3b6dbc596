//! The conditions under which talking to a probe can fail.

use vstd::prelude::*;

verus! {

/// Everything that can go wrong between finding a probe and finishing a
/// command batch.
#[derive(Debug, Clone, Copy, PartialEq, Eq, Structural)]
pub enum ProbeCreationError {
    /// No probe with the expected vendor and product id was enumerated.
    DeviceNotFound,
    /// The operating system denied access to the probe.
    PermissionDenied,
    /// The probe was found but a handle to it could not be opened.
    CouldNotOpen,
    /// No interface of the probe speaks a protocol generation known here.
    InterfaceNotFound,
    /// A transfer failed below the protocol level.
    TransportError,
    /// A transfer did not complete within the transport's time limit.
    Timeout,
    /// The probe's answer does not echo what was asked of it.
    ProtocolMismatch,
    /// The probe's answer ends before the batch's decoders are done.
    TruncatedResponse,
    /// A sub-command does not fit into what is left of the packet.
    BatchTooLarge,
    /// A register transfer stopped before all of its operations were done.
    TransferIncomplete,
}

/// The errors of the USB stack, one variant for each of `rusb::Error`.
#[derive(Debug, Clone, Copy, PartialEq, Eq, Structural)]
pub enum UsbFault {
    Io,
    InvalidParam,
    Access,
    NoDevice,
    NotFound,
    Busy,
    Timeout,
    Overflow,
    Pipe,
    Interrupted,
    NoMem,
    NotSupported,
    BadDescriptor,
    Other,
}

#[verifier::external_type_specification]
#[verifier::external_body]
pub struct ExUsbError(rusb::Error);

/// The kind of fault that an error of the USB stack stands for: the variant
/// of [`UsbFault`] that bears the name of the error's own variant.
pub uninterp spec fn usb_fault_of(e: rusb::Error) -> UsbFault;

/// Tells the variants of `rusb::Error` apart: each is handed on as the
/// variant of [`UsbFault`] with the same name. The outside value is opaque
/// to the verifier; the contract claims that the result is a function of
/// the error alone and gives that function its name.
#[verifier::external_body]
fn usb_fault(e: &rusb::Error) -> (fault: UsbFault)
    ensures
        fault == usb_fault_of(*e),
{
    match e {
        rusb::Error::Io => UsbFault::Io, rusb::Error::InvalidParam => UsbFault::InvalidParam,
        rusb::Error::Access => UsbFault::Access, rusb::Error::NoDevice => UsbFault::NoDevice,
        rusb::Error::NotFound => UsbFault::NotFound, rusb::Error::Busy => UsbFault::Busy,
        rusb::Error::Timeout => UsbFault::Timeout, rusb::Error::Overflow => UsbFault::Overflow,
        rusb::Error::Pipe => UsbFault::Pipe, rusb::Error::Interrupted => UsbFault::Interrupted,
        rusb::Error::NoMem => UsbFault::NoMem, rusb::Error::NotSupported => UsbFault::NotSupported,
        rusb::Error::BadDescriptor => UsbFault::BadDescriptor, rusb::Error::Other => UsbFault::Other,
    }
}

impl ProbeCreationError {
    /// The error of a packet transfer that failed: `Timeout` where the
    /// transfer ran out of time, `TransportError` for every other fault.
    pub open spec fn of_transfer_fault(fault: UsbFault) -> ProbeCreationError {
        if fault is Timeout {
            ProbeCreationError::Timeout
        } else {
            ProbeCreationError::TransportError
        }
    }

    /// The error of a probe that could not be opened: `PermissionDenied`
    /// where access was refused, `CouldNotOpen` for every other fault.
    pub open spec fn of_open_fault(fault: UsbFault) -> ProbeCreationError {
        if fault is Access {
            ProbeCreationError::PermissionDenied
        } else {
            ProbeCreationError::CouldNotOpen
        }
    }

    /// Reports the fault of a packet transfer.
    pub fn from_transfer_fault(fault: UsbFault) -> (e: ProbeCreationError)
        ensures
            e == Self::of_transfer_fault(fault),
    {
        match fault {
            UsbFault::Timeout => ProbeCreationError::Timeout,
            _ => ProbeCreationError::TransportError,
        }
    }

    /// Reports the fault of opening a probe.
    pub fn from_open_fault(fault: UsbFault) -> (e: ProbeCreationError)
        ensures
            e == Self::of_open_fault(fault),
    {
        match fault {
            UsbFault::Access => ProbeCreationError::PermissionDenied,
            _ => ProbeCreationError::CouldNotOpen,
        }
    }

    /// Reports an error that the USB stack returned from a packet transfer:
    /// `Timeout` where the error is a timeout, `TransportError` for every
    /// other error.
    pub fn from_transfer_error(e: rusb::Error) -> (r: ProbeCreationError)
        ensures
            r == Self::of_transfer_fault(usb_fault_of(e)),
    {
        Self::from_transfer_fault(usb_fault(&e))
    }

    /// Reports an error that the USB stack returned when a probe was
    /// opened: `PermissionDenied` where access was refused, `CouldNotOpen`
    /// for every other error.
    pub fn from_open_error(e: rusb::Error) -> (r: ProbeCreationError)
        ensures
            r == Self::of_open_fault(usb_fault_of(e)),
    {
        Self::from_open_fault(usb_fault(&e))
    }
}

} // verus!
