//! How a packet travels to and from the chosen interface.

use vstd::prelude::*;

verus! {

/// Seconds after which a transfer is given up.
pub const TIMEOUT_SECONDS: u64 = 5;

/// Request type of a class request to an interface, device-to-host.
pub const REQUEST_TYPE_IN: u8 = 0xA1;

/// Request type of a class request to an interface, host-to-device.
pub const REQUEST_TYPE_OUT: u8 = 0x21;

/// HID request that fetches a report.
pub const GET_REPORT: u8 = 0x01;

/// HID request that delivers a report.
pub const SET_REPORT: u8 = 0x09;

/// Request value that names the input report with id 0.
pub const INPUT_REPORT: u16 = 0x0100;

/// Request value that names the output report with id 0.
pub const OUTPUT_REPORT: u16 = 0x0200;

/// The USB transfer that moves one packet.
#[derive(Debug, Clone, Copy, PartialEq, Eq, Structural)]
pub enum TransportRequest {
    /// A control transfer on the default pipe.
    Control { request_type: u8, request: u8, value: u16, index: u16 },
    /// A bulk transfer on the given endpoint.
    Bulk { endpoint: u8 },
}

/// The transfer that reads a packet: a bulk transfer on the endpoint or,
/// where the endpoint is 0, a `GET_REPORT` request to the interface.
pub fn read_request(interface: u8, in_endpoint: u8) -> (request: TransportRequest)
    ensures
        request == if in_endpoint == 0 {
            TransportRequest::Control {
                request_type: REQUEST_TYPE_IN,
                request: GET_REPORT,
                value: INPUT_REPORT,
                index: interface as u16,
            }
        } else {
            TransportRequest::Bulk { endpoint: in_endpoint }
        },
{
    if in_endpoint == 0 {
        TransportRequest::Control {
            request_type: REQUEST_TYPE_IN,
            request: GET_REPORT,
            value: INPUT_REPORT,
            index: interface as u16,
        }
    } else {
        TransportRequest::Bulk { endpoint: in_endpoint }
    }
}

/// The transfer that writes a packet: a bulk transfer on the endpoint or,
/// where the endpoint is 0, a `SET_REPORT` request to the interface.
pub fn write_request(interface: u8, out_endpoint: u8) -> (request: TransportRequest)
    ensures
        request == if out_endpoint == 0 {
            TransportRequest::Control {
                request_type: REQUEST_TYPE_OUT,
                request: SET_REPORT,
                value: OUTPUT_REPORT,
                index: interface as u16,
            }
        } else {
            TransportRequest::Bulk { endpoint: out_endpoint }
        },
{
    if out_endpoint == 0 {
        TransportRequest::Control {
            request_type: REQUEST_TYPE_OUT,
            request: SET_REPORT,
            value: OUTPUT_REPORT,
            index: interface as u16,
        }
    } else {
        TransportRequest::Bulk { endpoint: out_endpoint }
    }
}

} // verus!
