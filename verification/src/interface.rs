//! Choosing the interface of a probe through which packets are exchanged.

use vstd::prelude::*;
use crate::error::ProbeCreationError;

verus! {

/// USB vendor id of the probes that this library looks for.
pub const USB_VID: u16 = 0x0D28;

/// USB product id of the probes that this library looks for.
pub const USB_PID: u16 = 0x0204;

/// Interface class of a human interface device.
pub const HID_CLASS: u8 = 0x03;

/// Direction bit of an endpoint address: set for device-to-host.
pub const ENDPOINT_IN: u8 = 0x80;

/// Whether a device with these ids is a probe of the kind looked for.
pub fn is_cmsis_dap_device(vendor_id: u16, product_id: u16) -> (b: bool)
    ensures
        b == (vendor_id == USB_VID && product_id == USB_PID),
{
    vendor_id == USB_VID && product_id == USB_PID
}

/// Whether a device is a probe of the kind looked for, given the vendor and
/// product id of its descriptor, or nothing where the descriptor could not
/// be read. A device whose descriptor cannot be read is no probe.
pub fn is_probe_descriptor(ids: Option<(u16, u16)>) -> (b: bool)
    ensures
        b == (ids matches Some(p) && p.0 == USB_VID && p.1 == USB_PID),
{
    match ids {
        Some(p) => is_cmsis_dap_device(p.0, p.1),
        None => false,
    }
}

/// What the selection reads of one interface of the active configuration.
#[derive(Debug, Clone, PartialEq, Eq)]
pub struct InterfaceInfo {
    /// The interface number.
    pub number: u8,
    /// Class, sub-class and protocol code of the first alternate setting.
    pub class_code: u8,
    pub sub_class_code: u8,
    pub protocol_code: u8,
    /// The interface's descriptive string; empty where it has none.
    pub name: Vec<u8>,
    /// The addresses of the interface's endpoints, in descriptor order.
    pub endpoints: Vec<u8>,
}

/// The protocol generation that an interface speaks.
#[derive(Debug, Clone, Copy, PartialEq, Eq, Structural)]
pub enum Generation {
    /// Packets travel as HID reports.
    Legacy,
    /// Packets travel over a pair of bulk endpoints.
    VendorBulk,
}

/// The interface chosen for talking to the probe. An endpoint address of 0
/// on a legacy interface stands for the control-request fallback.
#[derive(Debug, Clone, Copy, PartialEq, Eq, Structural)]
pub struct ProbeInterface {
    pub number: u8,
    pub in_endpoint: u8,
    pub out_endpoint: u8,
    pub generation: Generation,
}

/// The name with which a vendor-bulk interface starts: `CMSIS-DAP v2`.
pub open spec fn vendor_prefix() -> Seq<u8> {
    seq![0x43u8, 0x4Du8, 0x53u8, 0x49u8, 0x53u8, 0x2Du8, 0x44u8, 0x41u8, 0x50u8, 0x20u8, 0x76u8, 0x32u8]
}

/// Whether a descriptive string starts with the vendor-bulk name.
pub open spec fn has_vendor_name(name: Seq<u8>) -> bool {
    name.len() >= 12 && name.subrange(0, 12) == vendor_prefix()
}

/// Whether an endpoint address has the device-to-host direction.
pub open spec fn is_in(endpoint: u8) -> bool {
    endpoint >= ENDPOINT_IN
}

/// The last device-to-host endpoint of a list, or 0 where it has none.
pub open spec fn last_in(endpoints: Seq<u8>) -> u8
    decreases endpoints.len(),
{
    if endpoints.len() == 0 {
        0
    } else if is_in(endpoints.last()) {
        endpoints.last()
    } else {
        last_in(endpoints.drop_last())
    }
}

/// The last host-to-device endpoint of a list, or 0 where it has none.
pub open spec fn last_out(endpoints: Seq<u8>) -> u8
    decreases endpoints.len(),
{
    if endpoints.len() == 0 {
        0
    } else if !is_in(endpoints.last()) {
        endpoints.last()
    } else {
        last_out(endpoints.drop_last())
    }
}

impl InterfaceInfo {
    /// Whether the interface has the class triple of the legacy HID
    /// interface.
    pub open spec fn is_hid(self) -> bool {
        self.class_code == HID_CLASS && self.sub_class_code == 0 && self.protocol_code == 0
    }

    /// The interface taken as a legacy interface. Its host-to-device
    /// endpoint is used only where `use_hid_out` asks for it.
    pub open spec fn as_legacy(self, use_hid_out: bool) -> ProbeInterface {
        ProbeInterface {
            number: self.number,
            in_endpoint: last_in(self.endpoints@),
            out_endpoint: if use_hid_out {
                last_out(self.endpoints@)
            } else {
                0
            },
            generation: Generation::Legacy,
        }
    }

    /// The interface taken as a vendor-bulk interface.
    pub open spec fn as_vendor(self) -> ProbeInterface {
        ProbeInterface {
            number: self.number,
            in_endpoint: last_in(self.endpoints@),
            out_endpoint: last_out(self.endpoints@),
            generation: Generation::VendorBulk,
        }
    }
}

impl ProbeInterface {
    /// Whether both bulk endpoints were found.
    pub open spec fn has_both_endpoints(self) -> bool {
        self.in_endpoint != 0 && self.out_endpoint != 0
    }
}

/// The last HID interface of a configuration, taken as a legacy interface.
pub open spec fn legacy_choice(interfaces: Seq<InterfaceInfo>, use_hid_out: bool) -> Option<
    ProbeInterface,
>
    decreases interfaces.len(),
{
    if interfaces.len() == 0 {
        None
    } else if interfaces.last().is_hid() {
        Some(interfaces.last().as_legacy(use_hid_out))
    } else {
        legacy_choice(interfaces.drop_last(), use_hid_out)
    }
}

/// The last interface of a configuration that carries the vendor-bulk name.
pub open spec fn vendor_choice(interfaces: Seq<InterfaceInfo>) -> Option<ProbeInterface>
    decreases interfaces.len(),
{
    if interfaces.len() == 0 {
        None
    } else if has_vendor_name(interfaces.last().name@) {
        Some(interfaces.last().as_vendor())
    } else {
        vendor_choice(interfaces.drop_last())
    }
}

/// The interface that selection yields: the vendor-bulk interface where it
/// has both endpoints, else the legacy interface, else nothing.
pub open spec fn selection(interfaces: Seq<InterfaceInfo>, use_hid_out: bool) -> Result<
    ProbeInterface,
    ProbeCreationError,
> {
    let vendor = vendor_choice(interfaces);
    let legacy = legacy_choice(interfaces, use_hid_out);
    if vendor is Some && vendor->0.has_both_endpoints() {
        Ok(vendor->0)
    } else if legacy is Some {
        Ok(legacy->0)
    } else {
        Err(ProbeCreationError::InterfaceNotFound)
    }
}

/// A vendor-bulk interface is selected only with both of its endpoints.
pub proof fn lemma_vendor_selection_has_both_endpoints(
    interfaces: Seq<InterfaceInfo>,
    use_hid_out: bool,
)
    ensures
        selection(interfaces, use_hid_out) matches Ok(chosen) ==> (chosen.generation
            is VendorBulk ==> chosen.has_both_endpoints()),
{
    lemma_legacy_choice_is_legacy(interfaces, use_hid_out);
}

/// What the legacy scan yields is a legacy interface, with no host-to-device
/// endpoint unless one was asked for.
pub proof fn lemma_legacy_choice_is_legacy(interfaces: Seq<InterfaceInfo>, use_hid_out: bool)
    ensures
        legacy_choice(interfaces, use_hid_out) matches Some(chosen) ==> chosen.generation
            is Legacy && (!use_hid_out ==> chosen.out_endpoint == 0),
    decreases interfaces.len(),
{
    if interfaces.len() > 0 {
        lemma_legacy_choice_is_legacy(interfaces.drop_last(), use_hid_out);
    }
}

/// Finds the last device-to-host and the last host-to-device endpoint.
pub fn scan_endpoints(endpoints: &Vec<u8>) -> (found: (u8, u8))
    ensures
        found.0 == last_in(endpoints@),
        found.1 == last_out(endpoints@),
{
    let mut in_endpoint: u8 = 0;
    let mut out_endpoint: u8 = 0;
    let mut i: usize = 0;
    while i < endpoints.len()
        invariant
            i <= endpoints.len(),
            in_endpoint == last_in(endpoints@.take(i as int)),
            out_endpoint == last_out(endpoints@.take(i as int)),
        decreases endpoints.len() - i,
    {
        proof {
            assert(endpoints@.take(i + 1).drop_last() == endpoints@.take(i as int));
        }
        let endpoint: u8 = endpoints[i];
        if endpoint >= ENDPOINT_IN {
            in_endpoint = endpoint;
        } else {
            out_endpoint = endpoint;
        }
        i = i + 1;
    }
    proof {
        assert(endpoints@.take(endpoints.len() as int) == endpoints@);
    }
    (in_endpoint, out_endpoint)
}

/// Whether a descriptive string starts with `CMSIS-DAP v2`.
pub fn starts_with_vendor_name(name: &Vec<u8>) -> (b: bool)
    ensures
        b == has_vendor_name(name@),
{
    if name.len() < 12 {
        return false;
    }
    let b = name[0] == 0x43 && name[1] == 0x4D && name[2] == 0x53 && name[3] == 0x49 && name[4]
        == 0x53 && name[5] == 0x2D && name[6] == 0x44 && name[7] == 0x41 && name[8] == 0x50
        && name[9] == 0x20 && name[10] == 0x76 && name[11] == 0x32;
    proof {
        let head = name@.subrange(0, 12);
        let prefix = vendor_prefix();
        assert(forall|k: int| 0 <= k < 12 ==> head[k] == name@[k]);
        if b {
            assert(head =~= prefix);
        } else if head == prefix {
            assert(head[0] == prefix[0] && head[1] == prefix[1] && head[2] == prefix[2]);
            assert(head[3] == prefix[3] && head[4] == prefix[4] && head[5] == prefix[5]);
            assert(head[6] == prefix[6] && head[7] == prefix[7] && head[8] == prefix[8]);
            assert(head[9] == prefix[9] && head[10] == prefix[10] && head[11] == prefix[11]);
        }
    }
    b
}

/// Picks the interface to talk to. A vendor-bulk interface, known by its
/// name, is taken where both of its endpoints are found; else the HID
/// interface, known by its class; else the selection fails with
/// `InterfaceNotFound`. Of several candidates of a kind the last counts.
pub fn select_interface(interfaces: &Vec<InterfaceInfo>, use_hid_out: bool) -> (r: Result<
    ProbeInterface,
    ProbeCreationError,
>)
    ensures
        r == selection(interfaces@, use_hid_out),
{
    let mut legacy: Option<ProbeInterface> = None;
    let mut vendor: Option<ProbeInterface> = None;
    let mut i: usize = 0;
    while i < interfaces.len()
        invariant
            i <= interfaces.len(),
            legacy == legacy_choice(interfaces@.take(i as int), use_hid_out),
            vendor == vendor_choice(interfaces@.take(i as int)),
        decreases interfaces.len() - i,
    {
        proof {
            assert(interfaces@.take(i + 1).drop_last() == interfaces@.take(i as int));
        }
        let interface = &interfaces[i];
        let hid = interface.class_code == HID_CLASS && interface.sub_class_code == 0
            && interface.protocol_code == 0;
        let named = starts_with_vendor_name(&interface.name);
        if hid || named {
            let found = scan_endpoints(&interface.endpoints);
            if hid {
                legacy = Some(
                    ProbeInterface {
                        number: interface.number,
                        in_endpoint: found.0,
                        out_endpoint: if use_hid_out {
                            found.1
                        } else {
                            0
                        },
                        generation: Generation::Legacy,
                    },
                );
            }
            if named {
                vendor = Some(
                    ProbeInterface {
                        number: interface.number,
                        in_endpoint: found.0,
                        out_endpoint: found.1,
                        generation: Generation::VendorBulk,
                    },
                );
            }
        }
        i = i + 1;
    }
    proof {
        assert(interfaces@.take(interfaces.len() as int) == interfaces@);
    }
    match vendor {
        Some(v) => {
            if v.in_endpoint != 0 && v.out_endpoint != 0 {
                return Ok(v);
            }
        },
        None => {},
    }
    match legacy {
        Some(l) => Ok(l),
        None => Err(ProbeCreationError::InterfaceNotFound),
    }
}

} // verus!
