//! Choosing the transceiver's serial port among those the system lists.
use vstd::prelude::*;

verus! {

/// How a serial port is attached.
pub enum PortKind {
    /// A USB device, with the product string it reports, if any.
    Usb { product: Option<String> },
    Pci,
    Bluetooth,
    Unknown,
}

/// A serial port as the system lists it.
pub struct PortCandidate {
    pub port_name: String,
    pub kind: PortKind,
}

/// The transceiver appears as a USB device with this product string.
pub open spec fn is_qdx_port(p: PortCandidate) -> bool {
    match p.kind {
        PortKind::Usb { product: Some(s) } => s@ == "QDX Transceiver"@,
        _ => false,
    }
}

/// The index of the first listed port that is the transceiver, if any.
pub fn find_qdx_serial_port(ports: &Vec<PortCandidate>) -> (r: Option<usize>)
    ensures
        match r {
            Some(i) => {
                &&& i < ports@.len()
                &&& is_qdx_port(ports@[i as int])
                &&& forall|j: int| 0 <= j < i ==> !is_qdx_port(#[trigger] ports@[j])
            },
            None => forall|j: int| 0 <= j < ports@.len() ==> !is_qdx_port(#[trigger] ports@[j]),
        },
{
    let wanted = String::from_str("QDX Transceiver");
    let mut i: usize = 0;
    while i < ports.len()
        invariant
            i <= ports@.len(),
            wanted@ == "QDX Transceiver"@,
            forall|j: int| 0 <= j < i ==> !is_qdx_port(#[trigger] ports@[j]),
        decreases ports@.len() - i,
    {
        match &ports[i].kind {
            PortKind::Usb { product: Some(s) } => {
                if *s == wanted {
                    return Some(i);
                }
            },
            _ => {},
        }
        i = i + 1;
    }
    None
}

} // verus!
