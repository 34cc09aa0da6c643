use vstd::prelude::*;

verus! {

/// How a serial port is attached to the machine.
#[derive(Debug, Clone, Copy, PartialEq, Eq)]
pub enum PortMedium {
    Usb,
    Pci,
    Bluetooth,
    Unknown,
}

/// One serial port that the platform reports.
pub struct PortEntry {
    pub port_name: String,
    pub medium: PortMedium,
}

/// Whether a port on this medium may host a pluggable reader: USB or PCI.
pub open spec fn may_host_reader(medium: PortMedium) -> bool {
    medium is Usb || medium is Pci
}

/// The names of the ports that may host a reader, in the order listed.
pub open spec fn candidate_names(ports: Seq<PortEntry>) -> Seq<Seq<char>>
    decreases ports.len(),
{
    if ports.len() == 0 {
        Seq::empty()
    } else {
        let before = candidate_names(ports.drop_last());
        if may_host_reader(ports.last().medium) {
            before.push(ports.last().port_name@)
        } else {
            before
        }
    }
}

/// Keeps the USB- and PCI-attached ports of a platform listing, in order;
/// an empty result is a valid answer.
pub fn candidate_ports(ports: &Vec<PortEntry>) -> (r: Vec<String>)
    ensures
        r@.map_values(|s: String| s@) == candidate_names(ports@),
{
    let mut names: Vec<String> = Vec::new();
    let mut i: usize = 0;
    while i < ports.len()
        invariant
            i <= ports@.len(),
            names@.map_values(|s: String| s@) == candidate_names(ports@.take(i as int)),
        decreases ports@.len() - i,
    {
        let entry = &ports[i];
        assert(ports@.take(i + 1).drop_last() =~= ports@.take(i as int));
        let keep = match entry.medium {
            PortMedium::Usb => true,
            PortMedium::Pci => true,
            _ => false,
        };
        if keep {
            names.push(entry.port_name.clone());
            assert(names@.map_values(|s: String| s@) =~= candidate_names(ports@.take(i as int)).push(
                entry.port_name@,
            ));
        }
        i = i + 1;
    }
    assert(ports@.take(i as int) =~= ports@);
    names
}

} // verus!
