//! USB serial-port inventory.
//!
//! The host scan is a one-shot query of the machine; which ports it
//! reports is environmental. What is verified is the shaping: of the
//! scanned ports exactly the USB ones are kept, each under the index it
//! held in the scan, described by its manufacturer or `unknown`.

use vstd::prelude::*;
use vstd::string::*;

verus! {

/// One port as the host scan hands it over: its name, whether it sits on
/// the USB bus, and the manufacturer when the bus reports one.
#[derive(Debug, Clone)]
pub struct RawPort {
    pub name: String,
    pub is_usb: bool,
    pub manufacturer: Option<String>,
}

/// One discovered USB serial port.
#[derive(Debug, Clone)]
pub struct PortInfo {
    id: usize,
    label: String,
    desc: String,
}

/// What a [`PortInfo`] stands for.
pub ghost struct PortInfoView {
    pub id: int,
    pub label: Seq<char>,
    pub desc: Seq<char>,
}

impl View for PortInfo {
    type V = PortInfoView;

    closed spec fn view(&self) -> PortInfoView {
        PortInfoView { id: self.id as int, label: self.label@, desc: self.desc@ }
    }
}

impl PortInfo {
    /// The index the port held in the scan.
    pub fn id(&self) -> (r: usize)
        ensures
            r as int == self@.id,
    {
        self.id
    }

    /// The port's name.
    pub fn label(&self) -> (r: &String)
        ensures
            r@ == self@.label,
    {
        &self.label
    }

    /// The manufacturer the bus reported, or `unknown`.
    pub fn desc(&self) -> (r: &String)
        ensures
            r@ == self@.desc,
    {
        &self.desc
    }
}

/// The description a scanned port gets: its manufacturer, or `unknown`
/// where the bus reports none.
pub open spec fn spec_desc(m: Option<String>) -> Seq<char> {
    match m {
        Some(s) => s@,
        None => "unknown"@,
    }
}

/// The USB ports among the first `n` scanned ones, in scan order, each
/// under its scan index.
pub open spec fn spec_port_views(raw: Seq<RawPort>, n: int) -> Seq<PortInfoView>
    decreases n,
{
    if n <= 0 {
        Seq::empty()
    } else {
        spec_port_views(raw, n - 1) + (if raw[n - 1].is_usb {
            seq![
                PortInfoView {
                    id: n - 1,
                    label: raw[n - 1].name@,
                    desc: spec_desc(raw[n - 1].manufacturer),
                },
            ]
        } else {
            Seq::empty()
        })
    }
}

/// Every id among the first `n` scanned ports' views is below `n`, and
/// the ids strictly increase: each port keeps its scan position.
pub proof fn lemma_port_views_increasing(raw: Seq<RawPort>, n: int)
    ensures
        forall|j: int|
            0 <= j < spec_port_views(raw, n).len() ==> (#[trigger] spec_port_views(raw, n)[j]).id
                < n,
        forall|j: int, k: int|
            0 <= j < k < spec_port_views(raw, n).len() ==> (#[trigger] spec_port_views(raw, n)[j]).id
                < (#[trigger] spec_port_views(raw, n)[k]).id,
    decreases n,
{
    if n > 0 {
        lemma_port_views_increasing(raw, n - 1);
        let prev = spec_port_views(raw, n - 1);
        let cur = spec_port_views(raw, n);
        if raw[n - 1].is_usb {
            assert(forall|j: int| 0 <= j < prev.len() ==> cur[j] == prev[j]);
            assert(cur[cur.len() - 1].id == n - 1);
        } else {
            assert(cur =~= prev);
        }
    }
}

/// Relies on `serialport::available_ports`: the host's serial-port scan;
/// which ports it reports depends on the machine. Each reported port is
/// handed over as its name, whether it is a USB port, and its
/// manufacturer.
#[verifier::external_body]
fn scan_ports() -> (r: Option<Vec<RawPort>>) {
    let ports = serialport::available_ports().ok()?;
    Some(ports.into_iter().map(|p| {
        let (is_usb, manufacturer) = match p.port_type {
            serialport::SerialPortType::UsbPort(u) => (true, u.manufacturer),
            serialport::SerialPortType::PciPort => (false, None),
            serialport::SerialPortType::BluetoothPort => (false, None),
            serialport::SerialPortType::Unknown => (false, None),
        };
        RawPort { name: p.port_name, is_usb, manufacturer }
    }).collect())
}

/// The USB ports of a scan, in scan order: exactly those entries marked
/// USB, each under its scan index, described by its manufacturer or
/// `unknown`.
pub fn ports_from_scan(raw: Vec<RawPort>) -> (r: Vec<PortInfo>)
    ensures
        r@.len() == spec_port_views(raw@, raw@.len() as int).len(),
        forall|j: int|
            0 <= j < r@.len() ==> #[trigger] r@[j]@ == spec_port_views(
                raw@,
                raw@.len() as int,
            )[j],
{
    let mut out: Vec<PortInfo> = Vec::new();
    let n = raw.len();
    let mut i: usize = 0;
    while i < n
        invariant
            i <= n,
            n == raw@.len(),
            out@.len() == spec_port_views(raw@, i as int).len(),
            forall|j: int|
                0 <= j < out@.len() ==> #[trigger] out@[j]@ == spec_port_views(raw@, i as int)[j],
        decreases n - i,
    {
        let p = &raw[i];
        if p.is_usb {
            let desc = match &p.manufacturer {
                Some(m) => m.clone(),
                None => String::from_str("unknown"),
            };
            out.push(PortInfo { id: i, label: p.name.clone(), desc });
        }
        i = i + 1;
    }
    out
}

/// Every USB serial port the host reports, in scan order. What the scan
/// reports is the machine's; whatever it reports, each port is listed
/// under its scan index, so the ids strictly increase.
pub fn serial_port_list() -> (r: Vec<PortInfo>)
    ensures
        forall|j: int, k: int|
            0 <= j < k < r@.len() ==> #[trigger] r@[j]@.id < #[trigger] r@[k]@.id,
{
    match scan_ports() {
        Some(raw) => {
            let ghost rv = raw@;
            let r = ports_from_scan(raw);
            proof {
                lemma_port_views_increasing(rv, rv.len() as int);
            }
            r
        },
        None => Vec::new(),
    }
}

} // verus!
