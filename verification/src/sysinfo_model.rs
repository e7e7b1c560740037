//! System-snapshot data model.
//!
//! Memory, network and OS telemetry is a one-shot query of the machine,
//! collected at the process edge; it is carried through the library as
//! plain text in these records.

use vstd::prelude::*;

verus! {

/// One network interface of a snapshot: its 1-based position in the
/// interface walk, its name, and its MAC address.
#[derive(Debug, Clone)]
pub struct OsNet {
    pub id: usize,
    pub name: String,
    pub mac: String,
}

/// A host snapshot: OS name and version, host name, a memory-usage
/// summary, and the network interfaces.
#[derive(Debug, Clone)]
pub struct OsSysInfo {
    pub name: String,
    pub version: String,
    pub host: String,
    pub memory: String,
    pub networks: Vec<OsNet>,
}

/// The interfaces of a walk, in walk order, numbered from 1: the entry
/// at position `i` of `raw` (its name and its MAC address) becomes the
/// interface with id `i + 1`.
pub fn nets_with_ids(raw: Vec<(String, String)>) -> (r: Vec<OsNet>)
    ensures
        r@.len() == raw@.len(),
        forall|j: int|
            0 <= j < raw@.len() ==> (#[trigger] r@[j]).id == j + 1 && r@[j].name@ == raw@[j].0@
                && r@[j].mac@ == raw@[j].1@,
{
    let mut out: Vec<OsNet> = Vec::new();
    let n = raw.len();
    let mut i: usize = 0;
    while i < n
        invariant
            i <= n,
            n == raw@.len(),
            out@.len() == i,
            forall|j: int|
                0 <= j < i ==> (#[trigger] out@[j]).id == j + 1 && out@[j].name@ == raw@[j].0@
                    && out@[j].mac@ == raw@[j].1@,
        decreases n - i,
    {
        let name = raw[i].0.clone();
        let mac = raw[i].1.clone();
        out.push(OsNet { id: i + 1, name, mac });
        i = i + 1;
    }
    out
}

} // verus!
