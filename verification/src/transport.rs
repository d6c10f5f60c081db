//! The transport-facing value types: selectable endpoints as the port
//! enumerators report them, and the pure device detection that picks
//! known device families out of port names. Opening ports and moving
//! bytes is the transport collaborator's work.

use vstd::prelude::*;
use vstd::string::StringSliceAdditionalSpecFns;
use crate::error::FractalCoreError;
use crate::model::FractalModel;

verus! {

pub type TransportMessage = Vec<u8>;

/// One selectable target: which transport it belongs to, and the
/// transport's own endpoint identity.
#[derive(Debug, Clone)]
pub struct Endpoint {
    pub transport_id: String,
    pub transport_endpoint: TransportEndpoint,
}

/// A transport endpoint as its enumerator reports it.
#[derive(Debug, Clone)]
pub struct TransportEndpoint {
    pub id: String,
    pub name: String,
}

/// Whether `needle` occurs as a contiguous run inside `hay`.
pub open spec fn spec_contains_bytes(hay: Seq<u8>, needle: Seq<u8>) -> bool {
    exists|k: int|
        0 <= k && k + needle.len() <= hay.len() && #[trigger] hay.subrange(k, k + needle.len())
            == needle
}

fn bytes_match_at(hay: &[u8], needle: &[u8], k: usize) -> (r: bool)
    requires
        k + needle@.len() <= hay@.len(),
    ensures
        r == (hay@.subrange(k as int, k + needle@.len()) =~= needle@),
{
    let hay_len = hay.len();
    let mut j: usize = 0;
    while j < needle.len()
        invariant
            j <= needle@.len(),
            k + needle@.len() <= hay@.len(),
            hay@.len() <= usize::MAX,
            forall|t: int| 0 <= t < j ==> hay@[k + t] == needle@[t],
        decreases needle@.len() - j,
    {
        if hay[k + j] != needle[j] {
            proof {
                assert(hay@.subrange(k as int, k + needle@.len())[j as int] == hay@[k + j]);
            }
            return false;
        }
        j = j + 1;
    }
    proof {
        assert(hay@.subrange(k as int, k + needle@.len()) =~= needle@);
    }
    true
}

/// Byte-level substring search, the match a port-name filter uses.
pub fn contains_bytes(hay: &[u8], needle: &[u8]) -> (r: bool)
    ensures
        r == spec_contains_bytes(hay@, needle@),
{
    if needle.len() > hay.len() {
        proof {
            assert(!spec_contains_bytes(hay@, needle@));
        }
        return false;
    }
    if needle.len() == 0 {
        proof {
            assert(hay@.subrange(0, 0 + needle@.len() as int) =~= needle@);
        }
        return true;
    }
    let last = hay.len() - needle.len();
    let mut k: usize = 0;
    while k <= last
        invariant
            k <= last + 1,
            needle@.len() >= 1,
            last == hay@.len() - needle@.len(),
            hay@.len() <= usize::MAX,
            forall|t: int|
                0 <= t < k ==> #[trigger] hay@.subrange(t, t + needle@.len()) != needle@,
        decreases last + 1 - k,
    {
        if bytes_match_at(hay, needle, k) {
            return true;
        }
        k = k + 1;
    }
    proof {
        assert(!spec_contains_bytes(hay@, needle@));
    }
    false
}

/// Whether a port name contains the marker string, compared on their
/// encoded bytes.
pub open spec fn spec_name_matches(name: Seq<char>, needle: Seq<char>) -> bool {
    spec_contains_bytes(vstd::utf8::encode_utf8(name), vstd::utf8::encode_utf8(needle))
}

fn name_matches(name: &String, needle: &str) -> (r: bool)
    ensures
        r == spec_name_matches(name@, needle@),
{
    contains_bytes(name.as_str().as_bytes(), needle.as_bytes())
}

fn find_matching(ports: &Vec<String>, needle: &str) -> (r: Option<usize>)
    ensures
        r matches Some(k) ==> {
            &&& k < ports@.len()
            &&& spec_name_matches(ports@[k as int]@, needle@)
            &&& forall|j: int|
                0 <= j < k ==> !spec_name_matches(ports@[j]@, needle@)
        },
        r is None ==> forall|j: int|
            0 <= j < ports@.len() ==> !spec_name_matches(ports@[j]@, needle@),
{
    let mut k: usize = 0;
    while k < ports.len()
        invariant
            k <= ports@.len(),
            forall|j: int| 0 <= j < k ==> !spec_name_matches(ports@[j]@, needle@),
        decreases ports@.len() - k,
    {
        if name_matches(&ports[k], needle) {
            return Some(k);
        }
        k = k + 1;
    }
    None
}

/// The MIDI transport's identity; port enumeration itself is the
/// platform collaborator's work.
pub struct Midi {
    pub client_name: String,
}

impl Midi {
    pub fn new() -> (r: Result<Self, FractalCoreError>)
        ensures
            r matches Ok(m) && m.client_name@ == "FractalCore"@,
    {
        Ok(Midi { client_name: String::from_str("FractalCore") })
    }
}

/// The port names one MIDI enumeration found.
#[derive(Debug, Clone)]
pub struct MidiPorts {
    pub inputs: Vec<String>,
    pub outputs: Vec<String>,
}

/// A request to open one detected device: its two port names and the
/// family its name betrayed.
#[derive(Debug)]
pub struct MidiConnectionDeviceRequest {
    pub input_port_name: String,
    pub output_port_name: String,
    pub fractal_model: Option<FractalModel>,
}

impl MidiPorts {
    /// Picks known device families out of the port names: for each known
    /// family marker, in order, the first input and first output port
    /// whose names contain it.
    pub fn detect_fractal_devices(&self) -> (r: Vec<MidiConnectionDeviceRequest>)
        ensures
            ({
                let iii = (exists|i: int|
                    0 <= i < self.inputs@.len() && spec_name_matches(
                        #[trigger] self.inputs@[i]@,
                        "Axe-Fx III"@,
                    )) && (exists|i: int|
                    0 <= i < self.outputs@.len() && spec_name_matches(
                        #[trigger] self.outputs@[i]@,
                        "Axe-Fx III"@,
                    ));
                let fm3 = (exists|i: int|
                    0 <= i < self.inputs@.len() && spec_name_matches(
                        #[trigger] self.inputs@[i]@,
                        "FM3"@,
                    )) && (exists|i: int|
                    0 <= i < self.outputs@.len() && spec_name_matches(
                        #[trigger] self.outputs@[i]@,
                        "FM3"@,
                    ));
                &&& r@.len() == (if iii {
                    1int
                } else {
                    0int
                }) + (if fm3 {
                    1int
                } else {
                    0int
                })
                &&& (iii ==> r@[0].fractal_model == Some(FractalModel::III))
                &&& (fm3 ==> r@[r@.len() - 1].fractal_model == Some(FractalModel::FM3))
                &&& (iii ==> exists|i: int|
                    {
                        &&& 0 <= i < self.inputs@.len()
                        &&& spec_name_matches(#[trigger] self.inputs@[i]@, "Axe-Fx III"@)
                        &&& forall|j: int|
                            0 <= j < i ==> !spec_name_matches(self.inputs@[j]@, "Axe-Fx III"@)
                        &&& r@[0].input_port_name@ == self.inputs@[i]@
                    })
                &&& (iii ==> exists|i: int|
                    {
                        &&& 0 <= i < self.outputs@.len()
                        &&& spec_name_matches(#[trigger] self.outputs@[i]@, "Axe-Fx III"@)
                        &&& forall|j: int|
                            0 <= j < i ==> !spec_name_matches(self.outputs@[j]@, "Axe-Fx III"@)
                        &&& r@[0].output_port_name@ == self.outputs@[i]@
                    })
                &&& (fm3 ==> exists|i: int|
                    {
                        &&& 0 <= i < self.inputs@.len()
                        &&& spec_name_matches(#[trigger] self.inputs@[i]@, "FM3"@)
                        &&& forall|j: int|
                            0 <= j < i ==> !spec_name_matches(self.inputs@[j]@, "FM3"@)
                        &&& r@[r@.len() - 1].input_port_name@ == self.inputs@[i]@
                    })
                &&& (fm3 ==> exists|i: int|
                    {
                        &&& 0 <= i < self.outputs@.len()
                        &&& spec_name_matches(#[trigger] self.outputs@[i]@, "FM3"@)
                        &&& forall|j: int|
                            0 <= j < i ==> !spec_name_matches(self.outputs@[j]@, "FM3"@)
                        &&& r@[r@.len() - 1].output_port_name@ == self.outputs@[i]@
                    })
            }),
    {
        let mut ret: Vec<MidiConnectionDeviceRequest> = Vec::new();

        match (find_matching(&self.inputs, "Axe-Fx III"), find_matching(
            &self.outputs,
            "Axe-Fx III",
        )) {
            (Some(i), Some(o)) => {
                ret.push(
                    MidiConnectionDeviceRequest {
                        input_port_name: self.inputs[i].clone(),
                        output_port_name: self.outputs[o].clone(),
                        fractal_model: Some(FractalModel::III),
                    },
                );
            },
            _ => {},
        }
        match (find_matching(&self.inputs, "FM3"), find_matching(&self.outputs, "FM3")) {
            (Some(i), Some(o)) => {
                ret.push(
                    MidiConnectionDeviceRequest {
                        input_port_name: self.inputs[i].clone(),
                        output_port_name: self.outputs[o].clone(),
                        fractal_model: Some(FractalModel::FM3),
                    },
                );
            },
            _ => {},
        }
        ret
    }
}

/// The serial transport's identity; port enumeration and opening are
/// the platform collaborator's work.
pub struct TransportSerial {}

impl TransportSerial {
    pub fn new() -> (r: Self) {
        TransportSerial {  }
    }
}

/// A serial port as its enumerator reports it.
#[derive(Debug, Clone)]
pub struct DetectedSerialPort {
    pub name: String,
    pub port: String,
}

} // verus!
