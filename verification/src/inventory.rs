//! The camera inventory: which cameras the service reports, under which names
//! and in which order, once the ports were probed.

use vstd::prelude::*;
use vstd::string::StringExecFns;

verus! {

/// Whether a camera is free or is the one that streams.
#[derive(Clone, Copy, Debug, PartialEq, Eq, Structural)]
pub enum CameraStatus {
    Available,
    InUse,
}

/// One camera of the inventory.
#[derive(Debug, PartialEq, Eq)]
pub struct EyeInfo {
    pub index: i32,
    pub name: String,
    pub status: CameraStatus,
}

/// What the service reports of its host.
#[derive(Debug, PartialEq, Eq)]
pub struct SystemInfo {
    pub os_type: String,
    pub os_release: String,
    pub eyes: Vec<EyeInfo>,
}

/// The text of one decimal digit.
pub open spec fn digit_text(digit: int) -> Seq<char> {
    if digit == 0 {
        "0"@
    } else if digit == 1 {
        "1"@
    } else if digit == 2 {
        "2"@
    } else if digit == 3 {
        "3"@
    } else if digit == 4 {
        "4"@
    } else if digit == 5 {
        "5"@
    } else if digit == 6 {
        "6"@
    } else if digit == 7 {
        "7"@
    } else if digit == 8 {
        "8"@
    } else {
        "9"@
    }
}

/// A natural number in decimal, without leading zeros.
pub open spec fn decimal_of_nat(n: nat) -> Seq<char>
    decreases n,
{
    if n < 10 {
        digit_text(n as int)
    } else {
        decimal_of_nat(n / 10) + digit_text((n % 10) as int)
    }
}

/// An integer in decimal, with `-` before a negative one.
pub open spec fn decimal_of(n: int) -> Seq<char> {
    if n < 0 {
        "-"@ + decimal_of_nat((-n) as nat)
    } else {
        decimal_of_nat(n as nat)
    }
}

fn digit(d: u64) -> (text: &'static str)
    requires
        d < 10,
    ensures
        text@ == digit_text(d as int),
{
    if d == 0 {
        "0"
    } else if d == 1 {
        "1"
    } else if d == 2 {
        "2"
    } else if d == 3 {
        "3"
    } else if d == 4 {
        "4"
    } else if d == 5 {
        "5"
    } else if d == 6 {
        "6"
    } else if d == 7 {
        "7"
    } else if d == 8 {
        "8"
    } else {
        "9"
    }
}

fn decimal_nat(n: u64) -> (text: String)
    ensures
        text@ == decimal_of_nat(n as nat),
    decreases n,
{
    if n < 10 {
        digit(n).to_owned()
    } else {
        let mut text = decimal_nat(n / 10);
        text.append(digit(n % 10));
        text
    }
}

/// Writes a device index in decimal.
pub fn decimal(n: i32) -> (text: String)
    ensures
        text@ == decimal_of(n as int),
{
    if n < 0 {
        let magnitude: u64 = (-(n as i64)) as u64;
        let mut text = "-".to_owned();
        let digits = decimal_nat(magnitude);
        text.append(digits.as_str());
        text
    } else {
        decimal_nat(n as u64)
    }
}

/// The name under which the camera of an index is reported.
pub open spec fn camera_name(index: i32, status: CameraStatus) -> Seq<char> {
    match status {
        CameraStatus::Available => "Camera "@ + decimal_of(index as int),
        CameraStatus::InUse => "Camera "@ + decimal_of(index as int) + " (in use)"@,
    }
}

/// The entry of a camera.
pub fn eye_info(index: i32, status: CameraStatus) -> (eye: EyeInfo)
    ensures
        eye.index == index,
        eye.status == status,
        eye.name@ == camera_name(index, status),
{
    let mut name = "Camera ".to_owned();
    let number = decimal(index);
    name.append(number.as_str());
    match status {
        CameraStatus::InUse => {
            name.append(" (in use)");
        },
        CameraStatus::Available => {},
    }
    EyeInfo { index, name, status }
}

/// Whether a port is to be probed: every port but the one that streams, whose
/// device is known to be there and must not be opened a second time.
pub fn needs_probe(current: Option<i32>, port: i32) -> (probe: bool)
    ensures
        probe == (current != Some(port)),
{
    match current {
        Some(index) => index != port,
        None => true,
    }
}

/// Whether the camera of `port` belongs to the inventory: it streams, or the
/// probe of its port found a device. `opened[p]` is what the probe of port `p`
/// found; the entry of the port that streams is of no account.
pub open spec fn listed(current: Option<i32>, opened: Seq<bool>, port: int) -> bool {
    ||| current matches Some(index) && index == port
    ||| 0 <= port < opened.len() && opened[port]
}

/// The status under which a listed camera is reported.
pub open spec fn status_of(current: Option<i32>, port: i32) -> CameraStatus {
    if current == Some(port) {
        CameraStatus::InUse
    } else {
        CameraStatus::Available
    }
}

/// Whether the inventory has an entry for `port`.
pub open spec fn has_port(eyes: Seq<EyeInfo>, port: int) -> bool {
    exists|i: int| 0 <= i < eyes.len() && (#[trigger] eyes[i]).index == port
}

/// Whether `eyes` is the inventory: an entry for each listed camera and for no
/// other, each under its status and name, in ascending order of the index.
pub open spec fn is_inventory(eyes: Seq<EyeInfo>, current: Option<i32>, opened: Seq<bool>) -> bool {
    &&& forall|i: int, j: int|
        0 <= i < j < eyes.len() ==> (#[trigger] eyes[i]).index < (#[trigger] eyes[j]).index
    &&& forall|i: int|
        0 <= i < eyes.len() ==> {
            &&& listed(current, opened, (#[trigger] eyes[i]).index as int)
            &&& eyes[i].status == status_of(current, eyes[i].index)
            &&& eyes[i].name@ == camera_name(eyes[i].index, eyes[i].status)
        }
    &&& forall|port: int| #[trigger] listed(current, opened, port) ==> has_port(eyes, port)
}

proof fn lemma_pushed_keeps_ports(eyes: Seq<EyeInfo>, eye: EyeInfo)
    ensures
        has_port(eyes.push(eye), eye.index as int),
        forall|port: int| has_port(eyes, port) ==> has_port(eyes.push(eye), port),
{
    let after = eyes.push(eye);
    assert(after[eyes.len() as int].index == eye.index);
    assert forall|port: int| has_port(eyes, port) implies has_port(after, port) by {
        let i = choose|i: int| 0 <= i < eyes.len() && (#[trigger] eyes[i]).index == port;
        assert(after[i].index == port);
    }
}

/// Puts the inventory together from the index of the camera that streams, if
/// one does, and from what the probes of the ports `0..opened.len()` found.
pub fn assemble(current: Option<i32>, opened: &[bool]) -> (eyes: Vec<EyeInfo>)
    requires
        opened@.len() <= i32::MAX,
    ensures
        is_inventory(eyes@, current, opened@),
{
    let mut eyes: Vec<EyeInfo> = Vec::new();
    match current {
        Some(index) => {
            if index < 0 {
                let eye = eye_info(index, CameraStatus::InUse);
                proof {
                    lemma_pushed_keeps_ports(eyes@, eye);
                }
                eyes.push(eye);
            }
        },
        None => {},
    }
    let mut port: usize = 0;
    while port < opened.len()
        invariant
            port <= opened@.len() <= i32::MAX,
            forall|i: int, j: int|
                0 <= i < j < eyes@.len() ==> (#[trigger] eyes@[i]).index < (#[trigger] eyes@[j]).index,
            forall|i: int|
                0 <= i < eyes@.len() ==> {
                    &&& listed(current, opened@, (#[trigger] eyes@[i]).index as int)
                    &&& eyes@[i].status == status_of(current, eyes@[i].index)
                    &&& eyes@[i].name@ == camera_name(eyes@[i].index, eyes@[i].status)
                    &&& eyes@[i].index < port
                },
            forall|p: int| p < port && #[trigger] listed(current, opened@, p) ==> has_port(eyes@, p),
        decreases opened@.len() - port,
    {
        let ghost before = eyes@;
        let index = port as i32;
        let streams = !needs_probe(current, index);
        if streams || opened[port] {
            let status = if streams {
                CameraStatus::InUse
            } else {
                CameraStatus::Available
            };
            let eye = eye_info(index, status);
            proof {
                lemma_pushed_keeps_ports(eyes@, eye);
            }
            eyes.push(eye);
        }
        proof {
            assert forall|p: int| p < port + 1 && #[trigger] listed(current, opened@, p) implies has_port(
                eyes@,
                p,
            ) by {
                if p < port {
                    assert(has_port(before, p));
                    if eyes@.len() > before.len() {
                        lemma_pushed_keeps_ports(before, eyes@[before.len() as int]);
                        assert(eyes@ =~= before.push(eyes@[before.len() as int]));
                    }
                }
            }
        }
        port = port + 1;
    }
    let ghost before = eyes@;
    match current {
        Some(index) => {
            if index >= 0 && index as usize >= opened.len() {
                let eye = eye_info(index, CameraStatus::InUse);
                proof {
                    lemma_pushed_keeps_ports(eyes@, eye);
                }
                eyes.push(eye);
            }
        },
        None => {},
    }
    proof {
        assert forall|p: int| #[trigger] listed(current, opened@, p) implies has_port(eyes@, p) by {
            if p < opened@.len() {
                assert(has_port(before, p));
                if eyes@.len() > before.len() {
                    lemma_pushed_keeps_ports(before, eyes@[before.len() as int]);
                    assert(eyes@ =~= before.push(eyes@[before.len() as int]));
                }
            }
        }
    }
    eyes
}

/// The release that is reported where the system does not tell its own.
pub open spec fn unknown_release() -> Seq<char> {
    "Unknown"@
}

/// Puts the report of the host together. `os_release` is `None` where the
/// system did not tell it.
pub fn system_info(
    os_type: String,
    os_release: Option<String>,
    current: Option<i32>,
    opened: &[bool],
) -> (info: SystemInfo)
    requires
        opened@.len() <= i32::MAX,
    ensures
        info.os_type@ == os_type@,
        info.os_release@ == (match os_release {
            Some(release) => release@,
            None => unknown_release(),
        }),
        is_inventory(info.eyes@, current, opened@),
{
    let os_release = match os_release {
        Some(release) => release,
        None => "Unknown".to_owned(),
    };
    SystemInfo { os_type, os_release, eyes: assemble(current, opened) }
}

} // verus!
