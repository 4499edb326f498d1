//! Microphone capture: the input devices offered, the device a recording
//! uses, and the sample formats it can record.
use vstd::prelude::*;

use crate::error::{AppError, AppResult};
use crate::text::{chars_eq, chars_of, push_str};

verus! {

/// Information about an available audio input device.
#[derive(Debug, Clone)]
pub struct AudioDeviceInfo {
    pub name: String,
    pub is_default: bool,
    pub sample_rate: u32,
    pub channels: u16,
}

/// What the audio host reports of an input device: its name, if it can be
/// read, and its default input configuration (sample rate and channels)
/// or the message of the error.
#[derive(Debug)]
pub struct InputDevice {
    pub name: Option<String>,
    pub config: Result<(u32, u16), String>,
}

/// The name a device is shown under: "Unknown" when it cannot be read.
pub open spec fn shown_name(d: InputDevice) -> Seq<char> {
    match d.name {
        Some(n) => n@,
        None => "Unknown"@,
    }
}

/// The first `n` devices described, or the message of the first failure
/// to read a configuration; a device is the default when its shown name is
/// the default device's name.
pub open spec fn spec_describe(default_name: Seq<char>, ds: Seq<InputDevice>, n: nat) -> Result<
    Seq<(Seq<char>, bool, u32, u16)>,
    Seq<char>,
>
    decreases n,
{
    if n == 0 {
        Ok(seq![])
    } else {
        match spec_describe(default_name, ds, (n - 1) as nat) {
            Err(m) => Err(m),
            Ok(prev) => {
                let d = ds[n - 1];
                let name = shown_name(d);
                match d.config {
                    Err(e) => Err("Failed to get config for device "@ + name + ": "@ + e@),
                    Ok((rate, ch)) => Ok(prev.push((name, name == default_name, rate, ch))),
                }
            },
        }
    }
}

/// `infos` describe the devices as `spec` says, in order.
pub open spec fn described(infos: Seq<AudioDeviceInfo>, spec: Seq<(Seq<char>, bool, u32, u16)>) -> bool {
    &&& infos.len() == spec.len()
    &&& forall|i: int|
        0 <= i < infos.len() ==> {
            &&& (#[trigger] infos[i]).name@ == spec[i].0
            &&& infos[i].is_default == spec[i].1
            &&& infos[i].sample_rate == spec[i].2
            &&& infos[i].channels == spec[i].3
        }
}

/// Once describing fails at some device, describing more devices gives the
/// same error.
proof fn lemma_describe_err_stays(default_name: Seq<char>, ds: Seq<InputDevice>, k: nat, n: nat)
    requires
        k <= n,
        spec_describe(default_name, ds, k) is Err,
    ensures
        spec_describe(default_name, ds, n) == spec_describe(default_name, ds, k),
    decreases n - k,
{
    if k < n {
        lemma_describe_err_stays(default_name, ds, k, (n - 1) as nat);
    }
}

/// The audio input devices to offer, given the default input device's name
/// (if there is one and it can be read) and the devices the host lists.
pub fn describe_input_devices(default_name: Option<String>, devices: Vec<InputDevice>) -> (r: AppResult<
    Vec<AudioDeviceInfo>,
>)
    ensures
        ({
            let dn = match default_name {
                Some(n) => n@,
                None => Seq::<char>::empty(),
            };
            match spec_describe(dn, devices@, devices@.len()) {
                Ok(s) => r matches Ok(v) && described(v@, s),
                Err(m) => r matches Err(AppError::Capture(e)) && e@ == m,
            }
        }),
{
    let dn = match default_name {
        Some(n) => chars_of(n.as_str()),
        None => Vec::new(),
    };
    let ghost dns = dn@;
    let mut out: Vec<AudioDeviceInfo> = Vec::new();
    let mut i: usize = 0;
    while i < devices.len()
        invariant
            i <= devices@.len(),
            dn@ == dns,
            dns == match default_name {
                Some(n) => n@,
                None => Seq::<char>::empty(),
            },
            spec_describe(dns, devices@, i as nat) matches Ok(s) && described(out@, s),
        decreases devices.len() - i,
    {
        let d = &devices[i];
        let name = match &d.name {
            Some(n) => n.clone(),
            None => String::from_str("Unknown"),
        };
        match &d.config {
            Err(e) => {
                let mut m = String::from_str("Failed to get config for device ");
                push_str(&mut m, name.as_str());
                push_str(&mut m, ": ");
                push_str(&mut m, e.as_str());
                proof {
                    assert(devices@[i as int] == *d);
                    assert(spec_describe(dns, devices@, (i + 1) as nat) == Err::<
                        Seq<(Seq<char>, bool, u32, u16)>,
                        Seq<char>,
                    >(m@));
                    lemma_describe_err_stays(dns, devices@, (i + 1) as nat, devices@.len());
                }
                return Err(AppError::Capture(m));
            },
            Ok((rate, ch)) => {
                let is_default = chars_eq(chars_of(name.as_str()).as_slice(), dn.as_slice());
                let ghost before = out@;
                out.push(AudioDeviceInfo { name, is_default, sample_rate: *rate, channels: *ch });
                i = i + 1;
                proof {
                    let s = spec_describe(dns, devices@, i as nat)->Ok_0;
                    assert forall|k: int| 0 <= k < out@.len() implies {
                        &&& (#[trigger] out@[k]).name@ == s[k].0
                        &&& out@[k].is_default == s[k].1
                        &&& out@[k].sample_rate == s[k].2
                        &&& out@[k].channels == s[k].3
                    } by {
                        if k < before.len() {
                            assert(out@[k] == before[k]);
                        }
                    }
                }
            },
        }
    }
    Ok(out)
}

/// Which device a recording captures from.
#[derive(Debug, Clone, Copy, PartialEq, Eq, Structural)]
pub enum DeviceChoice {
    /// The host's default input device.
    Default,
    /// The listed input device at this position.
    Listed(usize),
}

/// The first listed device whose name is `name`, or `names.len()`.
pub open spec fn first_named(names: Seq<Option<String>>, name: Seq<char>) -> nat
    decreases names.len(),
{
    if names.len() == 0 {
        0
    } else if names[0] matches Some(n) && n@ == name {
        0
    } else {
        1 + first_named(names.drop_first(), name)
    }
}

proof fn lemma_first_named(names: Seq<Option<String>>, name: Seq<char>, i: int)
    requires
        0 <= i <= names.len(),
        forall|j: int| 0 <= j < i ==> !(#[trigger] names[j] matches Some(n) && n@ == name),
        i == names.len() || (names[i] matches Some(n) && n@ == name),
    ensures
        first_named(names, name) == i,
    decreases i,
{
    if i > 0 {
        assert(forall|j: int| 0 <= j < i - 1 ==> names.drop_first()[j] == names[j + 1]);
        lemma_first_named(names.drop_first(), name, i - 1);
    }
}

/// The device to record from: the first listed device of the requested
/// name (devices whose name cannot be read never match), or the default
/// device when none is requested.
pub fn choose_input_device(requested: Option<&str>, names: &Vec<Option<String>>, has_default: bool) -> (r: AppResult<
    DeviceChoice,
>)
    ensures
        match requested {
            Some(n) => if first_named(names@, n@) < names@.len() {
                r == Ok::<DeviceChoice, AppError>(DeviceChoice::Listed(first_named(names@, n@) as usize))
            } else {
                r matches Err(AppError::Capture(m)) && m@ == "Audio device not found: "@ + n@
            },
            None => if has_default {
                r == Ok::<DeviceChoice, AppError>(DeviceChoice::Default)
            } else {
                r matches Err(AppError::Capture(m)) && m@ == "No default audio input device available"@
            },
        },
{
    match requested {
        Some(n) => {
            let want = chars_of(n);
            let mut i: usize = 0;
            while i < names.len()
                invariant
                    i <= names@.len(),
                    want@ == n@,
                    requested == Some(n),
                    forall|j: int| 0 <= j < i ==> !(#[trigger] names@[j] matches Some(x) && x@ == n@),
                decreases names.len() - i,
            {
                let hit = match &names[i] {
                    Some(x) => chars_eq(chars_of(x.as_str()).as_slice(), want.as_slice()),
                    None => false,
                };
                if hit {
                    proof {
                        lemma_first_named(names@, n@, i as int);
                    }
                    return Ok(DeviceChoice::Listed(i));
                }
                i = i + 1;
            }
            proof {
                lemma_first_named(names@, n@, i as int);
            }
            let mut m = String::from_str("Audio device not found: ");
            push_str(&mut m, n);
            Err(AppError::Capture(m))
        },
        None => if has_default {
            Ok(DeviceChoice::Default)
        } else {
            Err(AppError::Capture(String::from_str("No default audio input device available")))
        },
    }
}

/// The sample format of an input device's default configuration.
#[derive(Debug, Clone)]
pub enum SampleKind {
    F32,
    I16,
    U16,
    /// Another format, with its `Debug` rendering.
    Other(String),
}

/// Whether audio in this sample format can be recorded: 32-bit float, and
/// 16-bit signed or unsigned samples (converted to float); any other
/// format is refused.
pub fn check_sample_format(k: &SampleKind) -> (r: AppResult<()>)
    ensures
        match k {
            SampleKind::Other(d) => r matches Err(AppError::Capture(m)) && m@
                == "Unsupported audio sample format: "@ + d@,
            _ => r is Ok,
        },
{
    match k {
        SampleKind::Other(d) => {
            let mut m = String::from_str("Unsupported audio sample format: ");
            push_str(&mut m, d.as_str());
            Err(AppError::Capture(m))
        },
        _ => Ok(()),
    }
}

} // verus!
