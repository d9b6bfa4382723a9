//! Audio device choice: which inputs are offered to the user, which input the
//! capture opens, at which rate, and which output serves as the virtual
//! microphone. Device enumeration itself belongs to the caller, which passes
//! the device names (`None` where a device's name could not be read).

use vstd::prelude::*;
use vstd::string::*;
use crate::text::{
    concat_str, contains, contains_chars, join, joined, lowercase, opt_string_views, string_views,
    to_lowercase,
};

verus! {

/// An input device offered to the user.
#[derive(Debug, Clone)]
pub struct AudioDevice {
    pub id: String,
    pub name: String,
    pub is_default: bool,
}

/// A lowercased device name that marks a virtual (loopback) device; capturing
/// from one would feed the converted voice back into the pipeline.
pub open spec fn is_virtual_lower(lower: Seq<char>) -> bool {
    ||| contains_chars(lower, "blackhole"@)
    ||| contains_chars(lower, "loopback"@)
    ||| contains_chars(lower, "voice.ai"@)
    ||| contains_chars(lower, "microsoft teams audio"@)
    ||| contains_chars(lower, "nomachine"@)
}

/// A device name that marks a virtual device, compared case-insensitively.
pub open spec fn is_virtual_name(name: Seq<char>) -> bool {
    is_virtual_lower(lowercase(name))
}

/// Whether `name` marks a virtual audio device (BlackHole, Loopback, Voice.ai,
/// Microsoft Teams Audio, NoMachine), ignoring case.
pub fn is_virtual_device_name(name: &str) -> (virt: bool)
    ensures
        virt == is_virtual_name(name@),
{
    let lower = to_lowercase(name);
    let l = lower.as_str();
    contains(l, "blackhole") || contains(l, "loopback") || contains(l, "voice.ai") || contains(
        l,
        "microsoft teams audio",
    ) || contains(l, "nomachine")
}

/// The names of the input devices that are offered: all but virtual ones, in
/// enumeration order.
pub open spec fn offered_names(names: Seq<Seq<char>>) -> Seq<Seq<char>> {
    names.filter(|n: Seq<char>| !is_virtual_name(n))
}

/// The input devices offered to the user, built from the names of the
/// enumerated input devices and the name of the default input device: virtual
/// devices are left out, each device's id is its name, and the device whose
/// name equals the default's is marked default.
pub fn input_device_list(names: &Vec<String>, default_name: Option<&String>) -> (devices: Vec<AudioDevice>)
    ensures
        devices@.len() == offered_names(string_views(names@)).len(),
        forall|i: int|
            0 <= i < devices@.len() ==> {
                let n = offered_names(string_views(names@))[i];
                &&& (#[trigger] devices@[i]).id@ == n
                &&& devices@[i].name@ == n
                &&& devices@[i].is_default == (default_name matches Some(d) && d@ == n)
            },
        forall|i: int| 0 <= i < devices@.len() ==> !is_virtual_name(#[trigger] devices@[i].name@),
{
    let ghost views = string_views(names@);
    let ghost pred = |n: Seq<char>| !is_virtual_name(n);
    let mut out: Vec<AudioDevice> = Vec::new();
    let mut i: usize = 0;
    while i < names.len()
        invariant
            views == string_views(names@),
            pred == (|n: Seq<char>| !is_virtual_name(n)),
            i <= names@.len(),
            out@.len() == views.take(i as int).filter(pred).len(),
            forall|k: int|
                0 <= k < out@.len() ==> {
                    let n = views.take(i as int).filter(pred)[k];
                    &&& (#[trigger] out@[k]).id@ == n
                    &&& out@[k].name@ == n
                    &&& out@[k].is_default == (default_name matches Some(d) && d@ == n)
                },
        decreases names@.len() - i,
    {
        reveal_with_fuel(Seq::<_>::filter, 1);
        assert(views.take(i + 1).drop_last() =~= views.take(i as int));
        assert(views.take(i + 1).last() == names@[i as int]@);
        let name = &names[i];
        if !is_virtual_device_name(name.as_str()) {
            let is_default = match default_name {
                Some(d) => d.eq(name),
                None => false,
            };
            out.push(AudioDevice { id: name.clone(), name: name.clone(), is_default });
        }
        i = i + 1;
    }
    assert(views.take(names@.len() as int) =~= views);
    assert forall|i: int| 0 <= i < out@.len() implies !is_virtual_name(#[trigger] out@[i].name@) by {
        views.lemma_filter_pred(pred, i);
    }
    out
}

/// A device counts as virtual exactly when its lowercased name contains
/// "blackhole", "loopback", "voice.ai", "microsoft teams audio" or
/// "nomachine". Such a device is never offered as an input (capturing from it
/// would feed the converted voice back), every other listed device is, and
/// nothing else is.
pub proof fn lemma_inputs_leave_out_exactly_virtual_devices(names: Seq<Seq<char>>)
    ensures
        forall|n: Seq<char>|
            #[trigger] is_virtual_name(n) <==> {
                let l = lowercase(n);
                ||| contains_chars(l, "blackhole"@)
                ||| contains_chars(l, "loopback"@)
                ||| contains_chars(l, "voice.ai"@)
                ||| contains_chars(l, "microsoft teams audio"@)
                ||| contains_chars(l, "nomachine"@)
            },
        forall|i: int|
            0 <= i < offered_names(names).len() ==> {
                let l = lowercase(#[trigger] offered_names(names)[i]);
                &&& !contains_chars(l, "blackhole"@)
                &&& !contains_chars(l, "loopback"@)
                &&& !contains_chars(l, "voice.ai"@)
                &&& !contains_chars(l, "microsoft teams audio"@)
                &&& !contains_chars(l, "nomachine"@)
            },
        forall|n: Seq<char>|
            #[trigger] names.contains(n) && {
                let l = lowercase(n);
                &&& !contains_chars(l, "blackhole"@)
                &&& !contains_chars(l, "loopback"@)
                &&& !contains_chars(l, "voice.ai"@)
                &&& !contains_chars(l, "microsoft teams audio"@)
                &&& !contains_chars(l, "nomachine"@)
            } ==> offered_names(names).contains(n),
        forall|n: Seq<char>| #[trigger] offered_names(names).contains(n) ==> names.contains(n),
{
    let pred = |n: Seq<char>| !is_virtual_name(n);
    assert forall|i: int| 0 <= i < offered_names(names).len() implies pred(
        #[trigger] offered_names(names)[i],
    ) by {
        names.lemma_filter_pred(pred, i);
    }
    assert forall|n: Seq<char>| #[trigger] names.contains(n) && pred(n) implies offered_names(
        names,
    ).contains(n) by {
        let i = choose|i: int| 0 <= i < names.len() && names[i] == n;
        names.lemma_filter_contains(pred, i);
    }
    assert forall|n: Seq<char>| #[trigger] offered_names(names).contains(n) implies names.contains(
        n,
    ) by {
        names.lemma_filter_contains_rev(pred, n);
    }
}

/// Which input device the capture opens.
#[derive(Debug, Clone, Copy, PartialEq, Eq)]
pub enum CaptureChoice {
    /// The enumerated input device at this position.
    Listed(usize),
    /// The system's default input device.
    Default,
}

/// Why no capture device could be chosen.
#[derive(Debug, Clone)]
pub enum CaptureError {
    /// No input device carries the requested name.
    DeviceNotFound(String),
    /// No device was requested and the system has no default input device.
    NoDefaultDevice,
}

impl CaptureError {
    /// The error's message.
    pub fn message(&self) -> (text: String)
        ensures
            text@ == match self {
                CaptureError::DeviceNotFound(n) => "Device not found: "@ + n@,
                CaptureError::NoDefaultDevice => "No default input device"@,
            },
    {
        match self {
            CaptureError::DeviceNotFound(n) => concat_str("Device not found: ", n.as_str()),
            CaptureError::NoDefaultDevice => String::from_str("No default input device"),
        }
    }
}

/// The device name is known and equals `name`.
pub open spec fn named(o: Option<Seq<char>>, name: Seq<char>) -> bool {
    o == Some(name)
}

/// The device name is known and does not mark a virtual device.
pub open spec fn is_physical(o: Option<Seq<char>>) -> bool {
    o matches Some(n) && !is_virtual_name(n)
}

/// Chooses the input device to capture from. A requested name selects the
/// first input device with exactly that name (an error if there is none).
/// Otherwise the default input device is used, unless its name marks a
/// virtual device: then the first input device whose name is known and not
/// virtual is used, or the default after all if there is none. An unreadable
/// default name counts as empty.
pub fn choose_capture_device(
    requested: Option<&str>,
    input_names: &Vec<Option<String>>,
    default_device: Option<Option<String>>,
) -> (choice: Result<CaptureChoice, CaptureError>)
    ensures
        ({
            let names = opt_string_views(input_names@);
            match requested {
                Some(r) => match choice {
                    Ok(CaptureChoice::Listed(i)) => {
                        &&& i < names.len()
                        &&& named(names[i as int], r@)
                        &&& forall|j: int| 0 <= j < i ==> !named(#[trigger] names[j], r@)
                    },
                    Ok(CaptureChoice::Default) => false,
                    Err(CaptureError::DeviceNotFound(m)) => {
                        &&& m@ == r@
                        &&& forall|j: int| 0 <= j < names.len() ==> !named(#[trigger] names[j], r@)
                    },
                    Err(CaptureError::NoDefaultDevice) => false,
                },
                None => match default_device {
                    None => choice matches Err(CaptureError::NoDefaultDevice),
                    Some(dn) => {
                        let default_name = match dn {
                            Some(s) => s@,
                            None => Seq::<char>::empty(),
                        };
                        if is_virtual_name(default_name) {
                            match choice {
                                Ok(CaptureChoice::Listed(i)) => {
                                    &&& i < names.len()
                                    &&& is_physical(names[i as int])
                                    &&& forall|j: int| 0 <= j < i ==> !is_physical(#[trigger] names[j])
                                },
                                Ok(CaptureChoice::Default) => forall|j: int|
                                    0 <= j < names.len() ==> !is_physical(#[trigger] names[j]),
                                Err(_) => false,
                            }
                        } else {
                            choice matches Ok(CaptureChoice::Default)
                        }
                    },
                },
            }
        }),
{
    let ghost names = opt_string_views(input_names@);
    match requested {
        Some(r) => {
            let mut i: usize = 0;
            while i < input_names.len()
                invariant
                    requested == Some(r),
                    names == opt_string_views(input_names@),
                    i <= input_names@.len(),
                    forall|j: int| 0 <= j < i ==> !named(#[trigger] names[j], r@),
                decreases input_names@.len() - i,
            {
                match &input_names[i] {
                    Some(n) => {
                        if crate::text::same_text(n.as_str(), r) {
                            assert(names[i as int] == crate::text::opt_view(input_names@[i as int]));
                            return Ok(CaptureChoice::Listed(i));
                        }
                    },
                    None => {},
                }
                i = i + 1;
            }
            Err(CaptureError::DeviceNotFound(String::from_str(r)))
        },
        None => match default_device {
            None => Err(CaptureError::NoDefaultDevice),
            Some(dn) => {
                let raw = match dn {
                    Some(s) => s,
                    None => String::new(),
                };
                if is_virtual_device_name(raw.as_str()) {
                    let mut i: usize = 0;
                    while i < input_names.len()
                        invariant
                            requested is None,
                            default_device == Some(dn),
                            is_virtual_name(
                                match dn {
                                    Some(s) => s@,
                                    None => Seq::<char>::empty(),
                                },
                            ),
                            names == opt_string_views(input_names@),
                            i <= input_names@.len(),
                            forall|j: int| 0 <= j < i ==> !is_physical(#[trigger] names[j]),
                        decreases input_names@.len() - i,
                    {
                        match &input_names[i] {
                            Some(n) => {
                                if !is_virtual_device_name(n.as_str()) {
                                    assert(names[i as int] == crate::text::opt_view(
                                        input_names@[i as int],
                                    ));
                                    return Ok(CaptureChoice::Listed(i));
                                }
                            },
                            None => {},
                        }
                        i = i + 1;
                    }
                    Ok(CaptureChoice::Default)
                } else {
                    Ok(CaptureChoice::Default)
                }
            },
        },
    }
}

/// Capture rate preferred when the device supports it (it matches the
/// virtual microphone).
pub const PREFERRED_CAPTURE_RATE: u32 = 48000;

/// Some supported `(min, max)` rate range holds `rate`.
pub open spec fn rate_supported(ranges: Seq<(u32, u32)>, rate: u32) -> bool {
    exists|i: int| 0 <= i < ranges.len() && (#[trigger] ranges[i]).0 <= rate <= ranges[i].1
}

/// The capture rate: 48 kHz when one of the device's supported configuration
/// ranges holds it, otherwise the device's default rate (also when the
/// supported ranges could not be read).
pub fn choose_capture_rate(ranges: Option<&Vec<(u32, u32)>>, default_rate: u32) -> (rate: u32)
    ensures
        rate == (if ranges matches Some(rs) && rate_supported(rs@, PREFERRED_CAPTURE_RATE) {
            PREFERRED_CAPTURE_RATE
        } else {
            default_rate
        }),
{
    match ranges {
        None => default_rate,
        Some(rs) => {
            let mut i: usize = 0;
            while i < rs.len()
                invariant
                    ranges == Some(rs),
                    i <= rs@.len(),
                    forall|j: int|
                        0 <= j < i ==> !((#[trigger] rs@[j]).0 <= PREFERRED_CAPTURE_RATE <= rs@[j].1),
                decreases rs@.len() - i,
            {
                let (lo, hi) = rs[i];
                if lo <= PREFERRED_CAPTURE_RATE && hi >= PREFERRED_CAPTURE_RATE {
                    assert(rs@[i as int] == (lo, hi));
                    assert(rate_supported(rs@, PREFERRED_CAPTURE_RATE));
                    return PREFERRED_CAPTURE_RATE;
                }
                i = i + 1;
            }
            default_rate
        },
    }
}

/// Number of known virtual output devices.
pub const VIRTUAL_DEVICE_COUNT: usize = 9;

/// Known virtual output devices, in the order they are tried.
pub open spec fn virtual_device_candidate(k: int) -> Seq<char> {
    if k == 0 {
        "BlackHole 2ch"@
    } else if k == 1 {
        "BlackHole 16ch"@
    } else if k == 2 {
        "BlackHole"@
    } else if k == 3 {
        "Loopback Audio"@
    } else if k == 4 {
        "Loopback"@
    } else if k == 5 {
        "Voice.ai Virtual Microphone"@
    } else if k == 6 {
        "JACK"@
    } else if k == 7 {
        "SoundFlower (2ch)"@
    } else {
        "SoundFlower (64ch)"@
    }
}

/// The known virtual output device at priority `k`.
pub fn virtual_device_name(k: usize) -> (name: &'static str)
    requires
        k < VIRTUAL_DEVICE_COUNT,
    ensures
        name@ == virtual_device_candidate(k as int),
{
    if k == 0 {
        "BlackHole 2ch"
    } else if k == 1 {
        "BlackHole 16ch"
    } else if k == 2 {
        "BlackHole"
    } else if k == 3 {
        "Loopback Audio"
    } else if k == 4 {
        "Loopback"
    } else if k == 5 {
        "Voice.ai Virtual Microphone"
    } else if k == 6 {
        "JACK"
    } else if k == 7 {
        "SoundFlower (2ch)"
    } else {
        "SoundFlower (64ch)"
    }
}

/// The device name is known and contains `part`.
pub open spec fn name_contains(o: Option<Seq<char>>, part: Seq<char>) -> bool {
    o matches Some(n) && contains_chars(n, part)
}

/// `i` is the position of the first element of `s` that satisfies `p`.
pub open spec fn is_first<A>(s: Seq<A>, p: spec_fn(A) -> bool, i: int) -> bool {
    &&& 0 <= i < s.len()
    &&& p(s[i])
    &&& forall|j: int| 0 <= j < i ==> !p(#[trigger] s[j])
}

/// No element of `s` satisfies `p`.
pub open spec fn none_is<A>(s: Seq<A>, p: spec_fn(A) -> bool) -> bool {
    forall|j: int| 0 <= j < s.len() ==> !p(#[trigger] s[j])
}

/// No device name contains the virtual-device candidate `k`.
pub open spec fn candidate_absent(names: Seq<Option<Seq<char>>>, k: int) -> bool {
    none_is(names, |o: Option<Seq<char>>| name_contains(o, virtual_device_candidate(k)))
}

/// Device `i` is the first whose name contains the virtual-device candidate `k`.
pub open spec fn candidate_first(names: Seq<Option<Seq<char>>>, k: int, i: int) -> bool {
    is_first(names, |o: Option<Seq<char>>| name_contains(o, virtual_device_candidate(k)), i)
}

/// Position of the first device whose known name contains `part`.
fn first_containing(output_names: &Vec<Option<String>>, part: &str) -> (found: Option<usize>)
    ensures
        ({
            let names = opt_string_views(output_names@);
            let p = |o: Option<Seq<char>>| name_contains(o, part@);
            match found {
                Some(i) => is_first(names, p, i as int),
                None => none_is(names, p),
            }
        }),
{
    let ghost names = opt_string_views(output_names@);
    let ghost p = |o: Option<Seq<char>>| name_contains(o, part@);
    let mut i: usize = 0;
    while i < output_names.len()
        invariant
            names == opt_string_views(output_names@),
            p == (|o: Option<Seq<char>>| name_contains(o, part@)),
            i <= output_names@.len(),
            forall|j: int| 0 <= j < i ==> !p(#[trigger] names[j]),
        decreases output_names@.len() - i,
    {
        match &output_names[i] {
            Some(n) => {
                if contains(n.as_str(), part) {
                    assert(names[i as int] == crate::text::opt_view(output_names@[i as int]));
                    return Some(i);
                }
            },
            None => {},
        }
        i = i + 1;
    }
    None
}

/// A device whose name contains "BlackHole" or "Loopback" (the products the
/// message for a missing virtual device recommends), "Voice.ai Virtual
/// Microphone" or "JACK" is a known virtual device: when one is present, the
/// search without a preference finds a virtual microphone (by the contract
/// of `choose_virtual_device`, it returns no device only when every known
/// candidate is absent).
pub proof fn lemma_known_virtual_devices_are_found(names: Seq<Option<Seq<char>>>, i: int)
    requires
        0 <= i < names.len(),
        names[i] matches Some(n) && (contains_chars(n, "BlackHole"@) || contains_chars(
            n,
            "Loopback"@,
        ) || contains_chars(n, "Voice.ai Virtual Microphone"@) || contains_chars(n, "JACK"@)),
    ensures
        exists|k: int| 0 <= k < VIRTUAL_DEVICE_COUNT && !#[trigger] candidate_absent(names, k),
{
    let n = names[i]->Some_0;
    let k: int = if contains_chars(n, "BlackHole"@) {
        2
    } else if contains_chars(n, "Loopback"@) {
        4
    } else if contains_chars(n, "Voice.ai Virtual Microphone"@) {
        5
    } else {
        6
    };
    let p = |o: Option<Seq<char>>| name_contains(o, virtual_device_candidate(k));
    assert(p(names[i]));
    assert(!candidate_absent(names, k));
}

/// Chooses the output device that serves as the virtual microphone. A
/// preferred name selects the first device with exactly that name, else the
/// first whose name contains it. Without a preference, the known virtual
/// devices are tried in priority order and the first device whose name
/// contains the first candidate that any device matches is chosen.
pub fn choose_virtual_device(output_names: &Vec<Option<String>>, preferred: Option<&str>) -> (found: Option<usize>)
    ensures
        ({
            let names = opt_string_views(output_names@);
            match preferred {
                Some(p) => {
                    let exact = |o: Option<Seq<char>>| named(o, p@);
                    let part = |o: Option<Seq<char>>| name_contains(o, p@);
                    match found {
                        Some(i) => is_first(names, exact, i as int) || (none_is(names, exact)
                            && is_first(names, part, i as int)),
                        None => none_is(names, exact) && none_is(names, part),
                    }
                },
                None => match found {
                    Some(i) => exists|k: int|
                        0 <= k < VIRTUAL_DEVICE_COUNT && #[trigger] candidate_first(names, k, i as int)
                            && forall|k2: int| 0 <= k2 < k ==> #[trigger] candidate_absent(names, k2),
                    None => forall|k: int|
                        0 <= k < VIRTUAL_DEVICE_COUNT ==> #[trigger] candidate_absent(names, k),
                },
            }
        }),
{
    let ghost names = opt_string_views(output_names@);
    match preferred {
        Some(p) => {
            let ghost exact = |o: Option<Seq<char>>| named(o, p@);
            let mut i: usize = 0;
            while i < output_names.len()
                invariant
                    preferred == Some(p),
                    names == opt_string_views(output_names@),
                    exact == (|o: Option<Seq<char>>| named(o, p@)),
                    i <= output_names@.len(),
                    forall|j: int| 0 <= j < i ==> !exact(#[trigger] names[j]),
                decreases output_names@.len() - i,
            {
                match &output_names[i] {
                    Some(n) => {
                        if crate::text::same_text(n.as_str(), p) {
                            assert(names[i as int] == crate::text::opt_view(output_names@[i as int]));
                            assert(exact(names[i as int]));
                            return Some(i);
                        }
                    },
                    None => {},
                }
                i = i + 1;
            }
            first_containing(output_names, p)
        },
        None => {
            let mut k: usize = 0;
            while k < VIRTUAL_DEVICE_COUNT
                invariant
                    preferred is None,
                    names == opt_string_views(output_names@),
                    k <= VIRTUAL_DEVICE_COUNT,
                    forall|k2: int| 0 <= k2 < k ==> #[trigger] candidate_absent(names, k2),
                decreases VIRTUAL_DEVICE_COUNT - k,
            {
                let found = first_containing(output_names, virtual_device_name(k));
                if found.is_some() {
                    assert(candidate_first(names, k as int, found.unwrap() as int));
                    assert(0 <= k < VIRTUAL_DEVICE_COUNT);
                    return found;
                }
                assert(candidate_absent(names, k as int));
                k = k + 1;
            }
            None
        },
    }
}

/// The message given when no virtual output device is installed, listing the
/// output devices that are.
pub open spec fn no_virtual_device_text(installed: Seq<Seq<char>>) -> Seq<char> {
    "No virtual audio device found.\nInstall one of:\n• BlackHole 2ch: brew install blackhole-2ch\n• Loopback: https://rogueamoeba.com/loopback/\n\nAvailable output devices: "@
        + joined(installed, ", "@)
}

/// The message given when no virtual output device is installed.
pub fn no_virtual_device_message(installed: &Vec<String>) -> (text: String)
    ensures
        text@ == no_virtual_device_text(string_views(installed@)),
{
    let list = join(installed, ", ");
    concat_str(
        "No virtual audio device found.\nInstall one of:\n• BlackHole 2ch: brew install blackhole-2ch\n• Loopback: https://rogueamoeba.com/loopback/\n\nAvailable output devices: ",
        list.as_str(),
    )
}

/// The name recorded for an opened device: its name, or `fallback` when the
/// name could not be read.
pub fn name_or(name: Option<String>, fallback: &str) -> (text: String)
    ensures
        text@ == match name {
            Some(n) => n@,
            None => fallback@,
        },
{
    match name {
        Some(n) => n,
        None => String::from_str(fallback),
    }
}

} // verus!
