//! Audio commands: the device list and the engine status shown to the user.

use vstd::prelude::*;
use crate::audio::device::AudioDevice;
use crate::audio::engine::{state_label, EngineControl};

verus! {

/// An input device as the user interface receives it.
#[derive(Debug, Clone)]
pub struct AudioDeviceDto {
    pub id: String,
    pub name: String,
    pub is_default: bool,
}

/// The engine's status as the user interface receives it.
#[derive(Debug, Clone)]
pub struct EngineStatusDto {
    pub state: String,
    pub virtual_mic_name: Option<String>,
    pub monitor_active: bool,
}

/// The devices as the user interface receives them, field for field, in order.
pub fn device_dtos(devices: Vec<AudioDevice>) -> (dtos: Vec<AudioDeviceDto>)
    ensures
        dtos@.len() == devices@.len(),
        forall|i: int|
            0 <= i < dtos@.len() ==> {
                &&& (#[trigger] dtos@[i]).id == devices@[i].id
                &&& dtos@[i].name == devices@[i].name
                &&& dtos@[i].is_default == devices@[i].is_default
            },
{
    let mut rest = devices;
    let ghost all = rest@;
    let n = rest.len();
    let mut reversed: Vec<AudioDevice> = Vec::new();
    while rest.len() > 0
        invariant
            all.len() == n,
            rest@ == all.subrange(0, rest@.len() as int),
            reversed@.len() + rest@.len() == n,
            forall|k: int| 0 <= k < reversed@.len() ==> reversed@[k] == all[n - 1 - k],
        decreases rest@.len(),
    {
        let d = rest.pop().unwrap();
        reversed.push(d);
    }
    let mut out: Vec<AudioDeviceDto> = Vec::new();
    while reversed.len() > 0
        invariant
            all.len() == n,
            out@.len() + reversed@.len() == n,
            forall|k: int| 0 <= k < reversed@.len() ==> reversed@[k] == all[n - 1 - k],
            forall|k: int|
                0 <= k < out@.len() ==> {
                    &&& (#[trigger] out@[k]).id == all[k].id
                    &&& out@[k].name == all[k].name
                    &&& out@[k].is_default == all[k].is_default
                },
        decreases reversed@.len(),
    {
        let d = reversed.pop().unwrap();
        out.push(AudioDeviceDto { id: d.id, name: d.name, is_default: d.is_default });
    }
    out
}

/// The status of the engine: its state's name, the virtual microphone in use
/// and whether the monitor runs.
pub fn engine_status(engine: &EngineControl) -> (dto: EngineStatusDto)
    ensures
        dto.state@ == state_label(engine.state()),
        match dto.virtual_mic_name {
            Some(n) => engine.mic_name() == Some(n@),
            None => engine.mic_name() is None,
        },
        dto.monitor_active == engine.monitor_running(),
{
    let state = engine.current_state().label();
    let virtual_mic_name = match engine.virtual_mic_name() {
        Some(n) => Some(n.to_owned()),
        None => None,
    };
    EngineStatusDto { state, virtual_mic_name, monitor_active: engine.monitor_active() }
}

} // verus!
