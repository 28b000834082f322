//! Records of the platform's audio devices, as its device enumeration
//! reports them.
use vstd::prelude::*;

use crate::definitions::AudioFormat;

verus! {

/// Device-query mask that selects input devices.
pub const GET_DEVICES_INPUTS: i32 = 1;

/// Device-query mask that selects output devices.
pub const GET_DEVICES_OUTPUTS: i32 = 2;

/// Device-query mask that selects every device.
pub const GET_DEVICES_ALL: i32 = GET_DEVICES_INPUTS | GET_DEVICES_OUTPUTS;

/// Platform encoding code of 16-bit integer samples.
pub const ENCODING_PCM_16BIT: i32 = 2;

/// Platform encoding code of 32-bit floating-point samples.
pub const ENCODING_PCM_FLOAT: i32 = 4;

impl AudioFormat {
    pub open spec fn spec_from_encoding(encoding: i32) -> Option<AudioFormat> {
        if encoding == ENCODING_PCM_16BIT {
            Some(AudioFormat::I16)
        } else if encoding == ENCODING_PCM_FLOAT {
            Some(AudioFormat::F32)
        } else {
            None
        }
    }

    /// The sample format of a device's encoding code, if it is one that
    /// streams can use.
    pub fn from_encoding(encoding: i32) -> (r: Option<AudioFormat>)
        ensures
            r == AudioFormat::spec_from_encoding(encoding),
    {
        match encoding {
            ENCODING_PCM_16BIT => Some(AudioFormat::I16),
            ENCODING_PCM_FLOAT => Some(AudioFormat::F32),
            _ => None,
        }
    }
}

/// An audio device of the platform.
#[derive(Debug, Clone)]
pub struct AudioDeviceInfo {
    /// Device identifier, for `set_device_id`.
    pub id: i32,
    /// The type of device.
    pub device_type: AudioDeviceType,
    /// Whether the device plays, captures, or both.
    pub direction: AudioDeviceDirection,
    /// Device address.
    pub address: String,
    /// Device product name.
    pub product_name: String,
    /// Available channel counts.
    pub channel_counts: Vec<i32>,
    /// Supported sample rates.
    pub sample_rates: Vec<i32>,
    /// Supported sample formats.
    pub formats: Vec<AudioFormat>,
}

/// The type of an audio device.
#[derive(Debug, Clone, Copy, PartialEq, Eq, Structural)]
#[non_exhaustive]
pub enum AudioDeviceType {
    Unknown,
    AuxLine,
    BluetoothA2DP,
    BluetoothSCO,
    BuiltinEarpiece,
    BuiltinMic,
    BuiltinSpeaker,
    BuiltinSpeakerSafe,
    Bus,
    Dock,
    Fm,
    FmTuner,
    Hdmi,
    HdmiArc,
    HearingAid,
    Ip,
    LineAnalog,
    LineDigital,
    Telephony,
    TvTuner,
    UsbAccessory,
    UsbDevice,
    UsbHeadset,
    WiredHeadphones,
    WiredHeadset,
}

impl AudioDeviceType {
    pub open spec fn spec_raw(self) -> i32 {
        match self {
            AudioDeviceType::Unknown => 0,
            AudioDeviceType::AuxLine => 19,
            AudioDeviceType::BluetoothA2DP => 8,
            AudioDeviceType::BluetoothSCO => 7,
            AudioDeviceType::BuiltinEarpiece => 1,
            AudioDeviceType::BuiltinMic => 15,
            AudioDeviceType::BuiltinSpeaker => 2,
            AudioDeviceType::BuiltinSpeakerSafe => 24,
            AudioDeviceType::Bus => 21,
            AudioDeviceType::Dock => 13,
            AudioDeviceType::Fm => 14,
            AudioDeviceType::FmTuner => 16,
            AudioDeviceType::Hdmi => 9,
            AudioDeviceType::HdmiArc => 10,
            AudioDeviceType::HearingAid => 23,
            AudioDeviceType::Ip => 20,
            AudioDeviceType::LineAnalog => 5,
            AudioDeviceType::LineDigital => 6,
            AudioDeviceType::Telephony => 18,
            AudioDeviceType::TvTuner => 17,
            AudioDeviceType::UsbAccessory => 12,
            AudioDeviceType::UsbDevice => 11,
            AudioDeviceType::UsbHeadset => 22,
            AudioDeviceType::WiredHeadphones => 4,
            AudioDeviceType::WiredHeadset => 3,
        }
    }

    /// The platform code of this device type.
    pub fn raw(self) -> (r: i32)
        ensures
            r == self.spec_raw(),
    {
        match self {
            AudioDeviceType::Unknown => 0,
            AudioDeviceType::AuxLine => 19,
            AudioDeviceType::BluetoothA2DP => 8,
            AudioDeviceType::BluetoothSCO => 7,
            AudioDeviceType::BuiltinEarpiece => 1,
            AudioDeviceType::BuiltinMic => 15,
            AudioDeviceType::BuiltinSpeaker => 2,
            AudioDeviceType::BuiltinSpeakerSafe => 24,
            AudioDeviceType::Bus => 21,
            AudioDeviceType::Dock => 13,
            AudioDeviceType::Fm => 14,
            AudioDeviceType::FmTuner => 16,
            AudioDeviceType::Hdmi => 9,
            AudioDeviceType::HdmiArc => 10,
            AudioDeviceType::HearingAid => 23,
            AudioDeviceType::Ip => 20,
            AudioDeviceType::LineAnalog => 5,
            AudioDeviceType::LineDigital => 6,
            AudioDeviceType::Telephony => 18,
            AudioDeviceType::TvTuner => 17,
            AudioDeviceType::UsbAccessory => 12,
            AudioDeviceType::UsbDevice => 11,
            AudioDeviceType::UsbHeadset => 22,
            AudioDeviceType::WiredHeadphones => 4,
            AudioDeviceType::WiredHeadset => 3,
        }
    }

    /// The device type with the given platform code, if there is one.
    pub fn from_raw(raw: i32) -> (r: Option<AudioDeviceType>)
        ensures
            match r {
                Some(t) => t.spec_raw() == raw,
                None => forall|t: AudioDeviceType| t.spec_raw() != raw,
            },
    {
        match raw {
            0 => Some(AudioDeviceType::Unknown),
            19 => Some(AudioDeviceType::AuxLine),
            8 => Some(AudioDeviceType::BluetoothA2DP),
            7 => Some(AudioDeviceType::BluetoothSCO),
            1 => Some(AudioDeviceType::BuiltinEarpiece),
            15 => Some(AudioDeviceType::BuiltinMic),
            2 => Some(AudioDeviceType::BuiltinSpeaker),
            24 => Some(AudioDeviceType::BuiltinSpeakerSafe),
            21 => Some(AudioDeviceType::Bus),
            13 => Some(AudioDeviceType::Dock),
            14 => Some(AudioDeviceType::Fm),
            16 => Some(AudioDeviceType::FmTuner),
            9 => Some(AudioDeviceType::Hdmi),
            10 => Some(AudioDeviceType::HdmiArc),
            23 => Some(AudioDeviceType::HearingAid),
            20 => Some(AudioDeviceType::Ip),
            5 => Some(AudioDeviceType::LineAnalog),
            6 => Some(AudioDeviceType::LineDigital),
            18 => Some(AudioDeviceType::Telephony),
            17 => Some(AudioDeviceType::TvTuner),
            12 => Some(AudioDeviceType::UsbAccessory),
            11 => Some(AudioDeviceType::UsbDevice),
            22 => Some(AudioDeviceType::UsbHeadset),
            4 => Some(AudioDeviceType::WiredHeadphones),
            3 => Some(AudioDeviceType::WiredHeadset),
            _ => None,
        }
    }
}

/// Whether a device plays, captures, or both.
#[derive(Debug, Clone, Copy, PartialEq, Eq, Hash, Structural)]
pub enum AudioDeviceDirection {
    Input,
    Output,
    InputOutput,
}

impl AudioDeviceDirection {
    /// The platform's device-query mask of this direction: inputs, outputs,
    /// or both.
    pub open spec fn spec_raw(self) -> i32 {
        match self {
            AudioDeviceDirection::Input => GET_DEVICES_INPUTS,
            AudioDeviceDirection::Output => GET_DEVICES_OUTPUTS,
            AudioDeviceDirection::InputOutput => GET_DEVICES_ALL,
        }
    }

    /// The platform code of this direction.
    pub fn raw(self) -> (r: i32)
        ensures
            r == self.spec_raw(),
    {
        match self {
            AudioDeviceDirection::Input => GET_DEVICES_INPUTS,
            AudioDeviceDirection::Output => GET_DEVICES_OUTPUTS,
            AudioDeviceDirection::InputOutput => GET_DEVICES_ALL,
        }
    }

    /// The direction of a device that captures when `is_input` and plays when
    /// `is_output`; a device that does neither has none.
    pub fn new(is_input: bool, is_output: bool) -> (r: Option<AudioDeviceDirection>)
        ensures
            r == (if is_input && is_output {
                Some(AudioDeviceDirection::InputOutput)
            } else if is_output {
                Some(AudioDeviceDirection::Output)
            } else if is_input {
                Some(AudioDeviceDirection::Input)
            } else {
                None
            }),
    {
        match (is_input, is_output) {
            (true, true) => Some(AudioDeviceDirection::InputOutput),
            (false, true) => Some(AudioDeviceDirection::Output),
            (true, false) => Some(AudioDeviceDirection::Input),
            _ => None,
        }
    }

    /// Whether the device captures.
    pub fn is_input(&self) -> (r: bool)
        ensures
            r == (*self != AudioDeviceDirection::Output),
    {
        *self != AudioDeviceDirection::Output
    }

    /// Whether the device plays.
    pub fn is_output(&self) -> (r: bool)
        ensures
            r == (*self != AudioDeviceDirection::Input),
    {
        *self != AudioDeviceDirection::Input
    }
}

} // verus!
