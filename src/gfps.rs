//! Events of the Google Fast Pair message stream, and its framing.

use vstd::prelude::*;
use bytes::BytesMut;
use crate::buffer::{buffer_advance, buffer_bytes, buffer_put_u8, buffer_slice, small_bytes, MessageData};

verus! {

/// A group of message stream events.
#[non_exhaustive]
#[derive(Debug, Clone, Copy, PartialEq, Eq, Structural)]
pub enum EventGroup {
    Bluetooth,
    Logging,
    Device,
    DeviceAction,
    DeviceConfiguration,
    DeviceCapabilitySync,
    SmartAudioSourceSwitching,
    Acknowledgement,
    Unknown(u8),
}

pub open spec fn event_group_of(v: u8) -> EventGroup {
    if v == 0x01 {
        EventGroup::Bluetooth
    } else if v == 0x02 {
        EventGroup::Logging
    } else if v == 0x03 {
        EventGroup::Device
    } else if v == 0x04 {
        EventGroup::DeviceAction
    } else if v == 0x05 {
        EventGroup::DeviceConfiguration
    } else if v == 0x06 {
        EventGroup::DeviceCapabilitySync
    } else if v == 0x07 {
        EventGroup::SmartAudioSourceSwitching
    } else if v == 0xff {
        EventGroup::Acknowledgement
    } else {
        EventGroup::Unknown(v)
    }
}

pub open spec fn event_group_value(x: EventGroup) -> u8 {
    match x {
        EventGroup::Bluetooth => 0x01,
        EventGroup::Logging => 0x02,
        EventGroup::Device => 0x03,
        EventGroup::DeviceAction => 0x04,
        EventGroup::DeviceConfiguration => 0x05,
        EventGroup::DeviceCapabilitySync => 0x06,
        EventGroup::SmartAudioSourceSwitching => 0x07,
        EventGroup::Acknowledgement => 0xff,
        EventGroup::Unknown(v) => v,
    }
}

impl EventGroup {
    pub fn from_primitive(v: u8) -> (r: Self)
        ensures
            r == event_group_of(v),
    {
        match v {
            0x01 => EventGroup::Bluetooth,
            0x02 => EventGroup::Logging,
            0x03 => EventGroup::Device,
            0x04 => EventGroup::DeviceAction,
            0x05 => EventGroup::DeviceConfiguration,
            0x06 => EventGroup::DeviceCapabilitySync,
            0x07 => EventGroup::SmartAudioSourceSwitching,
            0xff => EventGroup::Acknowledgement,
            _ => EventGroup::Unknown(v),
        }
    }

    pub fn to_primitive(self) -> (r: u8)
        ensures
            r == event_group_value(self),
    {
        match self {
            EventGroup::Bluetooth => 0x01,
            EventGroup::Logging => 0x02,
            EventGroup::Device => 0x03,
            EventGroup::DeviceAction => 0x04,
            EventGroup::DeviceConfiguration => 0x05,
            EventGroup::DeviceCapabilitySync => 0x06,
            EventGroup::SmartAudioSourceSwitching => 0x07,
            EventGroup::Acknowledgement => 0xff,
            EventGroup::Unknown(v) => v,
        }
    }
}

impl From<u8> for EventGroup {
    fn from(v: u8) -> (r: Self) {
        EventGroup::from_primitive(v)
    }
}

impl vstd::std_specs::convert::FromSpecImpl<u8> for EventGroup {
    open spec fn obeys_from_spec() -> bool {
        true
    }

    open spec fn from_spec(v: u8) -> EventGroup {
        event_group_of(v)
    }
}

impl From<EventGroup> for u8 {
    fn from(v: EventGroup) -> (r: u8) {
        v.to_primitive()
    }
}

impl vstd::std_specs::convert::FromSpecImpl<EventGroup> for u8 {
    open spec fn obeys_from_spec() -> bool {
        true
    }

    open spec fn from_spec(v: EventGroup) -> u8 {
        event_group_value(v)
    }
}

/// A code of the bluetooth event group.
#[non_exhaustive]
#[derive(Debug, Clone, Copy, PartialEq, Eq, Structural)]
pub enum BluetoothEventCode {
    EnableSilenceMode,
    DisableSilenceMode,
    Unknown(u8),
}

pub open spec fn bluetooth_event_code_of(v: u8) -> BluetoothEventCode {
    if v == 0x01 {
        BluetoothEventCode::EnableSilenceMode
    } else if v == 0x02 {
        BluetoothEventCode::DisableSilenceMode
    } else {
        BluetoothEventCode::Unknown(v)
    }
}

pub open spec fn bluetooth_event_code_value(x: BluetoothEventCode) -> u8 {
    match x {
        BluetoothEventCode::EnableSilenceMode => 0x01,
        BluetoothEventCode::DisableSilenceMode => 0x02,
        BluetoothEventCode::Unknown(v) => v,
    }
}

impl BluetoothEventCode {
    pub fn from_primitive(v: u8) -> (r: Self)
        ensures
            r == bluetooth_event_code_of(v),
    {
        match v {
            0x01 => BluetoothEventCode::EnableSilenceMode,
            0x02 => BluetoothEventCode::DisableSilenceMode,
            _ => BluetoothEventCode::Unknown(v),
        }
    }

    pub fn to_primitive(self) -> (r: u8)
        ensures
            r == bluetooth_event_code_value(self),
    {
        match self {
            BluetoothEventCode::EnableSilenceMode => 0x01,
            BluetoothEventCode::DisableSilenceMode => 0x02,
            BluetoothEventCode::Unknown(v) => v,
        }
    }
}

impl From<u8> for BluetoothEventCode {
    fn from(v: u8) -> (r: Self) {
        BluetoothEventCode::from_primitive(v)
    }
}

impl vstd::std_specs::convert::FromSpecImpl<u8> for BluetoothEventCode {
    open spec fn obeys_from_spec() -> bool {
        true
    }

    open spec fn from_spec(v: u8) -> BluetoothEventCode {
        bluetooth_event_code_of(v)
    }
}

impl From<BluetoothEventCode> for u8 {
    fn from(v: BluetoothEventCode) -> (r: u8) {
        v.to_primitive()
    }
}

impl vstd::std_specs::convert::FromSpecImpl<BluetoothEventCode> for u8 {
    open spec fn obeys_from_spec() -> bool {
        true
    }

    open spec fn from_spec(v: BluetoothEventCode) -> u8 {
        bluetooth_event_code_value(v)
    }
}

/// A code of the logging event group.
#[non_exhaustive]
#[derive(Debug, Clone, Copy, PartialEq, Eq, Structural)]
pub enum LoggingEventCode {
    LogFull,
    LogSaveToBuffer,
    Unknown(u8),
}

pub open spec fn logging_event_code_of(v: u8) -> LoggingEventCode {
    if v == 0x01 {
        LoggingEventCode::LogFull
    } else if v == 0x02 {
        LoggingEventCode::LogSaveToBuffer
    } else {
        LoggingEventCode::Unknown(v)
    }
}

pub open spec fn logging_event_code_value(x: LoggingEventCode) -> u8 {
    match x {
        LoggingEventCode::LogFull => 0x01,
        LoggingEventCode::LogSaveToBuffer => 0x02,
        LoggingEventCode::Unknown(v) => v,
    }
}

impl LoggingEventCode {
    pub fn from_primitive(v: u8) -> (r: Self)
        ensures
            r == logging_event_code_of(v),
    {
        match v {
            0x01 => LoggingEventCode::LogFull,
            0x02 => LoggingEventCode::LogSaveToBuffer,
            _ => LoggingEventCode::Unknown(v),
        }
    }

    pub fn to_primitive(self) -> (r: u8)
        ensures
            r == logging_event_code_value(self),
    {
        match self {
            LoggingEventCode::LogFull => 0x01,
            LoggingEventCode::LogSaveToBuffer => 0x02,
            LoggingEventCode::Unknown(v) => v,
        }
    }
}

impl From<u8> for LoggingEventCode {
    fn from(v: u8) -> (r: Self) {
        LoggingEventCode::from_primitive(v)
    }
}

impl vstd::std_specs::convert::FromSpecImpl<u8> for LoggingEventCode {
    open spec fn obeys_from_spec() -> bool {
        true
    }

    open spec fn from_spec(v: u8) -> LoggingEventCode {
        logging_event_code_of(v)
    }
}

impl From<LoggingEventCode> for u8 {
    fn from(v: LoggingEventCode) -> (r: u8) {
        v.to_primitive()
    }
}

impl vstd::std_specs::convert::FromSpecImpl<LoggingEventCode> for u8 {
    open spec fn obeys_from_spec() -> bool {
        true
    }

    open spec fn from_spec(v: LoggingEventCode) -> u8 {
        logging_event_code_value(v)
    }
}

/// A code of the device event group.
#[non_exhaustive]
#[derive(Debug, Clone, Copy, PartialEq, Eq, Structural)]
pub enum DeviceEventCode {
    ModelId,
    BleAddress,
    BatteryInfo,
    BatteryTime,
    ActiveComponentsRequest,
    ActiveComponentsResponse,
    Capability,
    PlatformType,
    FirmwareVersion,
    SectionNonce,
    Unknown(u8),
}

pub open spec fn device_event_code_of(v: u8) -> DeviceEventCode {
    if v == 0x01 {
        DeviceEventCode::ModelId
    } else if v == 0x02 {
        DeviceEventCode::BleAddress
    } else if v == 0x03 {
        DeviceEventCode::BatteryInfo
    } else if v == 0x04 {
        DeviceEventCode::BatteryTime
    } else if v == 0x05 {
        DeviceEventCode::ActiveComponentsRequest
    } else if v == 0x06 {
        DeviceEventCode::ActiveComponentsResponse
    } else if v == 0x07 {
        DeviceEventCode::Capability
    } else if v == 0x08 {
        DeviceEventCode::PlatformType
    } else if v == 0x09 {
        DeviceEventCode::FirmwareVersion
    } else if v == 0x0a {
        DeviceEventCode::SectionNonce
    } else {
        DeviceEventCode::Unknown(v)
    }
}

pub open spec fn device_event_code_value(x: DeviceEventCode) -> u8 {
    match x {
        DeviceEventCode::ModelId => 0x01,
        DeviceEventCode::BleAddress => 0x02,
        DeviceEventCode::BatteryInfo => 0x03,
        DeviceEventCode::BatteryTime => 0x04,
        DeviceEventCode::ActiveComponentsRequest => 0x05,
        DeviceEventCode::ActiveComponentsResponse => 0x06,
        DeviceEventCode::Capability => 0x07,
        DeviceEventCode::PlatformType => 0x08,
        DeviceEventCode::FirmwareVersion => 0x09,
        DeviceEventCode::SectionNonce => 0x0a,
        DeviceEventCode::Unknown(v) => v,
    }
}

impl DeviceEventCode {
    pub fn from_primitive(v: u8) -> (r: Self)
        ensures
            r == device_event_code_of(v),
    {
        match v {
            0x01 => DeviceEventCode::ModelId,
            0x02 => DeviceEventCode::BleAddress,
            0x03 => DeviceEventCode::BatteryInfo,
            0x04 => DeviceEventCode::BatteryTime,
            0x05 => DeviceEventCode::ActiveComponentsRequest,
            0x06 => DeviceEventCode::ActiveComponentsResponse,
            0x07 => DeviceEventCode::Capability,
            0x08 => DeviceEventCode::PlatformType,
            0x09 => DeviceEventCode::FirmwareVersion,
            0x0a => DeviceEventCode::SectionNonce,
            _ => DeviceEventCode::Unknown(v),
        }
    }

    pub fn to_primitive(self) -> (r: u8)
        ensures
            r == device_event_code_value(self),
    {
        match self {
            DeviceEventCode::ModelId => 0x01,
            DeviceEventCode::BleAddress => 0x02,
            DeviceEventCode::BatteryInfo => 0x03,
            DeviceEventCode::BatteryTime => 0x04,
            DeviceEventCode::ActiveComponentsRequest => 0x05,
            DeviceEventCode::ActiveComponentsResponse => 0x06,
            DeviceEventCode::Capability => 0x07,
            DeviceEventCode::PlatformType => 0x08,
            DeviceEventCode::FirmwareVersion => 0x09,
            DeviceEventCode::SectionNonce => 0x0a,
            DeviceEventCode::Unknown(v) => v,
        }
    }
}

impl From<u8> for DeviceEventCode {
    fn from(v: u8) -> (r: Self) {
        DeviceEventCode::from_primitive(v)
    }
}

impl vstd::std_specs::convert::FromSpecImpl<u8> for DeviceEventCode {
    open spec fn obeys_from_spec() -> bool {
        true
    }

    open spec fn from_spec(v: u8) -> DeviceEventCode {
        device_event_code_of(v)
    }
}

impl From<DeviceEventCode> for u8 {
    fn from(v: DeviceEventCode) -> (r: u8) {
        v.to_primitive()
    }
}

impl vstd::std_specs::convert::FromSpecImpl<DeviceEventCode> for u8 {
    open spec fn obeys_from_spec() -> bool {
        true
    }

    open spec fn from_spec(v: DeviceEventCode) -> u8 {
        device_event_code_value(v)
    }
}

/// A code of the device action event group.
#[non_exhaustive]
#[derive(Debug, Clone, Copy, PartialEq, Eq, Structural)]
pub enum DeviceActionEventCode {
    Ring,
    Unknown(u8),
}

pub open spec fn device_action_event_code_of(v: u8) -> DeviceActionEventCode {
    if v == 0x01 {
        DeviceActionEventCode::Ring
    } else {
        DeviceActionEventCode::Unknown(v)
    }
}

pub open spec fn device_action_event_code_value(x: DeviceActionEventCode) -> u8 {
    match x {
        DeviceActionEventCode::Ring => 0x01,
        DeviceActionEventCode::Unknown(v) => v,
    }
}

impl DeviceActionEventCode {
    pub fn from_primitive(v: u8) -> (r: Self)
        ensures
            r == device_action_event_code_of(v),
    {
        match v {
            0x01 => DeviceActionEventCode::Ring,
            _ => DeviceActionEventCode::Unknown(v),
        }
    }

    pub fn to_primitive(self) -> (r: u8)
        ensures
            r == device_action_event_code_value(self),
    {
        match self {
            DeviceActionEventCode::Ring => 0x01,
            DeviceActionEventCode::Unknown(v) => v,
        }
    }
}

impl From<u8> for DeviceActionEventCode {
    fn from(v: u8) -> (r: Self) {
        DeviceActionEventCode::from_primitive(v)
    }
}

impl vstd::std_specs::convert::FromSpecImpl<u8> for DeviceActionEventCode {
    open spec fn obeys_from_spec() -> bool {
        true
    }

    open spec fn from_spec(v: u8) -> DeviceActionEventCode {
        device_action_event_code_of(v)
    }
}

impl From<DeviceActionEventCode> for u8 {
    fn from(v: DeviceActionEventCode) -> (r: u8) {
        v.to_primitive()
    }
}

impl vstd::std_specs::convert::FromSpecImpl<DeviceActionEventCode> for u8 {
    open spec fn obeys_from_spec() -> bool {
        true
    }

    open spec fn from_spec(v: DeviceActionEventCode) -> u8 {
        device_action_event_code_value(v)
    }
}

/// A code of the device configuration event group.
#[non_exhaustive]
#[derive(Debug, Clone, Copy, PartialEq, Eq, Structural)]
pub enum DeviceConfigurationEventCode {
    BufferSize,
    Unknown(u8),
}

pub open spec fn device_configuration_event_code_of(v: u8) -> DeviceConfigurationEventCode {
    if v == 0x01 {
        DeviceConfigurationEventCode::BufferSize
    } else {
        DeviceConfigurationEventCode::Unknown(v)
    }
}

pub open spec fn device_configuration_event_code_value(x: DeviceConfigurationEventCode) -> u8 {
    match x {
        DeviceConfigurationEventCode::BufferSize => 0x01,
        DeviceConfigurationEventCode::Unknown(v) => v,
    }
}

impl DeviceConfigurationEventCode {
    pub fn from_primitive(v: u8) -> (r: Self)
        ensures
            r == device_configuration_event_code_of(v),
    {
        match v {
            0x01 => DeviceConfigurationEventCode::BufferSize,
            _ => DeviceConfigurationEventCode::Unknown(v),
        }
    }

    pub fn to_primitive(self) -> (r: u8)
        ensures
            r == device_configuration_event_code_value(self),
    {
        match self {
            DeviceConfigurationEventCode::BufferSize => 0x01,
            DeviceConfigurationEventCode::Unknown(v) => v,
        }
    }
}

impl From<u8> for DeviceConfigurationEventCode {
    fn from(v: u8) -> (r: Self) {
        DeviceConfigurationEventCode::from_primitive(v)
    }
}

impl vstd::std_specs::convert::FromSpecImpl<u8> for DeviceConfigurationEventCode {
    open spec fn obeys_from_spec() -> bool {
        true
    }

    open spec fn from_spec(v: u8) -> DeviceConfigurationEventCode {
        device_configuration_event_code_of(v)
    }
}

impl From<DeviceConfigurationEventCode> for u8 {
    fn from(v: DeviceConfigurationEventCode) -> (r: u8) {
        v.to_primitive()
    }
}

impl vstd::std_specs::convert::FromSpecImpl<DeviceConfigurationEventCode> for u8 {
    open spec fn obeys_from_spec() -> bool {
        true
    }

    open spec fn from_spec(v: DeviceConfigurationEventCode) -> u8 {
        device_configuration_event_code_value(v)
    }
}

/// A code of the capability sync event group.
#[non_exhaustive]
#[derive(Debug, Clone, Copy, PartialEq, Eq, Structural)]
pub enum DeviceCapabilitySyncEventCode {
    CapabilityUpdate,
    ConfigurableBufferSizeRange,
    Unknown(u8),
}

pub open spec fn device_capability_sync_event_code_of(v: u8) -> DeviceCapabilitySyncEventCode {
    if v == 0x01 {
        DeviceCapabilitySyncEventCode::CapabilityUpdate
    } else if v == 0x02 {
        DeviceCapabilitySyncEventCode::ConfigurableBufferSizeRange
    } else {
        DeviceCapabilitySyncEventCode::Unknown(v)
    }
}

pub open spec fn device_capability_sync_event_code_value(x: DeviceCapabilitySyncEventCode) -> u8 {
    match x {
        DeviceCapabilitySyncEventCode::CapabilityUpdate => 0x01,
        DeviceCapabilitySyncEventCode::ConfigurableBufferSizeRange => 0x02,
        DeviceCapabilitySyncEventCode::Unknown(v) => v,
    }
}

impl DeviceCapabilitySyncEventCode {
    pub fn from_primitive(v: u8) -> (r: Self)
        ensures
            r == device_capability_sync_event_code_of(v),
    {
        match v {
            0x01 => DeviceCapabilitySyncEventCode::CapabilityUpdate,
            0x02 => DeviceCapabilitySyncEventCode::ConfigurableBufferSizeRange,
            _ => DeviceCapabilitySyncEventCode::Unknown(v),
        }
    }

    pub fn to_primitive(self) -> (r: u8)
        ensures
            r == device_capability_sync_event_code_value(self),
    {
        match self {
            DeviceCapabilitySyncEventCode::CapabilityUpdate => 0x01,
            DeviceCapabilitySyncEventCode::ConfigurableBufferSizeRange => 0x02,
            DeviceCapabilitySyncEventCode::Unknown(v) => v,
        }
    }
}

impl From<u8> for DeviceCapabilitySyncEventCode {
    fn from(v: u8) -> (r: Self) {
        DeviceCapabilitySyncEventCode::from_primitive(v)
    }
}

impl vstd::std_specs::convert::FromSpecImpl<u8> for DeviceCapabilitySyncEventCode {
    open spec fn obeys_from_spec() -> bool {
        true
    }

    open spec fn from_spec(v: u8) -> DeviceCapabilitySyncEventCode {
        device_capability_sync_event_code_of(v)
    }
}

impl From<DeviceCapabilitySyncEventCode> for u8 {
    fn from(v: DeviceCapabilitySyncEventCode) -> (r: u8) {
        v.to_primitive()
    }
}

impl vstd::std_specs::convert::FromSpecImpl<DeviceCapabilitySyncEventCode> for u8 {
    open spec fn obeys_from_spec() -> bool {
        true
    }

    open spec fn from_spec(v: DeviceCapabilitySyncEventCode) -> u8 {
        device_capability_sync_event_code_value(v)
    }
}

/// A code of the audio source switching event group.
#[non_exhaustive]
#[derive(Debug, Clone, Copy, PartialEq, Eq, Structural)]
pub enum SassEventCode {
    GetCapabilityOfSass,
    NotifyCapabilityOfSass,
    SetMultiPointState,
    SwitchAudioSourceBetweenConnectedDevices,
    SwitchBack,
    NotifyMultiPointSwitchEvent,
    GetConnectionStatus,
    NotifyConnectionStatus,
    SassInitiatedConnection,
    IndicateInUseAccountKey,
    SetCustomData,
    Unknown(u8),
}

pub open spec fn sass_event_code_of(v: u8) -> SassEventCode {
    if v == 0x10 {
        SassEventCode::GetCapabilityOfSass
    } else if v == 0x11 {
        SassEventCode::NotifyCapabilityOfSass
    } else if v == 0x12 {
        SassEventCode::SetMultiPointState
    } else if v == 0x30 {
        SassEventCode::SwitchAudioSourceBetweenConnectedDevices
    } else if v == 0x31 {
        SassEventCode::SwitchBack
    } else if v == 0x32 {
        SassEventCode::NotifyMultiPointSwitchEvent
    } else if v == 0x33 {
        SassEventCode::GetConnectionStatus
    } else if v == 0x34 {
        SassEventCode::NotifyConnectionStatus
    } else if v == 0x40 {
        SassEventCode::SassInitiatedConnection
    } else if v == 0x41 {
        SassEventCode::IndicateInUseAccountKey
    } else if v == 0x42 {
        SassEventCode::SetCustomData
    } else {
        SassEventCode::Unknown(v)
    }
}

pub open spec fn sass_event_code_value(x: SassEventCode) -> u8 {
    match x {
        SassEventCode::GetCapabilityOfSass => 0x10,
        SassEventCode::NotifyCapabilityOfSass => 0x11,
        SassEventCode::SetMultiPointState => 0x12,
        SassEventCode::SwitchAudioSourceBetweenConnectedDevices => 0x30,
        SassEventCode::SwitchBack => 0x31,
        SassEventCode::NotifyMultiPointSwitchEvent => 0x32,
        SassEventCode::GetConnectionStatus => 0x33,
        SassEventCode::NotifyConnectionStatus => 0x34,
        SassEventCode::SassInitiatedConnection => 0x40,
        SassEventCode::IndicateInUseAccountKey => 0x41,
        SassEventCode::SetCustomData => 0x42,
        SassEventCode::Unknown(v) => v,
    }
}

impl SassEventCode {
    pub fn from_primitive(v: u8) -> (r: Self)
        ensures
            r == sass_event_code_of(v),
    {
        match v {
            0x10 => SassEventCode::GetCapabilityOfSass,
            0x11 => SassEventCode::NotifyCapabilityOfSass,
            0x12 => SassEventCode::SetMultiPointState,
            0x30 => SassEventCode::SwitchAudioSourceBetweenConnectedDevices,
            0x31 => SassEventCode::SwitchBack,
            0x32 => SassEventCode::NotifyMultiPointSwitchEvent,
            0x33 => SassEventCode::GetConnectionStatus,
            0x34 => SassEventCode::NotifyConnectionStatus,
            0x40 => SassEventCode::SassInitiatedConnection,
            0x41 => SassEventCode::IndicateInUseAccountKey,
            0x42 => SassEventCode::SetCustomData,
            _ => SassEventCode::Unknown(v),
        }
    }

    pub fn to_primitive(self) -> (r: u8)
        ensures
            r == sass_event_code_value(self),
    {
        match self {
            SassEventCode::GetCapabilityOfSass => 0x10,
            SassEventCode::NotifyCapabilityOfSass => 0x11,
            SassEventCode::SetMultiPointState => 0x12,
            SassEventCode::SwitchAudioSourceBetweenConnectedDevices => 0x30,
            SassEventCode::SwitchBack => 0x31,
            SassEventCode::NotifyMultiPointSwitchEvent => 0x32,
            SassEventCode::GetConnectionStatus => 0x33,
            SassEventCode::NotifyConnectionStatus => 0x34,
            SassEventCode::SassInitiatedConnection => 0x40,
            SassEventCode::IndicateInUseAccountKey => 0x41,
            SassEventCode::SetCustomData => 0x42,
            SassEventCode::Unknown(v) => v,
        }
    }
}

impl From<u8> for SassEventCode {
    fn from(v: u8) -> (r: Self) {
        SassEventCode::from_primitive(v)
    }
}

impl vstd::std_specs::convert::FromSpecImpl<u8> for SassEventCode {
    open spec fn obeys_from_spec() -> bool {
        true
    }

    open spec fn from_spec(v: u8) -> SassEventCode {
        sass_event_code_of(v)
    }
}

impl From<SassEventCode> for u8 {
    fn from(v: SassEventCode) -> (r: u8) {
        v.to_primitive()
    }
}

impl vstd::std_specs::convert::FromSpecImpl<SassEventCode> for u8 {
    open spec fn obeys_from_spec() -> bool {
        true
    }

    open spec fn from_spec(v: SassEventCode) -> u8 {
        sass_event_code_value(v)
    }
}

/// A code of the acknowledgement event group.
#[non_exhaustive]
#[derive(Debug, Clone, Copy, PartialEq, Eq, Structural)]
pub enum AcknowledgementEventCode {
    Ack,
    Nak,
    Unknown(u8),
}

pub open spec fn acknowledgement_event_code_of(v: u8) -> AcknowledgementEventCode {
    if v == 0x01 {
        AcknowledgementEventCode::Ack
    } else if v == 0x02 {
        AcknowledgementEventCode::Nak
    } else {
        AcknowledgementEventCode::Unknown(v)
    }
}

pub open spec fn acknowledgement_event_code_value(x: AcknowledgementEventCode) -> u8 {
    match x {
        AcknowledgementEventCode::Ack => 0x01,
        AcknowledgementEventCode::Nak => 0x02,
        AcknowledgementEventCode::Unknown(v) => v,
    }
}

impl AcknowledgementEventCode {
    pub fn from_primitive(v: u8) -> (r: Self)
        ensures
            r == acknowledgement_event_code_of(v),
    {
        match v {
            0x01 => AcknowledgementEventCode::Ack,
            0x02 => AcknowledgementEventCode::Nak,
            _ => AcknowledgementEventCode::Unknown(v),
        }
    }

    pub fn to_primitive(self) -> (r: u8)
        ensures
            r == acknowledgement_event_code_value(self),
    {
        match self {
            AcknowledgementEventCode::Ack => 0x01,
            AcknowledgementEventCode::Nak => 0x02,
            AcknowledgementEventCode::Unknown(v) => v,
        }
    }
}

impl From<u8> for AcknowledgementEventCode {
    fn from(v: u8) -> (r: Self) {
        AcknowledgementEventCode::from_primitive(v)
    }
}

impl vstd::std_specs::convert::FromSpecImpl<u8> for AcknowledgementEventCode {
    open spec fn obeys_from_spec() -> bool {
        true
    }

    open spec fn from_spec(v: u8) -> AcknowledgementEventCode {
        acknowledgement_event_code_of(v)
    }
}

impl From<AcknowledgementEventCode> for u8 {
    fn from(v: AcknowledgementEventCode) -> (r: u8) {
        v.to_primitive()
    }
}

impl vstd::std_specs::convert::FromSpecImpl<AcknowledgementEventCode> for u8 {
    open spec fn obeys_from_spec() -> bool {
        true
    }

    open spec fn from_spec(v: AcknowledgementEventCode) -> u8 {
        acknowledgement_event_code_value(v)
    }
}

/// The platform of the device.
#[non_exhaustive]
#[derive(Debug, Clone, Copy, PartialEq, Eq, Structural)]
pub enum PlatformType {
    Android,
    Unknown(u8),
}

pub open spec fn platform_type_of(v: u8) -> PlatformType {
    if v == 0x01 {
        PlatformType::Android
    } else {
        PlatformType::Unknown(v)
    }
}

pub open spec fn platform_type_value(x: PlatformType) -> u8 {
    match x {
        PlatformType::Android => 0x01,
        PlatformType::Unknown(v) => v,
    }
}

impl PlatformType {
    pub fn from_primitive(v: u8) -> (r: Self)
        ensures
            r == platform_type_of(v),
    {
        match v {
            0x01 => PlatformType::Android,
            _ => PlatformType::Unknown(v),
        }
    }

    pub fn to_primitive(self) -> (r: u8)
        ensures
            r == platform_type_value(self),
    {
        match self {
            PlatformType::Android => 0x01,
            PlatformType::Unknown(v) => v,
        }
    }
}

impl From<u8> for PlatformType {
    fn from(v: u8) -> (r: Self) {
        PlatformType::from_primitive(v)
    }
}

impl vstd::std_specs::convert::FromSpecImpl<u8> for PlatformType {
    open spec fn obeys_from_spec() -> bool {
        true
    }

    open spec fn from_spec(v: u8) -> PlatformType {
        platform_type_of(v)
    }
}

impl From<PlatformType> for u8 {
    fn from(v: PlatformType) -> (r: u8) {
        v.to_primitive()
    }
}

impl vstd::std_specs::convert::FromSpecImpl<PlatformType> for u8 {
    open spec fn obeys_from_spec() -> bool {
        true
    }

    open spec fn from_spec(v: PlatformType) -> u8 {
        platform_type_value(v)
    }
}

/// A battery level as reported in one byte: the low seven bits give the
/// percentage (0x7f: unknown), the high bit whether it charges.
#[derive(Debug, Clone, Copy, PartialEq, Eq, Structural)]
pub enum BatteryInfo {
    Unknown,
    Known { is_charging: bool, percent: u8 },
}

impl BatteryInfo {
    pub fn from_byte(value: u8) -> (r: Self)
        ensures
            value % 128 == 127 ==> r == BatteryInfo::Unknown,
            value % 128 != 127 ==> r == (BatteryInfo::Known { is_charging: value >= 128, percent: value % 128 }),
    {
        assert(value & 0x7f == value % 128) by (bit_vector);
        assert((value & 0x80 != 0) == (value >= 128)) by (bit_vector);
        if value & 0x7f == 0x7f {
            BatteryInfo::Unknown
        } else {
            BatteryInfo::Known { is_charging: (value & 0x80) != 0, percent: value & 0x7f }
        }
    }

    pub fn to_byte(&self) -> (r: u8)
        ensures
            match *self {
                BatteryInfo::Unknown => r == 0xff,
                BatteryInfo::Known { is_charging, percent } => r == (if is_charging { 128int } else { 0int }) + percent % 128,
            },
    {
        match *self {
            BatteryInfo::Unknown => 0xff,
            BatteryInfo::Known { is_charging: true, percent } => {
                assert(0x80 | (0x7f & percent) == 128 + percent % 128) by (bit_vector);
                0x80 | (0x7f & percent)
            },
            BatteryInfo::Known { is_charging: false, percent } => {
                assert(0x7f & percent == percent % 128) by (bit_vector);
                0x7f & percent
            },
        }
    }
}

impl Default for BatteryInfo {
    fn default() -> (r: Self)
        ensures
            r == BatteryInfo::Unknown,
    {
        BatteryInfo::Unknown
    }
}

/// A known battery level below 127 percent survives the trip through its
/// byte.
pub proof fn lemma_battery_round_trip(is_charging: bool, percent: u8)
    requires
        percent < 127,
    ensures
        ({
            let b = BatteryInfo::Known { is_charging, percent };
            let byte: u8 = ((if is_charging { 128int } else { 0int }) + percent) as u8;
            byte % 128 != 127 && (BatteryInfo::Known { is_charging: byte >= 128, percent: byte % 128 }) == b
        }),
{
}

/// The largest message body.
pub const MAX_FRAME_SIZE: u16 = 4096;

/// One message of the stream: event group, event code, and data.
#[derive(Debug, Clone, PartialEq, Eq)]
pub struct Message {
    pub group: u8,
    pub code: u8,
    pub data: MessageData,
}

/// A message that does not fit a frame.
#[derive(Debug, Clone, Copy, PartialEq, Eq, Structural)]
pub enum MessageError {
    TooLarge { length: usize },
}

/// The wire form of a message: group, code, the data length as a big-endian
/// 16-bit number, and the data.
pub open spec fn message_bytes(group: u8, code: u8, data: Seq<u8>) -> Seq<u8> {
    seq![group, code, (data.len() / 256) as u8, (data.len() % 256) as u8] + data
}

/// The data length that a header announces.
pub open spec fn announced_len(s: Seq<u8>) -> int {
    (s[2] as int) * 256 + (s[3] as int)
}

/// Message stream codec: a header of four bytes, then the data.
pub struct Codec {}

impl Codec {
    pub fn new() -> (r: Self) {
        Codec {}
    }

    /// Takes one message from the front of `src`, if it is complete.
    pub fn decode(&mut self, src: &mut BytesMut) -> (r: Result<Option<Message>, MessageError>)
        ensures
            ({
                let s = buffer_bytes(*old(src));
                if s.len() < 4 {
                    r == Ok::<Option<Message>, MessageError>(None) && buffer_bytes(*final(src)) == s
                } else if announced_len(s) > 4096 {
                    r == Err::<Option<Message>, MessageError>(MessageError::TooLarge { length: announced_len(s) as usize })
                        && buffer_bytes(*final(src)) == s
                } else if s.len() < 4 + announced_len(s) {
                    r == Ok::<Option<Message>, MessageError>(None) && buffer_bytes(*final(src)) == s
                } else {
                    r matches Ok(Some(m)) && m.group == s[0] && m.code == s[1]
                        && small_bytes(m.data) == s.subrange(4, 4 + announced_len(s))
                        && buffer_bytes(*final(src)) == s.skip(4 + announced_len(s))
                }
            }),
    {
        let slice = buffer_slice(src);
        if slice.len() < 4 {
            return Ok(None);
        }
        let group = slice[0];
        let code = slice[1];
        let length: usize = (slice[2] as usize) * 256 + (slice[3] as usize);
        if length > MAX_FRAME_SIZE as usize {
            return Err(MessageError::TooLarge { length });
        }
        let size = 4 + length;
        if slice.len() < size {
            return Ok(None);
        }
        let mut data = MessageData::new();
        let mut i: usize = 4;
        while i < size
            invariant
                4 <= i <= size,
                size <= 4100,
                size <= slice@.len(),
                small_bytes(data) == slice@.subrange(4, i as int),
            decreases size - i,
        {
            data.push(slice[i]);
            proof {
                assert(small_bytes(data) =~= slice@.subrange(4, i + 1));
            }
            i = i + 1;
        }
        buffer_advance(src, size);
        Ok(Some(Message { group, code, data }))
    }

    /// Appends the wire form of `msg` to `buf`; data longer than the frame
    /// allows is refused and nothing is written.
    pub fn encode(&mut self, msg: &Message, buf: &mut BytesMut) -> (r: Result<(), MessageError>)
        requires
            buffer_bytes(*old(buf)).len() + 4100 < isize::MAX,
            small_bytes(msg.data).len() + 4 <= usize::MAX,
        ensures
            small_bytes(msg.data).len() + 4 > 4096 ==> r == Err::<(), MessageError>(MessageError::TooLarge { length: (small_bytes(msg.data).len() + 4) as usize })
                && buffer_bytes(*final(buf)) == buffer_bytes(*old(buf)),
            small_bytes(msg.data).len() + 4 <= 4096 ==> r is Ok
                && buffer_bytes(*final(buf)) == buffer_bytes(*old(buf)) + message_bytes(msg.group, msg.code, small_bytes(msg.data)),
    {
        let data = msg.data.as_slice();
        let n = data.len();
        if n > MAX_FRAME_SIZE as usize - 4 {
            return Err(MessageError::TooLarge { length: n + 4 });
        }
        let ghost start = buffer_bytes(*buf);
        buffer_put_u8(buf, msg.group);
        buffer_put_u8(buf, msg.code);
        buffer_put_u8(buf, (n / 256) as u8);
        buffer_put_u8(buf, (n % 256) as u8);
        let mut i: usize = 0;
        while i < n
            invariant
                i <= n,
                n == data@.len(),
                data@ == small_bytes(msg.data),
                n <= 4092,
                start.len() + 4100 < isize::MAX,
                buffer_bytes(*buf) == start + seq![msg.group, msg.code, (n / 256) as u8, (n % 256) as u8] + data@.take(i as int),
            decreases n - i,
        {
            buffer_put_u8(buf, data[i]);
            proof {
                assert(data@.take(i + 1) =~= data@.take(i as int).push(data@[i as int]));
                assert(buffer_bytes(*buf) =~= start + seq![msg.group, msg.code, (n / 256) as u8, (n % 256) as u8] + data@.take(i + 1));
            }
            i = i + 1;
        }
        proof {
            assert(data@.take(n as int) =~= data@);
            assert(buffer_bytes(*buf) =~= start + message_bytes(msg.group, msg.code, data@));
        }
        Ok(())
    }
}

impl Default for Codec {
    fn default() -> (r: Self) {
        Codec::new()
    }
}

/// What the encoder writes, the decoder reads back, and it takes exactly
/// those bytes.
pub proof fn lemma_message_round_trip(group: u8, code: u8, data: Seq<u8>, rest: Seq<u8>)
    requires
        data.len() <= 4092,
    ensures
        ({
            let s = message_bytes(group, code, data) + rest;
            &&& s.len() >= 4
            &&& announced_len(s) == data.len()
            &&& s[0] == group && s[1] == code
            &&& s.subrange(4, 4 + announced_len(s)) == data
            &&& s.skip(4 + announced_len(s)) == rest
        }),
{
    let s = message_bytes(group, code, data) + rest;
    assert(s.subrange(4, 4 + data.len() as int) =~= data);
    assert(s.skip(4 + data.len() as int) =~= rest);
}

} // verus!
