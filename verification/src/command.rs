//! Command catalog and domain facade: the requests of the three services,
//! the service each is addressed to, and the response variant each calls
//! for.

use crate::battery::{BixData, BstData};
use crate::error::ExchangeError;
use crate::frame::Destination;
use crate::rtc::{Capabilities, TimerId, TimerSeconds, TimerStatus, Timestamp, WakePolicy};
use crate::Threshold;
use vstd::prelude::*;

verus! {

/// Size in bytes of a thermal variable.
pub const THERMAL_VAR_LEN: u16 = 4;

/// The thermal sensor that every thermal request names.
pub const SENSOR_INSTANCE: u8 = 0;

/// The battery that every battery request names.
pub const BATTERY_INSTANCE: u8 = 0;

/// A request of the catalog, with its arguments.
#[derive(Clone, Copy, Debug, PartialEq, Eq)]
pub enum Request {
    ThermalGetTmp { instance_id: u8 },
    ThermalGetVar { instance_id: u8, len: u16, var_uuid: [u8; 16] },
    ThermalSetVar { instance_id: u8, len: u16, var_uuid: [u8; 16], set_var: u32 },
    BatteryGetBst { battery_id: u8 },
    BatteryGetBix { battery_id: u8 },
    BatterySetBtp { battery_id: u8, trip_point: u32 },
    GetCapabilities,
    GetRealTime,
    GetWakeStatus(TimerId),
    GetExpiredTimerPolicy(TimerId),
    GetTimerValue(TimerId),
}

/// The variants a decoded response can have.
#[derive(Clone, Copy, Debug, PartialEq, Eq, Structural)]
pub enum ResponseKind {
    ThermalGetTmp,
    ThermalGetVar,
    ThermalSetVar,
    BatteryGetBst,
    BatteryGetBix,
    BatterySetBtp,
    Capabilities,
    RealTime,
    TimerStatus,
    WakePolicy,
    TimerSeconds,
    /// A response that no request of this catalog calls for.
    Other,
}

/// A decoded response, with its values.
#[derive(Clone, Copy, Debug, PartialEq, Eq)]
pub enum Response {
    /// Temperature in tenths of a kelvin.
    ThermalGetTmp { temperature: u32 },
    ThermalGetVar { val: u32 },
    ThermalSetVar,
    BatteryGetBst { bst: BstData },
    BatteryGetBix { bix: BixData },
    BatterySetBtp,
    Capabilities(Capabilities),
    RealTime(Timestamp),
    TimerStatus(TimerStatus),
    WakePolicy(WakePolicy),
    TimerSeconds(TimerSeconds),
    /// A response that no request of this catalog calls for.
    Other,
}

/// The fan variables that the thermal service keeps.
#[derive(Clone, Copy, Debug, PartialEq, Eq, Structural)]
pub enum FanVariable {
    CurrentRpm,
    MinRpm,
    MaxRpm,
    OnTemp,
    RampTemp,
    MaxTemp,
}

/// The identifiers under which the thermal service keeps the fan variables,
/// each in the byte order of its textual form.
#[derive(Clone, Copy, Debug, PartialEq, Eq)]
pub struct FanGuids {
    pub current_rpm: [u8; 16],
    pub min_rpm: [u8; 16],
    pub max_rpm: [u8; 16],
    pub on_temp: [u8; 16],
    pub ramp_temp: [u8; 16],
    pub max_temp: [u8; 16],
}

/// An identifier in mixed-endian wire order: the first three fields (4, 2
/// and 2 bytes) are byte-reversed, the last eight bytes stay.
pub open spec fn mixed_endian(guid: Seq<u8>) -> Seq<u8> {
    seq![
        guid[3],
        guid[2],
        guid[1],
        guid[0],
        guid[5],
        guid[4],
        guid[7],
        guid[6],
        guid[8],
        guid[9],
        guid[10],
        guid[11],
        guid[12],
        guid[13],
        guid[14],
        guid[15],
    ]
}

/// `uuid::Uuid::to_bytes_le`, on the identifier that `uuid::Uuid::from_bytes`
/// makes of `guid`. Claimed, not proved: the result holds the bytes of
/// `guid` with each of the first three fields reversed and the last eight
/// bytes in place.
#[verifier::external_body]
fn guid_to_bytes_le(guid: &[u8; 16]) -> (wire: [u8; 16])
    ensures
        wire@ == mixed_endian(guid@),
{
    uuid::Uuid::from_bytes(*guid).to_bytes_le()
}

impl FanGuids {
    /// The identifier of one fan variable.
    pub open spec fn spec_of(&self, variable: FanVariable) -> [u8; 16] {
        match variable {
            FanVariable::CurrentRpm => self.current_rpm,
            FanVariable::MinRpm => self.min_rpm,
            FanVariable::MaxRpm => self.max_rpm,
            FanVariable::OnTemp => self.on_temp,
            FanVariable::RampTemp => self.ramp_temp,
            FanVariable::MaxTemp => self.max_temp,
        }
    }

    /// The identifier of one fan variable.
    #[verifier::when_used_as_spec(spec_of)]
    pub fn of(&self, variable: FanVariable) -> (guid: [u8; 16])
        ensures
            guid == self.spec_of(variable),
    {
        match variable {
            FanVariable::CurrentRpm => self.current_rpm,
            FanVariable::MinRpm => self.min_rpm,
            FanVariable::MaxRpm => self.max_rpm,
            FanVariable::OnTemp => self.on_temp,
            FanVariable::RampTemp => self.ramp_temp,
            FanVariable::MaxTemp => self.max_temp,
        }
    }
}

/// The fan variable that holds a temperature threshold.
pub open spec fn threshold_variable(threshold: Threshold) -> FanVariable {
    match threshold {
        Threshold::On => FanVariable::OnTemp,
        Threshold::Ramping => FanVariable::RampTemp,
        Threshold::Max => FanVariable::MaxTemp,
    }
}

impl Request {
    /// The service that takes the request.
    pub open spec fn spec_destination(&self) -> Destination {
        match self {
            Request::ThermalGetTmp { .. } => Destination::Thermal,
            Request::ThermalGetVar { .. } => Destination::Thermal,
            Request::ThermalSetVar { .. } => Destination::Thermal,
            Request::BatteryGetBst { .. } => Destination::Battery,
            Request::BatteryGetBix { .. } => Destination::Battery,
            Request::BatterySetBtp { .. } => Destination::Battery,
            Request::GetCapabilities => Destination::TimeAlarm,
            Request::GetRealTime => Destination::TimeAlarm,
            Request::GetWakeStatus(_) => Destination::TimeAlarm,
            Request::GetExpiredTimerPolicy(_) => Destination::TimeAlarm,
            Request::GetTimerValue(_) => Destination::TimeAlarm,
        }
    }

    /// The response variant that answers the request.
    pub open spec fn spec_expects(&self) -> ResponseKind {
        match self {
            Request::ThermalGetTmp { .. } => ResponseKind::ThermalGetTmp,
            Request::ThermalGetVar { .. } => ResponseKind::ThermalGetVar,
            Request::ThermalSetVar { .. } => ResponseKind::ThermalSetVar,
            Request::BatteryGetBst { .. } => ResponseKind::BatteryGetBst,
            Request::BatteryGetBix { .. } => ResponseKind::BatteryGetBix,
            Request::BatterySetBtp { .. } => ResponseKind::BatterySetBtp,
            Request::GetCapabilities => ResponseKind::Capabilities,
            Request::GetRealTime => ResponseKind::RealTime,
            Request::GetWakeStatus(_) => ResponseKind::TimerStatus,
            Request::GetExpiredTimerPolicy(_) => ResponseKind::WakePolicy,
            Request::GetTimerValue(_) => ResponseKind::TimerSeconds,
        }
    }

    /// The short name of the request, as it stands in error reports.
    pub fn label(&self) -> (label: &'static str)
        ensures
            label@ == match self {
                Request::ThermalGetTmp { .. } => "GET_TMP"@,
                Request::ThermalGetVar { .. } => "GET_VAR"@,
                Request::ThermalSetVar { .. } => "SET_VAR"@,
                Request::BatteryGetBst { .. } => "GET_BST"@,
                Request::BatteryGetBix { .. } => "GET_BIX"@,
                Request::BatterySetBtp { .. } => "SET_BTP"@,
                Request::GetCapabilities => "GET_CAPABILITIES"@,
                Request::GetRealTime => "GET_REAL_TIME"@,
                Request::GetWakeStatus(_) => "GET_WAKE_STATUS"@,
                Request::GetExpiredTimerPolicy(_) => "GET_TIP"@,
                Request::GetTimerValue(_) => "GET_TIV"@,
            },
    {
        match self {
            Request::ThermalGetTmp { .. } => "GET_TMP",
            Request::ThermalGetVar { .. } => "GET_VAR",
            Request::ThermalSetVar { .. } => "SET_VAR",
            Request::BatteryGetBst { .. } => "GET_BST",
            Request::BatteryGetBix { .. } => "GET_BIX",
            Request::BatterySetBtp { .. } => "SET_BTP",
            Request::GetCapabilities => "GET_CAPABILITIES",
            Request::GetRealTime => "GET_REAL_TIME",
            Request::GetWakeStatus(_) => "GET_WAKE_STATUS",
            Request::GetExpiredTimerPolicy(_) => "GET_TIP",
            Request::GetTimerValue(_) => "GET_TIV",
        }
    }

    /// The service that takes the request.
    #[verifier::when_used_as_spec(spec_destination)]
    pub fn destination(&self) -> (dst: Destination)
        ensures
            dst == self.spec_destination(),
    {
        match self {
            Request::ThermalGetTmp { .. } => Destination::Thermal,
            Request::ThermalGetVar { .. } => Destination::Thermal,
            Request::ThermalSetVar { .. } => Destination::Thermal,
            Request::BatteryGetBst { .. } => Destination::Battery,
            Request::BatteryGetBix { .. } => Destination::Battery,
            Request::BatterySetBtp { .. } => Destination::Battery,
            Request::GetCapabilities => Destination::TimeAlarm,
            Request::GetRealTime => Destination::TimeAlarm,
            Request::GetWakeStatus(_) => Destination::TimeAlarm,
            Request::GetExpiredTimerPolicy(_) => Destination::TimeAlarm,
            Request::GetTimerValue(_) => Destination::TimeAlarm,
        }
    }

    /// The response variant that answers the request.
    #[verifier::when_used_as_spec(spec_expects)]
    pub fn expects(&self) -> (kind: ResponseKind)
        ensures
            kind == self.spec_expects(),
    {
        match self {
            Request::ThermalGetTmp { .. } => ResponseKind::ThermalGetTmp,
            Request::ThermalGetVar { .. } => ResponseKind::ThermalGetVar,
            Request::ThermalSetVar { .. } => ResponseKind::ThermalSetVar,
            Request::BatteryGetBst { .. } => ResponseKind::BatteryGetBst,
            Request::BatteryGetBix { .. } => ResponseKind::BatteryGetBix,
            Request::BatterySetBtp { .. } => ResponseKind::BatterySetBtp,
            Request::GetCapabilities => ResponseKind::Capabilities,
            Request::GetRealTime => ResponseKind::RealTime,
            Request::GetWakeStatus(_) => ResponseKind::TimerStatus,
            Request::GetExpiredTimerPolicy(_) => ResponseKind::WakePolicy,
            Request::GetTimerValue(_) => ResponseKind::TimerSeconds,
        }
    }
}

impl Response {
    /// The variant of the response.
    pub open spec fn spec_kind(&self) -> ResponseKind {
        match self {
            Response::ThermalGetTmp { .. } => ResponseKind::ThermalGetTmp,
            Response::ThermalGetVar { .. } => ResponseKind::ThermalGetVar,
            Response::ThermalSetVar => ResponseKind::ThermalSetVar,
            Response::BatteryGetBst { .. } => ResponseKind::BatteryGetBst,
            Response::BatteryGetBix { .. } => ResponseKind::BatteryGetBix,
            Response::BatterySetBtp => ResponseKind::BatterySetBtp,
            Response::Capabilities(_) => ResponseKind::Capabilities,
            Response::RealTime(_) => ResponseKind::RealTime,
            Response::TimerStatus(_) => ResponseKind::TimerStatus,
            Response::WakePolicy(_) => ResponseKind::WakePolicy,
            Response::TimerSeconds(_) => ResponseKind::TimerSeconds,
            Response::Other => ResponseKind::Other,
        }
    }

    /// The variant of the response.
    #[verifier::when_used_as_spec(spec_kind)]
    pub fn kind(&self) -> (kind: ResponseKind)
        ensures
            kind == self.spec_kind(),
    {
        match self {
            Response::ThermalGetTmp { .. } => ResponseKind::ThermalGetTmp,
            Response::ThermalGetVar { .. } => ResponseKind::ThermalGetVar,
            Response::ThermalSetVar => ResponseKind::ThermalSetVar,
            Response::BatteryGetBst { .. } => ResponseKind::BatteryGetBst,
            Response::BatteryGetBix { .. } => ResponseKind::BatteryGetBix,
            Response::BatterySetBtp => ResponseKind::BatterySetBtp,
            Response::Capabilities(_) => ResponseKind::Capabilities,
            Response::RealTime(_) => ResponseKind::RealTime,
            Response::TimerStatus(_) => ResponseKind::TimerStatus,
            Response::WakePolicy(_) => ResponseKind::WakePolicy,
            Response::TimerSeconds(_) => ResponseKind::TimerSeconds,
            Response::Other => ResponseKind::Other,
        }
    }
}

/// Checks a decoded response against the request it was read for: the
/// response is handed on exactly when it is of the variant that the request
/// calls for; any other is a wrong-variant error.
pub fn expect_response(request: &Request, response: Response) -> (r: Result<Response, ExchangeError>)
    ensures
        r is Ok <==> response.kind() == request.expects(),
        r matches Ok(checked) ==> checked == response,
        r matches Err(e) ==> e == ExchangeError::WrongResponseVariant,
{
    if response.kind() == request.expects() {
        Ok(response)
    } else {
        Err(ExchangeError::WrongResponseVariant)
    }
}

/// Classifies what decoding the response bytes gave: bytes that decoded to
/// nothing are a deserialization error, a response of another variant than
/// the request calls for is a wrong-variant error, and the response is
/// handed on otherwise.
pub fn check_decoded(request: &Request, decoded: Option<Response>) -> (r: Result<
    Response,
    ExchangeError,
>)
    ensures
        r == match decoded {
            None => Err::<Response, ExchangeError>(ExchangeError::Deserialization),
            Some(response) => if response.kind() == request.expects() {
                Ok::<Response, ExchangeError>(response)
            } else {
                Err::<Response, ExchangeError>(ExchangeError::WrongResponseVariant)
            },
        },
{
    match decoded {
        None => Err(ExchangeError::Deserialization),
        Some(response) => expect_response(request, response),
    }
}

/// The request for the temperature of the sensor.
pub fn get_temperature() -> (request: Request)
    ensures
        request == (Request::ThermalGetTmp { instance_id: SENSOR_INSTANCE }),
{
    Request::ThermalGetTmp { instance_id: SENSOR_INSTANCE }
}

/// The temperature, in tenths of a kelvin, that answers `get_temperature`.
pub fn temperature_of(response: Response) -> (r: Result<u32, ExchangeError>)
    ensures
        r == match response {
            Response::ThermalGetTmp { temperature } => Ok::<u32, ExchangeError>(temperature),
            _ => Err::<u32, ExchangeError>(ExchangeError::WrongResponseVariant),
        },
{
    if let Response::ThermalGetTmp { temperature } = response {
        Ok(temperature)
    } else {
        Err(ExchangeError::WrongResponseVariant)
    }
}

/// The request to read the thermal variable that `guid` names. The
/// identifier goes on the wire in mixed-endian order.
pub fn thermal_get_var(guid: &[u8; 16]) -> (request: Request)
    ensures
        request matches Request::ThermalGetVar { instance_id, len, var_uuid } && instance_id
            == SENSOR_INSTANCE && len == THERMAL_VAR_LEN && var_uuid@ == mixed_endian(guid@),
{
    Request::ThermalGetVar {
        instance_id: SENSOR_INSTANCE,
        len: THERMAL_VAR_LEN,
        var_uuid: guid_to_bytes_le(guid),
    }
}

/// The value that answers `thermal_get_var`.
pub fn thermal_var_of(response: Response) -> (r: Result<u32, ExchangeError>)
    ensures
        r == match response {
            Response::ThermalGetVar { val } => Ok::<u32, ExchangeError>(val),
            _ => Err::<u32, ExchangeError>(ExchangeError::WrongResponseVariant),
        },
{
    if let Response::ThermalGetVar { val } = response {
        Ok(val)
    } else {
        Err(ExchangeError::WrongResponseVariant)
    }
}

/// The request to set the thermal variable that `guid` names to `raw`.
pub fn thermal_set_var(guid: &[u8; 16], raw: u32) -> (request: Request)
    ensures
        request matches Request::ThermalSetVar { instance_id, len, var_uuid, set_var }
            && instance_id == SENSOR_INSTANCE && len == THERMAL_VAR_LEN && var_uuid@
            == mixed_endian(guid@) && set_var == raw,
{
    Request::ThermalSetVar {
        instance_id: SENSOR_INSTANCE,
        len: THERMAL_VAR_LEN,
        var_uuid: guid_to_bytes_le(guid),
        set_var: raw,
    }
}

/// Whether `response` acknowledges `thermal_set_var`.
pub fn thermal_set_var_done(response: Response) -> (r: Result<(), ExchangeError>)
    ensures
        r == match response {
            Response::ThermalSetVar => Ok::<(), ExchangeError>(()),
            _ => Err::<(), ExchangeError>(ExchangeError::WrongResponseVariant),
        },
{
    if let Response::ThermalSetVar = response {
        Ok(())
    } else {
        Err(ExchangeError::WrongResponseVariant)
    }
}

/// The request for the current fan speed.
pub fn get_rpm(guids: &FanGuids) -> (request: Request)
    ensures
        request matches Request::ThermalGetVar { instance_id, len, var_uuid } && instance_id
            == SENSOR_INSTANCE && len == THERMAL_VAR_LEN && var_uuid@ == mixed_endian(
            guids.current_rpm@,
        ),
{
    thermal_get_var(&guids.current_rpm)
}

/// The request for the lowest fan speed.
pub fn get_min_rpm(guids: &FanGuids) -> (request: Request)
    ensures
        request matches Request::ThermalGetVar { instance_id, len, var_uuid } && instance_id
            == SENSOR_INSTANCE && len == THERMAL_VAR_LEN && var_uuid@ == mixed_endian(
            guids.min_rpm@,
        ),
{
    thermal_get_var(&guids.min_rpm)
}

/// The request for the highest fan speed.
pub fn get_max_rpm(guids: &FanGuids) -> (request: Request)
    ensures
        request matches Request::ThermalGetVar { instance_id, len, var_uuid } && instance_id
            == SENSOR_INSTANCE && len == THERMAL_VAR_LEN && var_uuid@ == mixed_endian(
            guids.max_rpm@,
        ),
{
    thermal_get_var(&guids.max_rpm)
}

/// The request for one of the fan's temperature thresholds.
pub fn get_threshold(guids: &FanGuids, threshold: Threshold) -> (request: Request)
    ensures
        request matches Request::ThermalGetVar { instance_id, len, var_uuid } && instance_id
            == SENSOR_INSTANCE && len == THERMAL_VAR_LEN && var_uuid@ == mixed_endian(
            guids.of(threshold_variable(threshold))@,
        ),
{
    match threshold {
        Threshold::On => thermal_get_var(&guids.on_temp),
        Threshold::Ramping => thermal_get_var(&guids.ramp_temp),
        Threshold::Max => thermal_get_var(&guids.max_temp),
    }
}

/// The request to set the fan speed.
pub fn set_rpm(guids: &FanGuids, rpm: u32) -> (request: Request)
    ensures
        request matches Request::ThermalSetVar { instance_id, len, var_uuid, set_var }
            && instance_id == SENSOR_INSTANCE && len == THERMAL_VAR_LEN && var_uuid@
            == mixed_endian(guids.current_rpm@) && set_var == rpm,
{
    thermal_set_var(&guids.current_rpm, rpm)
}

/// The request for the battery status.
pub fn get_bst() -> (request: Request)
    ensures
        request == (Request::BatteryGetBst { battery_id: BATTERY_INSTANCE }),
{
    Request::BatteryGetBst { battery_id: BATTERY_INSTANCE }
}

/// The battery status that answers `get_bst`.
pub fn bst_of(response: Response) -> (r: Result<BstData, ExchangeError>)
    ensures
        r == match response {
            Response::BatteryGetBst { bst } => Ok::<BstData, ExchangeError>(bst),
            _ => Err::<BstData, ExchangeError>(ExchangeError::WrongResponseVariant),
        },
{
    if let Response::BatteryGetBst { bst } = response {
        Ok(bst)
    } else {
        Err(ExchangeError::WrongResponseVariant)
    }
}

/// The request for the static battery information.
pub fn get_bix() -> (request: Request)
    ensures
        request == (Request::BatteryGetBix { battery_id: BATTERY_INSTANCE }),
{
    Request::BatteryGetBix { battery_id: BATTERY_INSTANCE }
}

/// The static battery information that answers `get_bix`.
pub fn bix_of(response: Response) -> (r: Result<BixData, ExchangeError>)
    ensures
        r == match response {
            Response::BatteryGetBix { bix } => Ok::<BixData, ExchangeError>(bix),
            _ => Err::<BixData, ExchangeError>(ExchangeError::WrongResponseVariant),
        },
{
    if let Response::BatteryGetBix { bix } = response {
        Ok(bix)
    } else {
        Err(ExchangeError::WrongResponseVariant)
    }
}

/// The request to set the battery trip point.
pub fn set_btp(trip_point: u32) -> (request: Request)
    ensures
        request == (Request::BatterySetBtp { battery_id: BATTERY_INSTANCE, trip_point }),
{
    Request::BatterySetBtp { battery_id: BATTERY_INSTANCE, trip_point }
}

/// Whether `response` acknowledges `set_btp`.
pub fn set_btp_done(response: Response) -> (r: Result<(), ExchangeError>)
    ensures
        r == match response {
            Response::BatterySetBtp => Ok::<(), ExchangeError>(()),
            _ => Err::<(), ExchangeError>(ExchangeError::WrongResponseVariant),
        },
{
    if let Response::BatterySetBtp = response {
        Ok(())
    } else {
        Err(ExchangeError::WrongResponseVariant)
    }
}

/// The request for the capabilities of the time-alarm device.
pub fn get_capabilities() -> (request: Request)
    ensures
        request == Request::GetCapabilities,
{
    Request::GetCapabilities
}

/// The capabilities that answer `get_capabilities`.
pub fn capabilities_of(response: Response) -> (r: Result<Capabilities, ExchangeError>)
    ensures
        r == match response {
            Response::Capabilities(capabilities) => Ok::<Capabilities, ExchangeError>(
                capabilities,
            ),
            _ => Err::<Capabilities, ExchangeError>(ExchangeError::WrongResponseVariant),
        },
{
    if let Response::Capabilities(capabilities) = response {
        Ok(capabilities)
    } else {
        Err(ExchangeError::WrongResponseVariant)
    }
}

/// The request for the real time.
pub fn get_real_time() -> (request: Request)
    ensures
        request == Request::GetRealTime,
{
    Request::GetRealTime
}

/// The timestamp that answers `get_real_time`.
pub fn real_time_of(response: Response) -> (r: Result<Timestamp, ExchangeError>)
    ensures
        r == match response {
            Response::RealTime(timestamp) => Ok::<Timestamp, ExchangeError>(timestamp),
            _ => Err::<Timestamp, ExchangeError>(ExchangeError::WrongResponseVariant),
        },
{
    if let Response::RealTime(timestamp) = response {
        Ok(timestamp)
    } else {
        Err(ExchangeError::WrongResponseVariant)
    }
}

/// The request for the wake status of a timer.
pub fn get_wake_status(timer_id: TimerId) -> (request: Request)
    ensures
        request == Request::GetWakeStatus(timer_id),
{
    Request::GetWakeStatus(timer_id)
}

/// The timer status that answers `get_wake_status`.
pub fn wake_status_of(response: Response) -> (r: Result<TimerStatus, ExchangeError>)
    ensures
        r == match response {
            Response::TimerStatus(status) => Ok::<TimerStatus, ExchangeError>(status),
            _ => Err::<TimerStatus, ExchangeError>(ExchangeError::WrongResponseVariant),
        },
{
    if let Response::TimerStatus(status) = response {
        Ok(status)
    } else {
        Err(ExchangeError::WrongResponseVariant)
    }
}

/// The request for the wake policy of an expired timer.
pub fn get_expired_timer_wake_policy(timer_id: TimerId) -> (request: Request)
    ensures
        request == Request::GetExpiredTimerPolicy(timer_id),
{
    Request::GetExpiredTimerPolicy(timer_id)
}

/// The policy that answers `get_expired_timer_wake_policy`.
pub fn wake_policy_of(response: Response) -> (r: Result<WakePolicy, ExchangeError>)
    ensures
        r == match response {
            Response::WakePolicy(policy) => Ok::<WakePolicy, ExchangeError>(policy),
            _ => Err::<WakePolicy, ExchangeError>(ExchangeError::WrongResponseVariant),
        },
{
    if let Response::WakePolicy(policy) = response {
        Ok(policy)
    } else {
        Err(ExchangeError::WrongResponseVariant)
    }
}

/// The request for the value of a timer.
pub fn get_timer_value(timer_id: TimerId) -> (request: Request)
    ensures
        request == Request::GetTimerValue(timer_id),
{
    Request::GetTimerValue(timer_id)
}

/// The timer value that answers `get_timer_value`.
pub fn timer_value_of(response: Response) -> (r: Result<TimerSeconds, ExchangeError>)
    ensures
        r == match response {
            Response::TimerSeconds(seconds) => Ok::<TimerSeconds, ExchangeError>(seconds),
            _ => Err::<TimerSeconds, ExchangeError>(ExchangeError::WrongResponseVariant),
        },
{
    if let Response::TimerSeconds(seconds) = response {
        Ok(seconds)
    } else {
        Err(ExchangeError::WrongResponseVariant)
    }
}

} // verus!
