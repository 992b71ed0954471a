//! The device information screen: a cached snapshot of modem state, and the
//! pure conversions the renderer uses to turn raw readings into gauges.

use vstd::prelude::*;
use crate::actions::AppAction;
use crate::actions::BackendCommand;
use crate::keys::KeyCode;
use crate::keys::KeyPress;
use crate::views::ViewStateRequest;

verus! {

/// Battery readings: charging status code, charge percentage, and the
/// voltage in hundredths of a volt.
#[derive(Clone, Copy, Debug, PartialEq, Eq, Structural)]
pub struct BatteryInfo {
    pub status: u8,
    pub charge: u8,
    pub voltage_centivolts: u32,
}

/// Signal readings: RSSI (`0..=31`, `99` for unknown) and bit error rate.
#[derive(Clone, Copy, Debug, PartialEq, Eq, Structural)]
pub struct SignalInfo {
    pub rssi: u8,
    pub ber: u8,
}

/// The device information snapshot the screen shows.
#[derive(Debug, PartialEq)]
pub struct DeviceInfo {
    pub version: String,
    pub phone_number: Option<String>,
    pub service_provider: Option<String>,
    pub network_operator: Option<String>,
    pub battery: Option<BatteryInfo>,
    pub signal: Option<SignalInfo>,
}

/// The device information screen; the snapshot is fetched once and kept.
pub struct DeviceInfoView {
    pub device_info: Option<DeviceInfo>,
}

/// The RSSI reading as a percentage: `99` means unknown and gives zero,
/// readings above the scale cap at one hundred, and a reading on the scale
/// maps to its rounded share of it.
pub open spec fn spec_signal_percentage(rssi: u8) -> int {
    if rssi == 99 {
        0
    } else if rssi > 31 {
        100
    } else {
        (rssi * 200 + 31) / 62
    }
}

/// The number of filled signal bars, of five: the reading's share of the
/// scale rounded up, zero for no or unknown signal.
pub open spec fn spec_signal_bars(rssi: u8) -> int {
    if rssi == 99 || rssi == 0 {
        0
    } else if rssi > 31 {
        5
    } else {
        (rssi * 5 + 30) / 31
    }
}

/// How many of the battery gauge's fourteen cells are filled.
pub open spec fn spec_battery_filled(charge: u8) -> int {
    (vstd::math::min(charge as int, 100) * 14) / 100
}

/// What the device screen does with one key: Escape returns to the menu,
/// the refresh key asks for the snapshot again only while none is cached,
/// and everything else is ignored.
pub open spec fn device_key_spec(
    v: DeviceInfoView,
    key: KeyPress,
    action: Option<AppAction>,
    command: Option<BackendCommand>,
) -> bool {
    &&& key.code is Esc ==> (action matches Some(AppAction::SetViewState { state, dismiss_modal })
        && state is MainMenu && !dismiss_modal && command is None)
    &&& (key.code == KeyCode::Char('r') || key.code == KeyCode::Char('R')) ==> {
        &&& action is None
        &&& v.device_info is None ==> command == Some(BackendCommand::FetchDeviceInfo)
        &&& v.device_info is Some ==> command is None
    }
    &&& (!(key.code is Esc) && key.code != KeyCode::Char('r') && key.code != KeyCode::Char('R'))
        ==> action is None && command is None
}

impl DeviceInfoView {
    pub fn new() -> (r: DeviceInfoView)
        ensures
            r.device_info is None,
    {
        DeviceInfoView { device_info: None }
    }

    /// Whether entering the screen must first fetch the snapshot.
    pub fn needs_load(&self) -> (r: bool)
        ensures
            r == (self.device_info is None),
    {
        self.device_info.is_none()
    }

    /// Stores the fetched snapshot.
    pub fn set_device_info(&mut self, info: DeviceInfo)
        ensures
            final(self).device_info == Some(info),
    {
        self.device_info = Some(info);
    }

    /// Handles one key as `device_key_spec` describes: Escape returns to the
    /// menu; the refresh key fetches the snapshot again, but only when none
    /// is cached yet.
    pub fn handle_key(&self, key: KeyPress) -> (r: (Option<AppAction>, Option<BackendCommand>))
        ensures
            device_key_spec(*self, key, r.0, r.1),
            r.0 matches Some(a) ==> crate::actions::action_wf(a),
    {
        match key.code {
            KeyCode::Esc => (
                Some(
                    AppAction::SetViewState {
                        state: ViewStateRequest::default(),
                        dismiss_modal: false,
                    },
                ),
                None,
            ),
            KeyCode::Char(c) => {
                if c == 'r' || c == 'R' {
                    if self.device_info.is_none() {
                        (None, Some(BackendCommand::FetchDeviceInfo))
                    } else {
                        (None, None)
                    }
                } else {
                    (None, None)
                }
            },
            _ => (None, None),
        }
    }
}

/// The RSSI reading as a percentage, for the signal gauge.
pub fn get_signal_strength_percentage(rssi: u8) -> (r: u8)
    ensures
        r == spec_signal_percentage(rssi),
        r <= 100,
{
    if rssi == 99 {
        0
    } else if rssi > 31 {
        100
    } else {
        (((rssi as u32) * 200 + 31) / 62) as u8
    }
}

/// The label describing signal quality, derived from the percentage.
pub fn get_signal_quality_text(rssi: u8) -> (r: &'static str)
    ensures
        rssi == 99 ==> r@ == "Unknown"@,
        rssi != 99 && spec_signal_percentage(rssi) >= 90 ==> r@ == "Excellent"@,
        rssi != 99 && 70 <= spec_signal_percentage(rssi) < 90 ==> r@ == "Good"@,
        rssi != 99 && 50 <= spec_signal_percentage(rssi) < 70 ==> r@ == "Fair"@,
        rssi != 99 && 25 <= spec_signal_percentage(rssi) < 50 ==> r@ == "Poor"@,
        rssi != 99 && spec_signal_percentage(rssi) < 25 ==> r@ == "Very Poor"@,
{
    if rssi == 99 {
        return "Unknown";
    }
    let percentage = get_signal_strength_percentage(rssi);
    if percentage >= 90 {
        "Excellent"
    } else if percentage >= 70 {
        "Good"
    } else if percentage >= 50 {
        "Fair"
    } else if percentage >= 25 {
        "Poor"
    } else {
        "Very Poor"
    }
}

/// The label for a battery charging status code.
pub fn get_battery_status_text(status: u8) -> (r: &'static str)
    ensures
        status == 0 ==> r@ == "Not Charging"@,
        status == 1 ==> r@ == "Charging"@,
        status == 2 ==> r@ == "No Battery"@,
        status > 2 ==> r@ == "Unknown"@,
{
    if status == 0 {
        "Not Charging"
    } else if status == 1 {
        "Charging"
    } else if status == 2 {
        "No Battery"
    } else {
        "Unknown"
    }
}

/// The number of filled signal bars, for the signal gauge.
pub fn get_signal_bars(rssi: u8) -> (r: u8)
    ensures
        r == spec_signal_bars(rssi),
        r <= 5,
{
    if rssi == 99 || rssi == 0 {
        0
    } else if rssi > 31 {
        5
    } else {
        (((rssi as u32) * 5 + 30) / 31) as u8
    }
}

/// How many of the battery gauge's cells are filled.
pub fn get_battery_filled(charge: u8) -> (r: u8)
    ensures
        r == spec_battery_filled(charge),
        r <= 14,
{
    let capped: u32 = if charge > 100 {
        100
    } else {
        charge as u32
    };
    ((capped * 14) / 100) as u8
}

} // verus!
