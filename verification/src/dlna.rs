//! Renderers found on the local network, what can go wrong with them, and
//! how casting to one moves from state to state.
use vstd::prelude::*;
use crate::path::StrictPath;
use crate::text::{chars_of, push_str, string_of};

verus! {

/// A media renderer on the local network.
#[derive(Clone, Debug, PartialEq)]
pub struct DlnaDevice {
    pub name: String,
    pub location: String,
    pub udn: String,
}

impl DlnaDevice {
    /// The device that discovery reports under `name` at `url`; the URL also
    /// stands for its unique device name.
    pub fn discovered(name: String, url: String) -> (res: Self)
        ensures
            res.name@ == name@,
            res.location@ == url@,
            res.udn@ == url@,
    {
        let udn = url.clone();
        DlnaDevice { name, location: url, udn }
    }

    /// A copy of the device.
    pub fn copy(&self) -> (res: Self)
        ensures
            res.view_tuple() == self.view_tuple(),
    {
        DlnaDevice {
            name: self.name.clone(),
            location: self.location.clone(),
            udn: self.udn.clone(),
        }
    }

    /// The name, location and unique device name, as character sequences.
    pub open spec fn view_tuple(&self) -> (Seq<char>, Seq<char>, Seq<char>) {
        (self.name@, self.location@, self.udn@)
    }

    /// Whether two devices have the same name, location and unique name.
    pub fn same_as(&self, other: &Self) -> (res: bool)
        ensures
            res == (self.view_tuple() == other.view_tuple()),
    {
        let a = self.name == other.name;
        let b = self.location == other.location;
        let c = self.udn == other.udn;
        a && b && c
    }

    /// How the device is shown: by its name.
    pub fn to_display_string(&self) -> (res: String)
        ensures
            res@ == self.name@,
    {
        self.name.clone()
    }
}

/// The errors of finding, serving to and controlling renderers.
#[derive(Debug, Clone)]
pub enum DlnaError {
    Discovery(String),
    Server(String),
    Control(String),
    NoDevicesFound,
    DeviceNotFound,
    NetworkError(String),
}

/// The message that tells of a DLNA error.
pub open spec fn dlna_message(e: DlnaError) -> Seq<char> {
    match e {
        DlnaError::Discovery(d) => "设备发现失败: "@ + d@,
        DlnaError::Server(d) => "媒体服务器错误: "@ + d@,
        DlnaError::Control(d) => "播放控制失败: "@ + d@,
        DlnaError::NoDevicesFound => "未发现可用的 DLNA 设备"@,
        DlnaError::DeviceNotFound => "未找到指定的设备"@,
        DlnaError::NetworkError(d) => "网络错误: "@ + d@,
    }
}

fn with_detail(lead: &str, detail: &String) -> (res: String)
    ensures
        res@ == lead@ + detail@,
{
    let mut out = chars_of(lead);
    push_str(&mut out, detail.as_str());
    string_of(&out)
}

impl DlnaError {
    /// The message that tells of the error.
    pub fn to_display_string(&self) -> (res: String)
        ensures
            res@ == dlna_message(*self),
    {
        match self {
            DlnaError::Discovery(d) => with_detail("设备发现失败: ", d),
            DlnaError::Server(d) => with_detail("媒体服务器错误: ", d),
            DlnaError::Control(d) => with_detail("播放控制失败: ", d),
            DlnaError::NoDevicesFound => "未发现可用的 DLNA 设备".to_string(),
            DlnaError::DeviceNotFound => "未找到指定的设备".to_string(),
            DlnaError::NetworkError(d) => with_detail("网络错误: ", d),
        }
    }
}

/// How long discovery looks for renderers, in seconds.
pub const DISCOVERY_TIMEOUT_SECS: u64 = 5;

/// How long connecting to a renderer may take, in seconds.
pub const RENDERER_TIMEOUT_SECS: u64 = 5;

/// What the application knows of casting to a renderer.
#[derive(Debug)]
pub enum DlnaState {
    Idle,
    Scanning,
    DevicesReady(Vec<DlnaDevice>),
    Connecting(DlnaDevice),
    Playing {
        device: DlnaDevice,
        media_url: String,
        /// How far into the medium the renderer is, in nanoseconds.
        position: u128,
        is_paused: bool,
    },
    Error(DlnaError),
}

impl Default for DlnaState {
    /// Nothing is being cast.
    fn default() -> (res: Self)
        ensures
            res is Idle,
    {
        DlnaState::Idle
    }
}

/// The devices as name, location and unique name.
pub open spec fn device_tuples(devices: Seq<DlnaDevice>) -> Seq<(Seq<char>, Seq<char>, Seq<char>)> {
    devices.map_values(|d: DlnaDevice| d.view_tuple())
}

/// When two casting states count as the same: same kind, same devices,
/// same medium, position and pausing, and errors with the same message.
pub open spec fn same_state(a: DlnaState, b: DlnaState) -> bool {
    match (a, b) {
        (DlnaState::Idle, DlnaState::Idle) => true,
        (DlnaState::Scanning, DlnaState::Scanning) => true,
        (DlnaState::DevicesReady(x), DlnaState::DevicesReady(y)) => device_tuples(x@)
            == device_tuples(y@),
        (DlnaState::Connecting(x), DlnaState::Connecting(y)) => x.view_tuple() == y.view_tuple(),
        (
            DlnaState::Playing { device: ad, media_url: au, position: ap, is_paused: ai },
            DlnaState::Playing { device: bd, media_url: bu, position: bp, is_paused: bi },
        ) => ad.view_tuple() == bd.view_tuple() && au@ == bu@ && ap == bp && ai == bi,
        (DlnaState::Error(x), DlnaState::Error(y)) => dlna_message(x) == dlna_message(y),
        _ => false,
    }
}

fn same_devices(a: &Vec<DlnaDevice>, b: &Vec<DlnaDevice>) -> (res: bool)
    ensures
        res == (device_tuples(a@) == device_tuples(b@)),
{
    if a.len() != b.len() {
        assert(device_tuples(a@).len() != device_tuples(b@).len());
        return false;
    }
    let mut i: usize = 0;
    while i < a.len()
        invariant
            i <= a.len() == b.len(),
            forall|k: int| 0 <= k < i ==> a@[k].view_tuple() == b@[k].view_tuple(),
        decreases a.len() - i,
    {
        if !a[i].same_as(&b[i]) {
            assert(device_tuples(a@)[i as int] != device_tuples(b@)[i as int]);
            return false;
        }
        i += 1;
    }
    assert(device_tuples(a@) =~= device_tuples(b@));
    true
}

impl DlnaState {
    /// Whether two states count as the same (errors by their message).
    pub fn same_as(&self, other: &Self) -> (res: bool)
        ensures
            res == same_state(*self, *other),
    {
        match (self, other) {
            (DlnaState::Idle, DlnaState::Idle) => true,
            (DlnaState::Scanning, DlnaState::Scanning) => true,
            (DlnaState::DevicesReady(x), DlnaState::DevicesReady(y)) => same_devices(x, y),
            (DlnaState::Connecting(x), DlnaState::Connecting(y)) => x.same_as(y),
            (
                DlnaState::Playing { device: ad, media_url: au, position: ap, is_paused: ai },
                DlnaState::Playing { device: bd, media_url: bu, position: bp, is_paused: bi },
            ) => {
                let d = ad.same_as(bd);
                let u = *au == *bu;
                d && u && *ap == *bp && *ai == *bi
            },
            (DlnaState::Error(x), DlnaState::Error(y)) => {
                let mx = x.to_display_string();
                let my = y.to_display_string();
                let e = mx == my;
                e
            },
            _ => false,
        }
    }
}

/// What the user or a finished task asks of casting.
#[derive(Debug)]
pub enum DlnaMessage {
    ScanDevices,
    DevicesFound(Vec<DlnaDevice>),
    ScanError(String),
    SelectDevice(DlnaDevice),
    CastMedia { path: StrictPath, device: DlnaDevice },
    StopCast,
    Play,
    Pause,
    Stop,
    /// Move to a position, in seconds.
    Seek(u64),
    /// Set the volume, in percent.
    SetVolume(u8),
}

/// What the application is to do after a casting message.
#[derive(Debug)]
pub enum DlnaAction {
    Nothing,
    /// Look for renderers for `timeout_secs` seconds, then report
    /// `DevicesFound`, or `ScanError` with the message of what failed.
    Discover { timeout_secs: u64 },
    /// Show the dialog for choosing a device.
    ChooseDevice,
    /// Pause every local player, serve the file at `path`, connect to the
    /// renderer at `location` (giving up after `timeout_secs` seconds) and
    /// have it play the file; report `ScanError` with the message of what
    /// failed.
    Cast { path: StrictPath, location: String, timeout_secs: u64 },
}

/// The state and action after `msg` in state `state`.
pub open spec fn dlna_step_of(state: DlnaState, msg: DlnaMessage) -> (DlnaState, DlnaAction) {
    match msg {
        DlnaMessage::ScanDevices => (
            DlnaState::Scanning,
            DlnaAction::Discover { timeout_secs: DISCOVERY_TIMEOUT_SECS },
        ),
        DlnaMessage::DevicesFound(devices) => if devices@.len() == 0 {
            (DlnaState::Error(DlnaError::NoDevicesFound), DlnaAction::Nothing)
        } else {
            (DlnaState::DevicesReady(devices), DlnaAction::ChooseDevice)
        },
        DlnaMessage::ScanError(why) => (
            DlnaState::Error(DlnaError::Discovery(why)),
            DlnaAction::Nothing,
        ),
        DlnaMessage::SelectDevice(device) => (DlnaState::Connecting(device), DlnaAction::Nothing),
        DlnaMessage::CastMedia { path, device } => (
            DlnaState::Connecting(device),
            DlnaAction::Cast {
                path,
                location: device.location,
                timeout_secs: RENDERER_TIMEOUT_SECS,
            },
        ),
        DlnaMessage::StopCast => (DlnaState::Idle, DlnaAction::Nothing),
        _ => (state, DlnaAction::Nothing),
    }
}

/// Moves casting on by one message: the next state, and what to do.
pub fn dlna_step(state: DlnaState, msg: DlnaMessage) -> (res: (DlnaState, DlnaAction))
    ensures
        res == dlna_step_of(state, msg),
{
    match msg {
        DlnaMessage::ScanDevices => (
            DlnaState::Scanning,
            DlnaAction::Discover { timeout_secs: DISCOVERY_TIMEOUT_SECS },
        ),
        DlnaMessage::DevicesFound(devices) => {
            if devices.len() == 0 {
                (DlnaState::Error(DlnaError::NoDevicesFound), DlnaAction::Nothing)
            } else {
                (DlnaState::DevicesReady(devices), DlnaAction::ChooseDevice)
            }
        },
        DlnaMessage::ScanError(why) => (
            DlnaState::Error(DlnaError::Discovery(why)),
            DlnaAction::Nothing,
        ),
        DlnaMessage::SelectDevice(device) => (DlnaState::Connecting(device), DlnaAction::Nothing),
        DlnaMessage::CastMedia { path, device } => {
            let location = device.location.clone();
            (
                DlnaState::Connecting(device),
                DlnaAction::Cast { path, location, timeout_secs: RENDERER_TIMEOUT_SECS },
            )
        },
        DlnaMessage::StopCast => (DlnaState::Idle, DlnaAction::Nothing),
        _ => (state, DlnaAction::Nothing),
    }
}

/// The message that reports how discovery ended: the devices found, or a
/// failed scan with the error's message.
pub fn discovery_reported(result: Result<Vec<DlnaDevice>, DlnaError>) -> (res: DlnaMessage)
    ensures
        match result {
            Ok(devices) => res == DlnaMessage::DevicesFound(devices),
            Err(e) => res matches DlnaMessage::ScanError(why) && why@ == dlna_message(e),
        },
{
    match result {
        Ok(devices) => DlnaMessage::DevicesFound(devices),
        Err(e) => DlnaMessage::ScanError(e.to_display_string()),
    }
}

/// The message that reports how a cast ended: none where it started, else
/// a failed scan with the error's message.
pub fn cast_reported(result: Result<(), DlnaError>) -> (res: Option<DlnaMessage>)
    ensures
        match result {
            Ok(_) => res is None,
            Err(e) => res matches Some(DlnaMessage::ScanError(why)) && why@ == dlna_message(e),
        },
{
    match result {
        Ok(_) => None,
        Err(e) => Some(DlnaMessage::ScanError(e.to_display_string())),
    }
}

/// Commands for the renderer (play, pause, stop, seek, volume) change
/// nothing of what the application knows, and start nothing.
pub proof fn law_dlna_controls_keep_state(state: DlnaState, msg: DlnaMessage)
    requires
        msg is Play || msg is Pause || msg is Stop || msg is Seek || msg is SetVolume,
    ensures
        dlna_step_of(state, msg).0 == state,
        dlna_step_of(state, msg).1 is Nothing,
{
}

/// Stopping a cast always leaves nothing being cast, whatever came before.
pub proof fn law_dlna_stop_cast_idles(state: DlnaState)
    ensures
        dlna_step_of(state, DlnaMessage::StopCast).0 is Idle,
        dlna_step_of(state, DlnaMessage::StopCast).1 is Nothing,
{
}

/// A new error comes only from a failed scan or from a scan that found no
/// device; any other message that ends in an error found one already.
pub proof fn law_dlna_errors_come_from_scans(state: DlnaState, msg: DlnaMessage)
    requires
        dlna_step_of(state, msg).0 is Error,
    ensures
        msg is ScanError || (msg matches DlnaMessage::DevicesFound(d) && d@.len() == 0)
            || (state is Error && dlna_step_of(state, msg).0 == state),
{
}

} // verus!
