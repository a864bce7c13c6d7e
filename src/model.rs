//! The interface's state and its update rule: each message from the interface
//! or from a worker changes the state and yields the effects the shell performs.
use crate::adb::AdbError;
use crate::async_state::{AsyncResult, AsyncState, Ticket};
use crate::logs::LogStore;
use crate::plural;
use crate::session::{SessionConfig, SessionStreams};
use crate::session_manager::{DeviceId, SessionRegistry};
use crate::settings::{page_name, CurrentPage};
use vstd::prelude::*;
use vstd::string::StringExecFns;

verus! {

/// Level of a log line sent to the shell.
#[derive(Debug, Clone, Copy, PartialEq, Eq, Structural)]
pub enum LogLevel {
    Trace,
    Info,
    Error,
}

/// What the shell is asked to do.
#[derive(Debug)]
pub enum Effect {
    /// Repaint the interface.
    Render,
    /// Log a line to the console.
    Log { level: LogLevel, msg: String },
    /// Fetch the device list; the result must carry `ticket`.
    FetchAdbDevices { ticket: Ticket },
    /// Start a session.
    StartSession { config: SessionConfig },
    /// Stop the session of a device.
    StopSession { device_id: DeviceId },
}

/// Inputs to the interface state: interface events, then worker events.
pub enum Msg<D> {
    Navigate(CurrentPage),
    RequestAdbDevices,
    RequestStartSession(SessionConfig),
    RequestStopSession(DeviceId),
    ClearLogs,
    AdbDevicesLoaded(AsyncResult<Vec<D>, AdbError>),
    SessionStarted { device_id: DeviceId, streams: SessionStreams },
    SessionStopped { device_id: DeviceId, error: Option<String> },
}

/// The name of a message's variant.
pub open spec fn msg_name<D>(m: Msg<D>) -> Seq<char> {
    match m {
        Msg::Navigate(_) => "Navigate"@,
        Msg::RequestAdbDevices => "RequestAdbDevices"@,
        Msg::RequestStartSession(_) => "RequestStartSession"@,
        Msg::RequestStopSession(_) => "RequestStopSession"@,
        Msg::ClearLogs => "ClearLogs"@,
        Msg::AdbDevicesLoaded(_) => "AdbDevicesLoaded"@,
        Msg::SessionStarted { .. } => "SessionStarted"@,
        Msg::SessionStopped { .. } => "SessionStopped"@,
    }
}

impl<D> Msg<D> {
    /// The name of the message's variant, for logs.
    pub fn name(&self) -> (r: &'static str)
        ensures
            r@ == msg_name(*self),
    {
        proof {
            reveal_strlit("Navigate");
            reveal_strlit("RequestAdbDevices");
            reveal_strlit("RequestStartSession");
            reveal_strlit("RequestStopSession");
            reveal_strlit("ClearLogs");
            reveal_strlit("AdbDevicesLoaded");
            reveal_strlit("SessionStarted");
            reveal_strlit("SessionStopped");
        }
        match self {
            Msg::Navigate(_) => "Navigate",
            Msg::RequestAdbDevices => "RequestAdbDevices",
            Msg::RequestStartSession(_) => "RequestStartSession",
            Msg::RequestStopSession(_) => "RequestStopSession",
            Msg::ClearLogs => "ClearLogs",
            Msg::AdbDevicesLoaded(_) => "AdbDevicesLoaded",
            Msg::SessionStarted { .. } => "SessionStarted",
            Msg::SessionStopped { .. } => "SessionStopped",
        }
    }
}

/// Most log entries kept.
pub const LOG_CAPACITY: usize = 1000;

/// The level a load report is logged at.
pub open spec fn load_level<T, E>(r: Result<T, E>) -> crate::logs::LogLevel {
    if r is Ok {
        crate::logs::LogLevel::Success
    } else {
        crate::logs::LogLevel::Error
    }
}

/// The log line of a page change.
pub open spec fn navigate_text(p: CurrentPage) -> Seq<char> {
    "Navigating to page \""@ + page_name(p) + "\""@
}

/// The log line of a started session, naming its sub-streams.
pub open spec fn started_text(id: Seq<char>, s: SessionStreams) -> Seq<char> {
    "Session \""@ + id + "\" started: "@ + (if s.control is Some { " control"@ } else { ""@ }) + (
    if s.audio is Some {
        " audio"@
    } else {
        ""@
    }) + (if s.video is Some { " video"@ } else { ""@ })
}

/// The log line of a session that ended with an error.
pub open spec fn stopped_error_text(id: Seq<char>, err: Seq<char>) -> Seq<char> {
    "Session \""@ + id + "\" stopped with error: "@ + err
}

/// The log line of a session that ended cleanly.
pub open spec fn ended_text(id: Seq<char>) -> Seq<char> {
    "Session \""@ + id + "\" ended."@
}

/// The interface state.
pub struct Model<D> {
    pub current_page: CurrentPage,
    /// The device list, loaded with tickets.
    pub adb_devices: AsyncState<Vec<D>, AdbError>,
    /// Sub-streams of each live session, by device.
    pub sessions: SessionRegistry<SessionStreams>,
    pub logs: LogStore,
}

fn device_summary<D>(v: &Vec<D>) -> (r: String) {
    let n = v.len();
    n.to_string().concat(" ").concat(plural(n, "device", "devices"))
}

impl<D> Model<D> {
    /// The state at start: home page, nothing loaded, no session, empty log.
    pub fn new() -> (m: Self)
        ensures
            m.current_page == CurrentPage::Home,
            m.adb_devices.state() is Idle,
            m.adb_devices.ticket() is None,
            m.sessions.view().len() == 0,
            m.logs.view().len() == 0,
            m.logs.capacity_spec() == LOG_CAPACITY,
    {
        let m = Model {
            current_page: CurrentPage::Home,
            adb_devices: AsyncState::new(),
            sessions: SessionRegistry::new(),
            logs: LogStore::new(LOG_CAPACITY),
        };
        assert(m.sessions.view().dom() =~= Set::<Seq<char>>::empty());
        m
    }

    /// Applies a message and returns the effects to perform, in order.
    pub fn update(&mut self, msg: Msg<D>) -> (effects: Vec<Effect>)
        ensures
            final(self).logs.capacity_spec() == old(self).logs.capacity_spec(),
            match msg {
                Msg::Navigate(p) => {
                    &&& final(self).current_page == p
                    &&& final(self).logs.view() == crate::logs::pushed(
                        old(self).logs.view(),
                        old(self).logs.capacity_spec(),
                        navigate_text(p),
                        crate::logs::LogLevel::Info,
                    )
                    &&& final(self).adb_devices == old(self).adb_devices
                    &&& final(self).sessions.view() == old(self).sessions.view()
                    &&& effects@.len() == 1 && effects@[0] is Render
                },
                Msg::RequestAdbDevices => {
                    &&& effects@.len() == 1
                    &&& effects@[0] matches Effect::FetchAdbDevices { ticket } && AsyncState::started(
                        old(self).adb_devices,
                        final(self).adb_devices,
                        ticket,
                    )
                    &&& final(self).current_page == old(self).current_page
                    &&& final(self).logs.view() == old(self).logs.view()
                    &&& final(self).sessions.view() == old(self).sessions.view()
                },
                Msg::AdbDevicesLoaded(result) => {
                    &&& AsyncState::accepted(old(self).adb_devices, final(self).adb_devices, result)
                    &&& old(self).adb_devices.ticket() != Some(result.ticket) ==> final(self).logs.view()
                        == old(self).logs.view()
                    &&& old(self).adb_devices.ticket() == Some(result.ticket) ==> exists|m: Seq<char>|
                        final(self).logs.view() == #[trigger] crate::logs::pushed(
                            old(self).logs.view(),
                            old(self).logs.capacity_spec(),
                            m,
                            load_level(result.result),
                        )
                    &&& final(self).current_page == old(self).current_page
                    &&& final(self).sessions.view() == old(self).sessions.view()
                    &&& effects@.len() == 1 && effects@[0] is Render
                },
                Msg::RequestStartSession(config) => {
                    &&& effects@.len() == 1
                    &&& effects@[0] == Effect::StartSession { config }
                    &&& final(self).current_page == old(self).current_page
                    &&& final(self).adb_devices == old(self).adb_devices
                    &&& final(self).logs.view() == old(self).logs.view()
                    &&& final(self).sessions.view() == old(self).sessions.view()
                },
                Msg::SessionStarted { device_id, streams } => {
                    &&& final(self).sessions.view() == old(self).sessions.view().insert(device_id@, streams)
                    &&& final(self).logs.view() == crate::logs::pushed(
                        old(self).logs.view(),
                        old(self).logs.capacity_spec(),
                        started_text(device_id@, streams),
                        crate::logs::LogLevel::Success,
                    )
                    &&& final(self).current_page == old(self).current_page
                    &&& final(self).adb_devices == old(self).adb_devices
                    &&& effects@.len() == 1 && effects@[0] is Render
                },
                Msg::RequestStopSession(device_id) => {
                    &&& old(self).sessions.view().contains_key(device_id@) ==> {
                        &&& effects@.len() == 2
                        &&& effects@[0] matches Effect::StopSession { device_id: id } && id@ == device_id@
                        &&& effects@[1] is Render
                    }
                    &&& !old(self).sessions.view().contains_key(device_id@) ==> effects@.len() == 1
                        && effects@[0] is Render
                    &&& final(self).current_page == old(self).current_page
                    &&& final(self).adb_devices == old(self).adb_devices
                    &&& final(self).logs.view() == old(self).logs.view()
                    &&& final(self).sessions.view() == old(self).sessions.view()
                },
                Msg::SessionStopped { device_id, error } => {
                    &&& final(self).sessions.view() == old(self).sessions.view().remove(device_id@)
                    &&& error matches Some(e) ==> final(self).logs.view() == crate::logs::pushed(
                        old(self).logs.view(),
                        old(self).logs.capacity_spec(),
                        stopped_error_text(device_id@, e@),
                        crate::logs::LogLevel::Error,
                    )
                    &&& error is None ==> final(self).logs.view() == crate::logs::pushed(
                        old(self).logs.view(),
                        old(self).logs.capacity_spec(),
                        ended_text(device_id@),
                        crate::logs::LogLevel::Info,
                    )
                    &&& final(self).current_page == old(self).current_page
                    &&& final(self).adb_devices == old(self).adb_devices
                    &&& effects@.len() == 1 && effects@[0] is Render
                },
                Msg::ClearLogs => {
                    &&& final(self).logs.view().len() == 0
                    &&& final(self).current_page == old(self).current_page
                    &&& final(self).adb_devices == old(self).adb_devices
                    &&& final(self).sessions.view() == old(self).sessions.view()
                    &&& effects@.len() == 1 && effects@[0] is Render
                },
            },
    {
        let mut effects: Vec<Effect> = Vec::new();
        match msg {
            Msg::Navigate(page) => {
                let text = String::from_str("Navigating to page \"").concat(page.name()).concat("\"");
                proof {
                    reveal_strlit("Navigating to page \"");
                    reveal_strlit("\"");
                }
                self.logs.info(text);
                self.current_page = page;
                effects.push(Effect::Render);
            },
            Msg::RequestAdbDevices => {
                let ticket = self.adb_devices.start_load();
                effects.push(Effect::FetchAdbDevices { ticket });
            },
            Msg::AdbDevicesLoaded(result) => {
                let trace = self.adb_devices.apply_trace(result, "ADB devices loaded", device_summary);
                self.logs.trace(trace);
                effects.push(Effect::Render);
            },
            Msg::RequestStartSession(config) => {
                effects.push(Effect::StartSession { config });
            },
            Msg::SessionStarted { device_id, streams } => {
                let mut text = String::from_str("Session \"").concat(device_id.as_str()).concat(
                    "\" started: ",
                );
                if streams.control.is_some() {
                    text = text.concat(" control");
                } else {
                    text = text.concat("");
                }
                if streams.audio.is_some() {
                    text = text.concat(" audio");
                } else {
                    text = text.concat("");
                }
                if streams.video.is_some() {
                    text = text.concat(" video");
                } else {
                    text = text.concat("");
                }
                proof {
                    reveal_strlit("Session \"");
                    reveal_strlit("\" started: ");
                    reveal_strlit(" control");
                    reveal_strlit(" audio");
                    reveal_strlit(" video");
                    reveal_strlit("");
                }
                self.sessions.put(device_id, streams);
                self.logs.success(text);
                effects.push(Effect::Render);
            },
            Msg::RequestStopSession(device_id) => {
                if self.sessions.get(&device_id).is_some() {
                    effects.push(Effect::StopSession { device_id });
                }
                effects.push(Effect::Render);
            },
            Msg::SessionStopped { device_id, error } => {
                let _ = self.sessions.remove(&device_id);
                let prefix = String::from_str("Session \"").concat(device_id.as_str());
                proof {
                    reveal_strlit("Session \"");
                    reveal_strlit("\" stopped with error: ");
                    reveal_strlit("\" ended.");
                }
                match error {
                    Some(err) => {
                        self.logs.error(prefix.concat("\" stopped with error: ").concat(err.as_str()));
                    },
                    None => {
                        self.logs.info(prefix.concat("\" ended."));
                    },
                }
                effects.push(Effect::Render);
            },
            Msg::ClearLogs => {
                self.logs.clear();
                effects.push(Effect::Render);
            },
        }
        effects
    }
}

} // verus!
