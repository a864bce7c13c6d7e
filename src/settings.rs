//! Pages of the interface and the session settings edited on one of them.
use crate::session::{SessionConfig, SessionVideoConfig, VideoCodec};
use crate::session_manager::DeviceId;
use vstd::prelude::*;

verus! {

/// The page on display.
#[derive(Debug, Clone, Copy, PartialEq, Eq, Structural)]
pub enum CurrentPage {
    Home,
    Settings,
}

/// The name a page is shown under.
pub open spec fn page_name(p: CurrentPage) -> Seq<char> {
    match p {
        CurrentPage::Home => "home"@,
        CurrentPage::Settings => "settings"@,
    }
}

impl CurrentPage {
    /// The name the page is shown under.
    pub fn name(&self) -> (r: &'static str)
        ensures
            r@ == page_name(*self),
    {
        proof {
            reveal_strlit("home");
            reveal_strlit("settings");
        }
        match self {
            CurrentPage::Home => "home",
            CurrentPage::Settings => "settings",
        }
    }
}

/// The home page: device list and log.
#[derive(Debug, Default)]
pub struct HomePage;

impl HomePage {
    pub fn new() -> (r: Self) {
        HomePage
    }
}

/// The page where session settings are edited.
#[derive(Debug)]
pub struct SettingsPage;

impl SettingsPage {
    pub fn new() -> (r: Self) {
        SettingsPage
    }
}

/// Settings that new sessions are started with.
#[derive(Debug, Clone, Copy, PartialEq, Eq, Structural)]
pub struct SessionSettings {
    pub control_enabled: bool,
    pub audio_enabled: bool,
    pub video_enabled: bool,
    pub codec: VideoCodec,
    pub bitrate_mbps: u32,
    /// Frame rate cap, `0` for none.
    pub max_fps: u32,
    /// Cap on the larger frame dimension, `0` for none.
    pub limit_resolution: u32,
    pub hw_decoder: bool,
}

/// Largest bit rate, in Mbit/s, whose bits per second fit a signed 32-bit integer.
pub const MAX_BITRATE_MBPS: u32 = 2147;

impl Default for SessionSettings {
    fn default() -> (r: Self)
        ensures
            r == (SessionSettings {
                control_enabled: false,
                audio_enabled: false,
                video_enabled: true,
                codec: VideoCodec::H264,
                bitrate_mbps: 8,
                max_fps: 0,
                limit_resolution: 0,
                hw_decoder: false,
            }),
    {
        SessionSettings {
            control_enabled: false,
            audio_enabled: false,
            video_enabled: true,
            codec: VideoCodec::H264,
            bitrate_mbps: 8,
            max_fps: 0,
            limit_resolution: 0,
            hw_decoder: false,
        }
    }
}

impl SessionSettings {
    /// The session request these settings make for `device_id`: each sub-stream
    /// as enabled, and for video the codec, the resolution cap, the bit rate in
    /// bits per second and the frame rate cap.
    pub fn to_config(&self, device_id: DeviceId) -> (r: SessionConfig)
        requires
            self.bitrate_mbps <= MAX_BITRATE_MBPS,
            self.limit_resolution <= i32::MAX,
        ensures
            r.device_id@ == device_id@,
            r.control is Some == self.control_enabled,
            r.audio is Some == self.audio_enabled,
            r.video is Some == self.video_enabled,
            self.video_enabled ==> r.video == Some(
                SessionVideoConfig {
                    codec: self.codec,
                    width: self.limit_resolution as i32,
                    bitrate: (self.bitrate_mbps * 1_000_000) as i32,
                    max_fps: self.max_fps,
                    hw_decoder: self.hw_decoder,
                },
            ),
    {
        let video = if self.video_enabled {
            Some(
                SessionVideoConfig {
                    codec: self.codec,
                    width: self.limit_resolution as i32,
                    bitrate: (self.bitrate_mbps * 1_000_000) as i32,
                    max_fps: self.max_fps,
                    hw_decoder: self.hw_decoder,
                },
            )
        } else {
            None
        };
        SessionConfig {
            device_id,
            control: if self.control_enabled {
                Some(())
            } else {
                None
            },
            audio: if self.audio_enabled {
                Some(())
            } else {
                None
            },
            video,
        }
    }
}

} // verus!
