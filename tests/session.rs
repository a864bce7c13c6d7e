use octane::session::{
    session_exit, video_plan, CodecId, SessionCommand, SessionConfig, SessionEnd,
    SessionVideoConfig, VideoCodec, VideoPlan,
};
use octane::settings::{CurrentPage, HomePage, SessionSettings, SettingsPage};

fn video() -> SessionVideoConfig {
    SessionVideoConfig { codec: VideoCodec::H265, width: 1080, bitrate: 8_000_000, max_fps: 60, hw_decoder: true }
}

#[test]
fn stream_options_follow_request() {
    let config = SessionConfig { device_id: "d".to_string(), control: Some(()), audio: None, video: Some(video()) };
    let o = config.stream_options();
    assert!(o.control && !o.audio && o.video);
    assert_eq!(o.video_codec, Some(VideoCodec::H265));
    assert_eq!(o.max_size, Some(1080));
    assert_eq!(o.video_bit_rate, Some(8_000_000));
    assert_eq!(o.max_fps, Some(60));
    let s = config.streams();
    assert!(s.control.is_some() && s.audio.is_none() && s.video.is_some());
}

#[test]
fn no_video_means_no_video_options() {
    let config = SessionConfig { device_id: "d".to_string(), control: None, audio: Some(()), video: None };
    let o = config.stream_options();
    assert!(!o.control && o.audio && !o.video);
    assert_eq!(o.video_codec, None);
    assert_eq!(o.max_fps, None);
}

#[test]
fn video_plan_pairs_request_and_grant() {
    assert_eq!(video_plan(None, None), None);
    assert_eq!(
        video_plan(Some(video()), Some((720, 1600))),
        Some(VideoPlan { codec: CodecId::H265, width: 720, height: 1600, hw_decoder: true })
    );
    assert_eq!(VideoCodec::AV1.codec_id(), CodecId::AV1);
}

#[test]
fn session_exit_results() {
    let end: SessionEnd<String> = SessionEnd::ConsumersEnded(vec![Ok(()), Err("a".to_string()), Err("b".to_string())]);
    assert_eq!(session_exit(end), Some("a".to_string()));
    let end: SessionEnd<String> = SessionEnd::RemoteEnded(vec![Ok(()), Ok(())]);
    assert_eq!(session_exit(end), None);
    let end: SessionEnd<String> = SessionEnd::RemoteEnded(vec![Err("gone".to_string())]);
    assert_eq!(session_exit(end), Some("gone".to_string()));
    let end: SessionEnd<String> = SessionEnd::Command(Some(SessionCommand::Exit));
    assert_eq!(session_exit(end), None);
    let end: SessionEnd<String> = SessionEnd::Command(None);
    assert_eq!(session_exit(end), None);
}

#[test]
fn settings_to_config() {
    let mut s = SessionSettings::default();
    assert!(s.video_enabled && !s.control_enabled && s.bitrate_mbps == 8);
    s.control_enabled = true;
    s.max_fps = 30;
    s.limit_resolution = 1920;
    let c = s.to_config("dev".to_string());
    assert_eq!(c.device_id, "dev");
    assert!(c.control.is_some());
    assert!(c.audio.is_none());
    assert_eq!(
        c.video,
        Some(SessionVideoConfig { codec: VideoCodec::H264, width: 1920, bitrate: 8_000_000, max_fps: 30, hw_decoder: false })
    );
    s.video_enabled = false;
    assert!(s.to_config("dev".to_string()).video.is_none());
}

#[test]
fn pages() {
    assert_eq!(CurrentPage::Home.name(), "home");
    assert_eq!(CurrentPage::Settings.name(), "settings");
    let _ = HomePage::new();
    let _ = SettingsPage::new();
}
