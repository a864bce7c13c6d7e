use octane::hw::{all_global, all_indexable, is_available, HWDeviceIndex, HWDeviceKind, HWDevicePool};
use octane::stream_decoder::{
    after_submit, decoder_setup, drain_step, new_packet, DecoderSetup, DrainStep, FrameMetadata,
    PacketAction, PacketHeader, PacketType, PullOutcome,
};

#[test]
fn packets_are_tagged() {
    let data = [0u8; 4];
    let key = new_packet(&FrameMetadata { packet: PacketType::KeyFrame(42), size: 4 }, &data);
    assert_eq!(key, PacketHeader { key: true, pts: Some(42), dts: Some(42) });
    let reg = new_packet(&FrameMetadata { packet: PacketType::Regular(7), size: 4 }, &data);
    assert_eq!(reg, PacketHeader { key: false, pts: Some(7), dts: Some(7) });
    let cfg = new_packet(&FrameMetadata { packet: PacketType::Config, size: 4 }, &data);
    assert_eq!(cfg, PacketHeader { key: false, pts: None, dts: None });
}

#[test]
fn steps_after_submission() {
    assert_eq!(after_submit(PacketType::Config, true), PacketAction::Continue);
    assert_eq!(after_submit(PacketType::Regular(1), true), PacketAction::PullFrame);
    assert_eq!(after_submit(PacketType::KeyFrame(1), false), PacketAction::LogAndContinue);
    assert_eq!(decoder_setup(false, false), DecoderSetup::Software);
    assert_eq!(decoder_setup(true, true), DecoderSetup::Hardware);
    assert_eq!(decoder_setup(true, false), DecoderSetup::NoDevice);
}

#[test]
fn device_kinds_split() {
    let all = vec![HWDeviceKind::Vdpau, HWDeviceKind::Cuda, HWDeviceKind::Vaapi, HWDeviceKind::Drm, HWDeviceKind::OpenCl, HWDeviceKind::Vulkan];
    assert_eq!(all_indexable(&all), vec![HWDeviceKind::Cuda, HWDeviceKind::Vaapi, HWDeviceKind::Drm, HWDeviceKind::Vulkan]);
    assert_eq!(all_global(&all), vec![HWDeviceKind::Vdpau, HWDeviceKind::OpenCl]);
    assert!(is_available(&all, HWDeviceKind::Vulkan));
    assert!(!is_available(&all, HWDeviceKind::Qsv));
    assert_eq!(HWDeviceIndex::from(3u8), HWDeviceIndex::Index(3));
}

#[test]
fn pool_probing_stops_at_first_empty_interface() {
    let mut pool: HWDevicePool<&str> = HWDevicePool::new(vec![(HWDeviceKind::OpenCl, "g-opencl")]);
    assert_eq!(pool.next_probe(), Some(0));
    pool.add_interface(vec![(HWDeviceKind::Cuda, "cuda0")]);
    assert_eq!(pool.next_probe(), Some(1));
    pool.add_interface(vec![]);
    assert_eq!(pool.next_probe(), None);
    assert_eq!(pool.first(HWDeviceKind::Cuda), Some(&"cuda0"));
    assert_eq!(pool.first(HWDeviceKind::OpenCl), Some(&"g-opencl"));
    assert_eq!(pool.first(HWDeviceKind::Vulkan), None);
}

#[test]
fn pool_prefers_global_then_lowest_interface() {
    let mut pool: HWDevicePool<u32> = HWDevicePool::new(vec![(HWDeviceKind::Vulkan, 100)]);
    pool.add_interface(vec![(HWDeviceKind::Vulkan, 0), (HWDeviceKind::Drm, 1)]);
    pool.add_interface(vec![(HWDeviceKind::Drm, 2)]);
    assert_eq!(pool.first(HWDeviceKind::Vulkan), Some(&100));
    assert_eq!(pool.first(HWDeviceKind::Drm), Some(&1));
    pool.add_interface(vec![(HWDeviceKind::Cuda, 3)]);
    pool.add_interface(vec![(HWDeviceKind::Cuda, 4)]);
    assert_eq!(pool.next_probe(), None);
}

#[test]
fn drain_steps() {
    assert_eq!(drain_step(PullOutcome::Frame), DrainStep::Deliver);
    assert_eq!(drain_step(PullOutcome::EndOfStream), DrainStep::Stop);
    assert_eq!(drain_step(PullOutcome::Exit), DrainStep::Stop);
    assert_eq!(drain_step(PullOutcome::Errno(11)), DrainStep::Stop);
    assert_eq!(drain_step(PullOutcome::Failure), DrainStep::Fail);
}
