use cam_provider::delivery::Sample;
use cam_provider::format::ReportedFormat;
use cam_provider::pipeline::decimal_string;
use cam_provider::pipeline::launch_description;
use cam_provider::session::Command;
use cam_provider::session::PipelineState;
use cam_provider::session::SessionError;
use cam_provider::session::SessionState;
use cam_provider::CamProvider;
use cam_provider::TextureFormat;

fn started(name: &str, resolution: (usize, usize)) -> CamProvider {
    let mut provider = CamProvider::new("/dev/video0", name.to_string(), resolution);
    assert_eq!(provider.start(true), Ok(()));
    provider
}

#[test]
fn decimal_strings() {
    assert_eq!(decimal_string(0), "0");
    assert_eq!(decimal_string(7), "7");
    assert_eq!(decimal_string(10), "10");
    assert_eq!(decimal_string(640), "640");
    assert_eq!(decimal_string(1234567890), "1234567890");
    assert_eq!(decimal_string(usize::MAX), format!("{}", usize::MAX));
}

#[test]
fn launch_description_for_a_named_device() {
    assert_eq!(
        launch_description(true, "/dev/video2", (640, 480)),
        "v4l2src device=/dev/video2 ! videoconvert ! videoscale ! video/x-raw,format=RGB,format=RGBA,format=BGR,format=BGRA,width=640,height=480 ! videoflip method=vertical-flip ! appsink name=appsink async=true sync=false"
    );
}

#[test]
fn launch_description_without_device_names() {
    assert_eq!(
        launch_description(false, "/dev/video2", (1920, 1080)),
        "autovideosrc ! videoconvert ! videoscale ! video/x-raw,format=RGB,format=RGBA,format=BGR,format=BGRA,width=1920,height=1080 ! videoflip method=vertical-flip ! appsink name=appsink async=true sync=false"
    );
}

#[test]
fn provider_describes_its_own_pipeline() {
    let provider = CamProvider::new("/dev/video1", "cam".to_string(), (320, 240));
    assert_eq!(
        provider.launch_description(true),
        launch_description(true, "/dev/video1", (320, 240))
    );
    assert_eq!(
        provider.launch_description(false),
        launch_description(false, "/dev/video1", (320, 240))
    );
}

#[test]
fn requests_per_state() {
    let all = [Command::Play, Command::Pause, Command::Stop];
    for command in all {
        assert_eq!(SessionState::Uninitialized.request(command), None);
    }
    for state in [SessionState::Playing, SessionState::Paused] {
        assert_eq!(state.request(Command::Play), Some(PipelineState::Playing));
        assert_eq!(state.request(Command::Pause), Some(PipelineState::Paused));
        assert_eq!(state.request(Command::Stop), Some(PipelineState::Null));
    }
    assert_eq!(SessionState::Stopped.request(Command::Play), None);
    assert_eq!(SessionState::Stopped.request(Command::Pause), None);
    assert_eq!(SessionState::Stopped.request(Command::Stop), Some(PipelineState::Null));
}

#[test]
fn settle_per_state() {
    let err = Err(SessionError::StateTransitionError);
    assert_eq!(SessionState::Playing.settle(Command::Pause, true), Ok(SessionState::Paused));
    assert_eq!(SessionState::Playing.settle(Command::Play, true), Ok(SessionState::Playing));
    assert_eq!(SessionState::Playing.settle(Command::Stop, true), Ok(SessionState::Stopped));
    assert_eq!(SessionState::Paused.settle(Command::Play, true), Ok(SessionState::Playing));
    assert_eq!(SessionState::Paused.settle(Command::Pause, true), Ok(SessionState::Paused));
    assert_eq!(SessionState::Paused.settle(Command::Stop, true), Ok(SessionState::Stopped));
    assert_eq!(SessionState::Stopped.settle(Command::Stop, true), Ok(SessionState::Stopped));
    assert_eq!(SessionState::Stopped.settle(Command::Play, true), err);
    assert_eq!(SessionState::Stopped.settle(Command::Pause, true), err);
    assert_eq!(SessionState::Uninitialized.settle(Command::Play, true), err);
    assert_eq!(SessionState::Uninitialized.settle(Command::Stop, true), err);
    assert_eq!(SessionState::Playing.settle(Command::Pause, false), err);
    assert_eq!(SessionState::Paused.settle(Command::Stop, false), err);
}

#[test]
fn start_only_from_a_fresh_session() {
    let err = Err(SessionError::PipelineInitError);
    assert_eq!(SessionState::Uninitialized.start(true), Ok(SessionState::Playing));
    assert_eq!(SessionState::Uninitialized.start(false), err);
    assert_eq!(SessionState::Playing.start(true), err);
    assert_eq!(SessionState::Paused.start(true), err);
    assert_eq!(SessionState::Stopped.start(true), err);
}

#[test]
fn provider_starts_out_uninitialized() {
    let mut provider = CamProvider::new("/dev/video0", "cam".to_string(), (640, 480));
    assert_eq!(provider.state(), SessionState::Uninitialized);
    assert_eq!(provider.request(Command::Play), None);
    assert_eq!(provider.play(true), Err(SessionError::StateTransitionError));
    assert_eq!(provider.start(false), Err(SessionError::PipelineInitError));
    assert_eq!(provider.state(), SessionState::Uninitialized);
    assert_eq!(provider.start(true), Ok(()));
    assert_eq!(provider.state(), SessionState::Playing);
    assert_eq!(provider.start(true), Err(SessionError::PipelineInitError));
    assert_eq!(provider.state(), SessionState::Playing);
}

#[test]
fn provider_pauses_and_resumes() {
    let mut provider = started("cam", (640, 480));
    assert_eq!(provider.request(Command::Pause), Some(PipelineState::Paused));
    assert_eq!(provider.pause(true), Ok(()));
    assert_eq!(provider.state(), SessionState::Paused);
    assert_eq!(provider.pause(true), Ok(()));
    assert_eq!(provider.state(), SessionState::Paused);
    assert_eq!(provider.play(false), Err(SessionError::StateTransitionError));
    assert_eq!(provider.state(), SessionState::Paused);
    assert_eq!(provider.play(true), Ok(()));
    assert_eq!(provider.state(), SessionState::Playing);
    assert_eq!(provider.settle(Command::Pause, true), Ok(()));
    assert_eq!(provider.state(), SessionState::Paused);
}

#[test]
fn stopped_provider_is_not_revived() {
    let mut provider = started("cam", (2, 1));
    let feed = provider.video_buffer();
    assert_eq!(provider.stop(false), Err(SessionError::StateTransitionError));
    assert_eq!(provider.state(), SessionState::Playing);
    assert_eq!(provider.stop(true), Ok(()));
    assert_eq!(provider.state(), SessionState::Stopped);
    for value in 0..4u8 {
        let sample = Sample::Raw {
            format: ReportedFormat::Rgb,
            width: 2,
            height: 1,
            samples: vec![value; 6],
        };
        assert_eq!(feed.deliver(sample), Ok(()));
        assert_eq!(provider.state(), SessionState::Stopped);
    }
    assert_eq!(provider.request(Command::Play), None);
    assert_eq!(provider.play(true), Err(SessionError::StateTransitionError));
    assert_eq!(provider.pause(true), Err(SessionError::StateTransitionError));
    assert_eq!(provider.start(true), Err(SessionError::PipelineInitError));
    assert_eq!(provider.state(), SessionState::Stopped);
    assert_eq!(provider.request(Command::Stop), Some(PipelineState::Null));
    assert_eq!(provider.stop(true), Ok(()));
    assert_eq!(provider.state(), SessionState::Stopped);
    assert_eq!(provider.get("cam", true).unwrap().data(), &vec![3u8; 6]);
}

#[test]
fn provider_answers_to_its_name_only() {
    let provider = started("cam", (1, 1));
    let feed = provider.video_buffer();
    assert!(feed.write(cam_provider::frame::Frame::new(1, 1, vec![1, 2, 3]).unwrap()));
    assert!(provider.get("other", true).is_none());
    assert!(provider.get("", true).is_none());
    assert!(provider.get("cam ", true).is_none());
    assert!(provider.get("Cam", false).is_none());
    assert_eq!(provider.get("cam", false).unwrap().data(), &vec![1u8, 2, 3]);
}

#[test]
fn provider_can_be_renamed() {
    let mut provider = started("cam", (1, 1));
    assert_eq!(provider.provides(), vec!["cam".to_string()]);
    let feed = provider.video_buffer();
    assert!(feed.write(cam_provider::frame::Frame::new(1, 1, vec![1, 2, 3]).unwrap()));
    provider.set_name("front");
    assert_eq!(provider.provides(), vec!["front".to_string()]);
    assert!(provider.get("cam", true).is_none());
    assert_eq!(provider.get("front", true).unwrap().data(), &vec![1u8, 2, 3]);
    assert_eq!(provider.state(), SessionState::Playing);
}

#[test]
fn provider_has_no_properties() {
    let mut provider = started("cam", (1, 1));
    assert!(!provider.set_property("exposure"));
    assert_eq!(provider.provides(), vec!["cam".to_string()]);
    assert_eq!(provider.state(), SessionState::Playing);
}

#[test]
fn red_rgba_frame_end_to_end() {
    let provider = started("cam", (640, 480));
    let feed = provider.video_buffer();
    assert!(provider.get("cam", true).is_none());
    let mut samples = Vec::with_capacity(640 * 480 * 4);
    for _ in 0..640 * 480 {
        samples.push(255);
        samples.push(0);
        samples.push(0);
        samples.push(255);
    }
    let sample = Sample::Raw { format: ReportedFormat::Rgba, width: 640, height: 480, samples };
    assert_eq!(feed.deliver(sample), Ok(()));
    let frame = provider.get("cam", true).unwrap();
    assert_eq!((frame.width(), frame.height()), (640, 480));
    assert_eq!(frame.data().len(), 640 * 480 * 3);
    for pixel in frame.data().chunks(3) {
        assert_eq!(pixel, &[255u8, 0, 0]);
    }
    assert!(provider.get("cam", true).is_none());
}

#[test]
fn texture_format_is_exported_at_the_root() {
    assert_eq!(TextureFormat::RGBAU8, cam_provider::format::TextureFormat::RGBAU8);
}
