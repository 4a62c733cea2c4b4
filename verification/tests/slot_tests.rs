use cam_provider::delivery::flow;
use cam_provider::delivery::prepare;
use cam_provider::delivery::Dropped;
use cam_provider::delivery::Flow;
use cam_provider::delivery::Sample;
use cam_provider::format::ReportedFormat;
use cam_provider::frame::Frame;
use cam_provider::frame::FrameSlot;
use cam_provider::shared::SharedSlot;

fn solid(width: u32, height: u32, value: u8) -> Frame {
    Frame::new(width, height, vec![value; (width * height * 3) as usize]).unwrap()
}

fn raw(format: ReportedFormat, width: u32, height: u32, samples: Vec<u8>) -> Sample {
    Sample::Raw { format, width, height, samples }
}

#[test]
fn new_slot_is_empty_and_keeps_its_size() {
    let mut slot = FrameSlot::new((640, 480));
    assert!(slot.is_empty());
    assert_eq!(slot.dimensions(), (640, 480, 3));
    assert!(slot.read(false).is_none());
    assert!(slot.read(true).is_none());
    assert_eq!(slot.dimensions(), (640, 480, 3));
}

#[test]
fn write_then_read_gives_the_frame() {
    let mut slot = FrameSlot::new((4, 4));
    slot.write(Frame::new(2, 1, vec![1, 2, 3, 4, 5, 6]).unwrap());
    assert!(!slot.is_empty());
    assert_eq!(slot.dimensions(), (2, 1, 3));
    let frame = slot.read(false).unwrap();
    assert_eq!(frame.width(), 2);
    assert_eq!(frame.height(), 1);
    assert_eq!(frame.data(), &vec![1u8, 2, 3, 4, 5, 6]);
}

#[test]
fn second_write_replaces_the_first() {
    let mut slot = FrameSlot::new((2, 2));
    slot.write(solid(2, 2, 10));
    slot.write(solid(3, 1, 20));
    let frame = slot.read(true).unwrap();
    assert_eq!((frame.width(), frame.height()), (3, 1));
    assert_eq!(frame.data(), &vec![20u8; 9]);
    assert!(slot.read(true).is_none());
}

#[test]
fn invalidating_read_empties_the_slot() {
    let mut slot = FrameSlot::new((2, 2));
    slot.write(solid(2, 2, 7));
    assert!(slot.read(true).is_some());
    assert!(slot.read(true).is_none());
    assert!(slot.is_empty());
    assert_eq!(slot.dimensions(), (2, 2, 3));
}

#[test]
fn peeking_read_can_be_repeated() {
    let mut slot = FrameSlot::new((2, 2));
    slot.write(solid(2, 2, 7));
    for _ in 0..5 {
        let frame = slot.read(false).unwrap();
        assert_eq!(frame.data(), &vec![7u8; 12]);
    }
    slot.write(solid(2, 2, 8));
    assert_eq!(slot.read(false).unwrap().data(), &vec![8u8; 12]);
}

#[test]
fn prepare_names_the_reason() {
    assert!(matches!(prepare(Sample::Missing), Err(Dropped::Missing)));
    assert!(matches!(prepare(Sample::Unreadable), Err(Dropped::Unreadable)));
    assert!(matches!(
        prepare(raw(ReportedFormat::Other, 1, 1, vec![0; 3])),
        Err(Dropped::UnsupportedFormat)
    ));
    assert!(matches!(
        prepare(raw(ReportedFormat::Other, 1, 1, vec![0; 2])),
        Err(Dropped::UnsupportedFormat)
    ));
    assert!(matches!(
        prepare(raw(ReportedFormat::Rgba, 1, 1, vec![0; 3])),
        Err(Dropped::MalformedFrame)
    ));
    let frame = prepare(raw(ReportedFormat::Bgra, 1, 1, vec![1, 2, 3, 4])).unwrap();
    assert_eq!(frame.data(), &vec![3u8, 2, 1]);
}

#[test]
fn flow_for_each_outcome() {
    assert_eq!(flow(Ok(())), Flow::Delivered);
    assert_eq!(flow(Err(Dropped::Missing)), Flow::Eos);
    assert_eq!(flow(Err(Dropped::Unreadable)), Flow::Error);
    assert_eq!(flow(Err(Dropped::UnsupportedFormat)), Flow::Error);
    assert_eq!(flow(Err(Dropped::MalformedFrame)), Flow::Error);
    assert_eq!(flow(Err(Dropped::SlotUnavailable)), Flow::Error);
}

#[test]
fn malformed_frame_between_two_good_ones() {
    let mut slot = FrameSlot::new((1, 1));
    assert_eq!(slot.deliver(raw(ReportedFormat::Rgb, 1, 1, vec![1, 2, 3])), Ok(()));
    assert_eq!(
        slot.deliver(raw(ReportedFormat::Rgb, 1, 1, vec![9, 9])),
        Err(Dropped::MalformedFrame)
    );
    let kept = slot.read(false).unwrap();
    assert_eq!((kept.width(), kept.height()), (1, 1));
    assert_eq!(kept.data(), &vec![1u8, 2, 3]);
    assert_eq!(slot.deliver(raw(ReportedFormat::Bgr, 1, 1, vec![4, 5, 6])), Ok(()));
    assert_eq!(slot.read(true).unwrap().data(), &vec![6u8, 5, 4]);
}

#[test]
fn dropped_samples_leave_the_slot_alone() {
    let mut slot = FrameSlot::new((1, 1));
    assert_eq!(slot.deliver(raw(ReportedFormat::Rgba, 1, 1, vec![1, 2, 3, 4])), Ok(()));
    assert_eq!(slot.deliver(Sample::Missing), Err(Dropped::Missing));
    assert_eq!(slot.deliver(Sample::Unreadable), Err(Dropped::Unreadable));
    assert_eq!(
        slot.deliver(raw(ReportedFormat::Other, 1, 1, vec![7, 7, 7])),
        Err(Dropped::UnsupportedFormat)
    );
    assert_eq!(slot.dimensions(), (1, 1, 3));
    assert_eq!(slot.read(true).unwrap().data(), &vec![1u8, 2, 3]);
}

#[test]
fn shared_slot_is_one_slot_behind_every_handle() {
    let slot = SharedSlot::new((2, 2));
    let other = slot.share();
    assert!(slot.read(false).is_none());
    assert!(other.write(solid(2, 2, 5)));
    assert_eq!(slot.read(false).unwrap().data(), &vec![5u8; 12]);
    assert_eq!(other.read(true).unwrap().data(), &vec![5u8; 12]);
    assert!(slot.read(false).is_none());
}

#[test]
fn shared_slot_takes_good_samples_only() {
    let slot = SharedSlot::new((1, 1));
    let writer = slot.share();
    assert_eq!(writer.deliver(raw(ReportedFormat::Bgr, 1, 1, vec![1, 2, 3])), Ok(()));
    assert_eq!(
        writer.deliver(raw(ReportedFormat::Bgr, 1, 1, vec![1, 2, 3, 4])),
        Err(Dropped::MalformedFrame)
    );
    assert_eq!(
        writer.deliver(raw(ReportedFormat::Other, 1, 1, vec![1, 2, 3])),
        Err(Dropped::UnsupportedFormat)
    );
    assert_eq!(writer.deliver(Sample::Missing), Err(Dropped::Missing));
    assert_eq!(writer.deliver(Sample::Unreadable), Err(Dropped::Unreadable));
    assert_eq!(slot.read(true).unwrap().data(), &vec![3u8, 2, 1]);
    assert!(slot.read(true).is_none());
}

fn needs_send<T: Send + Sync + 'static>(_value: &T) {}

#[test]
fn shared_slot_may_move_to_another_thread() {
    let slot = SharedSlot::new((1, 1));
    needs_send(&slot);
    needs_send(&slot.share());
}
