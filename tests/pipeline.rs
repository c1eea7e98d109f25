use video_stream::frame::{Event, Sample};
use video_stream::queue::{EventQueue, Polled};
use video_stream::registry::{pick_upload, upload_layout, FramePlan, Registry, Resolution, UploadLayout};
use video_stream::video::{Length, Player, Video};

fn take_frame(q: &mut EventQueue<Vec<u8>, u32>) -> Sample<Vec<u8>> {
    match q.poll(0) {
        Polled::Ready(Event::SampleReceived(s)) => s,
        _ => panic!("expected a frame"),
    }
}

/// Brings the pipeline of the frame's stream to the frame's size, counting
/// the pipelines created and torn down.
fn ensure_pipeline(reg: &mut Registry<u32>, s: &Sample<Vec<u8>>, created: &mut u32, torn_down: &mut u32) {
    match reg.resolve(s.stream_id, s.width, s.height) {
        Resolution::Reuse => {}
        Resolution::Create | Resolution::Rebuild => {
            *created += 1;
            if reg.install(s.stream_id, s.width, s.height, *created).is_some() {
                *torn_down += 1;
            }
        }
    }
}

#[test]
fn pick_upload_keeps_newest_completed_buffer() {
    assert_eq!(pick_upload(vec![1, 2, 3], None), Some(3));
    assert_eq!(pick_upload(Vec::<u32>::new(), None), None);
}

#[test]
fn pick_upload_prefers_immediate_copy() {
    assert_eq!(pick_upload(vec![1, 2, 3], Some(9)), Some(9));
    assert_eq!(pick_upload(Vec::new(), Some(9)), Some(9));
}

#[test]
fn upload_layout_of_hd_frame() {
    assert_eq!(
        upload_layout(1280, 720),
        Some(UploadLayout { bytes_per_row: 5120, rows: 720, size: 3_686_400 })
    );
    assert_eq!(upload_layout(0, 5), Some(UploadLayout { bytes_per_row: 0, rows: 5, size: 0 }));
}

#[test]
fn upload_layout_rejects_rows_too_wide() {
    assert_eq!(upload_layout(u32::MAX / 4 + 1, 1), None);
    assert_eq!(
        upload_layout(u32::MAX / 4, u32::MAX),
        Some(UploadLayout {
            bytes_per_row: (u32::MAX / 4) * 4,
            rows: u32::MAX,
            size: ((u32::MAX / 4) * 4) as u64 * u32::MAX as u64,
        })
    );
}

#[test]
fn resolve_creates_then_reuses_then_rebuilds() {
    let mut reg: Registry<u32> = Registry::new();
    assert_eq!(reg.resolve(1, 1280, 720), Resolution::Create);
    assert!(reg.install(1, 1280, 720, 10).is_none());
    assert_eq!(reg.resolve(1, 1280, 720), Resolution::Reuse);
    assert_eq!(reg.resolve(1, 640, 360), Resolution::Rebuild);
    assert_eq!(reg.resolve(2, 1280, 720), Resolution::Create);
}

#[test]
fn install_hands_back_replaced_pipeline() {
    let mut reg: Registry<u32> = Registry::new();
    reg.install(1, 1280, 720, 10);
    let old = reg.install(1, 640, 360, 11).expect("old pipeline");
    assert_eq!((old.width, old.height, old.resources), (1280, 720, 10));
    let now = reg.slot(1).expect("new pipeline");
    assert_eq!((now.width, now.height, now.resources), (640, 360, 11));
    assert_eq!(now.last_frame, None);
}

#[test]
fn remove_hands_back_pipeline_once() {
    let mut reg: Registry<u32> = Registry::new();
    reg.install(4, 8, 8, 3);
    assert_eq!(reg.remove(4).map(|s| s.resources), Some(3));
    assert!(reg.remove(4).is_none());
    assert!(reg.slot(4).is_none());
}

#[test]
fn same_frame_twice_is_copied_once() {
    let mut reg: Registry<u32> = Registry::new();
    reg.install(1, 4, 4, 0);
    let a = Sample { buffer: vec![1u8], width: 4, height: 4, stream_id: 1, sample_id: 6, from_preroll: false };
    let clone = a.clone();
    let first = reg.plan(&a);
    assert_eq!(first, FramePlan { copy_in_background: true, upload_now: false });
    reg.record(1, a.identity());
    let second = reg.plan(&clone);
    assert_eq!(second, FramePlan { copy_in_background: false, upload_now: false });
}

#[test]
fn preroll_is_uploaded_at_once() {
    let mut reg: Registry<u32> = Registry::new();
    reg.install(1, 4, 4, 0);
    let p = Sample { buffer: vec![5u8], width: 4, height: 4, stream_id: 1, sample_id: 0, from_preroll: true };
    let plan = reg.plan(&p);
    assert!(plan.upload_now);
    let immediate = if plan.upload_now { Some(p.buffer.clone()) } else { None };
    assert_eq!(pick_upload(Vec::new(), immediate), Some(vec![5u8]));
    reg.record(1, p.identity());
    assert_eq!(reg.plan(&p), FramePlan { copy_in_background: false, upload_now: false });
}

#[test]
fn record_keeps_size_and_resources() {
    let mut reg: Registry<u32> = Registry::new();
    reg.install(2, 16, 9, 77);
    reg.record(2, (2, 5));
    let s = reg.slot(2).expect("pipeline");
    assert_eq!((s.width, s.height, s.resources, s.last_frame), (16, 9, 77, Some((2, 5))));
}

#[test]
fn preroll_then_background_frame_end_to_end() {
    let mut q: EventQueue<Vec<u8>, u32> = EventQueue::new(1);
    let mut reg: Registry<u32> = Registry::new();
    let (mut created, mut torn_down) = (0, 0);

    // Frame 0, preroll: shown in the same pass.
    q.push_sample(vec![0xA0], 1280, 720, true);
    let f0 = take_frame(&mut q);
    assert_eq!((f0.stream_id, f0.sample_id), (1, 0));
    assert_eq!(reg.resolve(1, 1280, 720), Resolution::Create);
    ensure_pipeline(&mut reg, &f0, &mut created, &mut torn_down);
    let plan = reg.plan(&f0);
    assert!(plan.copy_in_background && plan.upload_now);
    let mut texture = pick_upload(Vec::new(), Some(f0.buffer.clone())).unwrap();
    reg.record(1, f0.identity());
    assert_eq!(texture, vec![0xA0]);

    // Frame 1: handed to the worker, not done at the first pass.
    q.push_sample(vec![0xA1], 1280, 720, false);
    let f1 = take_frame(&mut q);
    assert_eq!(f1.sample_id, 1);
    ensure_pipeline(&mut reg, &f1, &mut created, &mut torn_down);
    let plan = reg.plan(&f1);
    assert_eq!(plan, FramePlan { copy_in_background: true, upload_now: false });
    if let Some(b) = pick_upload(Vec::new(), None) {
        texture = b;
    }
    reg.record(1, f1.identity());
    assert_eq!(texture, vec![0xA0]);

    // The worker has finished: the next pass uploads frame 1.
    let plan = reg.plan(&f1);
    assert_eq!(plan, FramePlan { copy_in_background: false, upload_now: false });
    if let Some(b) = pick_upload(vec![f1.buffer.clone()], None) {
        texture = b;
    }
    assert_eq!(texture, vec![0xA1]);
    assert_eq!((created, torn_down), (1, 0));
}

#[test]
fn resolution_change_rebuilds_pipeline_once() {
    let mut q: EventQueue<Vec<u8>, u32> = EventQueue::new(1);
    let mut reg: Registry<u32> = Registry::new();
    let (mut created, mut torn_down) = (0, 0);

    q.push_sample(vec![0], 1280, 720, false);
    let f0 = take_frame(&mut q);
    ensure_pipeline(&mut reg, &f0, &mut created, &mut torn_down);
    reg.record(1, f0.identity());

    q.push_resolution(640, 360);
    q.push_sample(vec![1], 640, 360, false);
    let f1 = take_frame(&mut q);
    assert!(matches!(q.poll(0), Polled::Ready(Event::ResolutionChanged { width: 640, height: 360 })));
    assert_eq!(reg.resolve(1, 640, 360), Resolution::Rebuild);
    ensure_pipeline(&mut reg, &f1, &mut created, &mut torn_down);
    assert_eq!(reg.plan(&f1).copy_in_background, true);
    reg.record(1, f1.identity());

    q.push_sample(vec![2], 640, 360, false);
    let f2 = take_frame(&mut q);
    ensure_pipeline(&mut reg, &f2, &mut created, &mut torn_down);
    let s = reg.slot(1).unwrap();
    assert_eq!((s.width, s.height), (640, 360));
    assert_eq!((created, torn_down), (2, 1));
}

#[test]
fn video_shows_player_frame_with_shrink_lengths() {
    let mut player: Player<Vec<u8>, ()> = Player::from_backend(());
    let empty = Video::new(&player);
    assert!(empty.sample.is_none());
    player.set_sample(Sample { buffer: vec![3u8], width: 2, height: 1, stream_id: 9, sample_id: 2, from_preroll: false });
    let v = Video::new(&player);
    let s = v.sample.as_ref().expect("frame");
    assert_eq!((s.stream_id, s.sample_id, s.width, s.height), (9, 2, 2, 1));
    assert_eq!(s.buffer, vec![3u8]);
    assert_eq!(v.width, Length::Shrink);
    assert_eq!(v.height, Length::Shrink);
}

#[test]
fn video_builders_set_lengths() {
    let player: Player<Vec<u8>, ()> = Player::from_backend(());
    let v = Video::new(&player).width(Length::Fill).height(Length::Units(240));
    assert_eq!(v.width, Length::Fill);
    assert_eq!(v.height, Length::Units(240));
    let v = v.width(Length::FillPortion(2));
    assert_eq!(v.width, Length::FillPortion(2));
    assert_eq!(v.height, Length::Units(240));
}
