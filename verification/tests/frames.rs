use temporal_lens::report_heap;
use temporal_lens::send_frame_info;
use temporal_lens::shmem::FrameData;
use temporal_lens::shmem::PlotData;
use temporal_lens::shmem::SharedMemoryData;
use temporal_lens::shmem::NUM_ENTRIES;
use temporal_lens::submit_plot;
use temporal_lens::FrameDelimiter;
use temporal_lens::Plot;
use temporal_lens::HEAP_PLOT_COLOR;
use temporal_lens::HEAP_PLOT_KEY;

const MILLISECOND: u64 = 1_000_000;

fn drain_frames(region: &mut SharedMemoryData) -> (usize, usize, Vec<FrameData>) {
    let mut out = vec![FrameData::new(); NUM_ENTRIES];
    let (retrieved, lost) = region.frame_data.retrieve(&mut out);
    (retrieved, lost, out)
}

fn drain_plots(region: &mut SharedMemoryData) -> (usize, usize, Vec<PlotData>) {
    let mut out = vec![PlotData::new(); NUM_ENTRIES];
    let (retrieved, lost) = region.plot_data.retrieve(&mut out);
    (retrieved, lost, out)
}

#[test]
fn three_delimiters_make_two_frames() {
    let mut region = Box::new(SharedMemoryData::new());
    let mut frames = FrameDelimiter::new();
    assert!(!frames.mark(Some(&mut region), 0));
    assert!(frames.mark(Some(&mut region), 16 * MILLISECOND));
    assert!(frames.mark(Some(&mut region), 33 * MILLISECOND));
    let (retrieved, lost, out) = drain_frames(&mut region);
    assert_eq!((retrieved, lost), (2, 0));
    assert_eq!(out[0].number, 1);
    assert_eq!(out[0].end, 16 * MILLISECOND);
    assert_eq!(out[0].duration, 16 * MILLISECOND);
    assert_eq!(out[1].number, 2);
    assert_eq!(out[1].end, 33 * MILLISECOND);
    assert_eq!(out[1].duration, 17 * MILLISECOND);
}

#[test]
fn delimiters_count_on_without_a_region() {
    let mut region = Box::new(SharedMemoryData::new());
    let mut frames = FrameDelimiter::new();
    assert!(!frames.mark(None, 0));
    assert!(!frames.mark(None, 10));
    assert!(!frames.mark(None, 20));
    assert!(frames.mark(Some(&mut region), 35));
    let (retrieved, lost, out) = drain_frames(&mut region);
    assert_eq!((retrieved, lost), (1, 0));
    assert_eq!(out[0].number, 3);
    assert_eq!(out[0].end, 35);
    assert_eq!(out[0].duration, 15);
}

#[test]
fn a_frame_without_a_start_is_not_sent() {
    let mut region = Box::new(SharedMemoryData::new());
    assert!(!send_frame_info(Some(&mut region), 0, None, 50));
    assert_eq!(region.frame_data.size(), 0);
    assert!(send_frame_info(Some(&mut region), 4, Some(20), 50));
    assert!(!send_frame_info(None, 5, Some(50), 60));
    assert!(send_frame_info(Some(&mut region), 6, Some(70), 60));
    let (retrieved, lost, out) = drain_frames(&mut region);
    assert_eq!((retrieved, lost), (2, 0));
    assert_eq!((out[0].number, out[0].end, out[0].duration), (4, 50, 30));
    assert_eq!((out[1].number, out[1].end, out[1].duration), (6, 60, 0));
}

#[test]
fn frames_beyond_the_capacity_are_counted_as_lost() {
    let mut region = Box::new(SharedMemoryData::new());
    let mut frames = FrameDelimiter::new();
    let mut stored = 0;
    for n in 0..=300u64 {
        if frames.mark(Some(&mut region), n * 1000) {
            stored += 1;
        }
    }
    assert_eq!(stored, 256);
    let (retrieved, lost, out) = drain_frames(&mut region);
    assert_eq!((retrieved, lost), (256, 44));
    assert_eq!(out[255].number, 256);
}

#[test]
fn heap_samples_go_to_the_reserved_series() {
    let mut region = Box::new(SharedMemoryData::new());
    let sample = 4096.0f64.to_bits();
    assert!(!report_heap(None, 5, sample));
    assert!(report_heap(Some(&mut region), 7, sample));
    assert_eq!(region.plot_data.size(), 1);
    assert_eq!(region.zone_data.size(), 0);
    let (retrieved, lost, out) = drain_plots(&mut region);
    assert_eq!((retrieved, lost), (1, 0));
    assert_eq!(out[0].time, 7);
    assert_eq!(out[0].color, 0x0098c379);
    assert_eq!(out[0].color, HEAP_PLOT_COLOR);
    assert_eq!(f64::from_bits(out[0].value), 4096.0);
    assert_eq!(out[0].name.get_key(), 0);
    assert_eq!(out[0].name.get_key(), HEAP_PLOT_KEY);
    assert!(!out[0].name.has_contents());
}

#[test]
fn plots_carry_their_name_when_asked() {
    static SERIES: &str = "fps";
    let mut region = Box::new(SharedMemoryData::new());
    let first = Plot {
        time: 3,
        color: 0xff0000,
        value: 60.5f64.to_bits(),
        key: 77,
        name: SERIES,
        copy_name: true,
    };
    let second = Plot {
        time: 4,
        color: 0xff0000,
        value: 59.0f64.to_bits(),
        key: 77,
        name: SERIES,
        copy_name: false,
    };
    assert!(!submit_plot(None, &first));
    assert!(submit_plot(Some(&mut region), &first));
    assert!(submit_plot(Some(&mut region), &second));
    let (retrieved, lost, out) = drain_plots(&mut region);
    assert_eq!((retrieved, lost), (2, 0));
    assert_eq!(out[0].time, 3);
    assert_eq!(out[0].color, 0xff0000);
    assert_eq!(f64::from_bits(out[0].value), 60.5);
    assert_eq!(out[0].name.make_str(), Some("fps"));
    assert_eq!(out[1].time, 4);
    assert_eq!(f64::from_bits(out[1].value), 59.0);
    assert_eq!(out[1].name.make_str(), None);
    assert_eq!(out[0].name.get_key(), 77);
    assert_eq!(out[1].name.get_key(), 77);
}
