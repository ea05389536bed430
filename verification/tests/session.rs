use pulse_spectralyzer::ring::MAX_CAPACITY;
use pulse_spectralyzer::stream::{stream_capacity, Session, StreamConfig, BUFFERS_PER_SECOND};

#[test]
fn capacity_is_a_fifth_of_a_second_of_all_channels() {
    assert_eq!(BUFFERS_PER_SECOND, 5);
    assert_eq!(stream_capacity(&StreamConfig { sample_rate: 48_000, channels: 2 }), 19_200);
    assert_eq!(stream_capacity(&StreamConfig { sample_rate: 44_100, channels: 1 }), 8_820);
    assert_eq!(stream_capacity(&StreamConfig { sample_rate: 44_103, channels: 3 }), 26_460);
}

#[test]
fn degenerate_stream_capacity_is_one() {
    assert_eq!(stream_capacity(&StreamConfig { sample_rate: 0, channels: 2 }), 1);
    assert_eq!(stream_capacity(&StreamConfig { sample_rate: 4, channels: 2 }), 1);
    assert_eq!(stream_capacity(&StreamConfig { sample_rate: 48_000, channels: 0 }), 1);
    assert_eq!(stream_capacity(&StreamConfig { sample_rate: 5, channels: 1 }), 1);
}

#[test]
fn oversized_stream_capacity_is_the_maximum() {
    assert_eq!(
        stream_capacity(&StreamConfig { sample_rate: u32::MAX, channels: u16::MAX }),
        MAX_CAPACITY
    );
    assert_eq!(
        stream_capacity(&StreamConfig { sample_rate: 5 * 268_435_456, channels: 1 }),
        MAX_CAPACITY
    );
    assert_eq!(
        stream_capacity(&StreamConfig { sample_rate: 5 * 268_435_455, channels: 1 }),
        MAX_CAPACITY - 1
    );
}

#[test]
fn new_session_has_no_stream() {
    let session = Session::new();
    assert!(!session.is_streaming());
    assert_eq!(session.config(), None);
    assert_eq!(session.sample_rate(), 0);
    assert_eq!(session.channel_count(), 1);
    assert_eq!(session.capacity(), 1);
    assert_eq!(session.snapshot(), Vec::<u32>::new());
    assert_eq!(session.channels(), vec![Vec::<u32>::new()]);
}

#[test]
fn start_sizes_and_empties_the_buffer() {
    let mut session = Session::new();
    session.capture(&[1, 2, 3]);
    assert_eq!(session.snapshot(), vec![3]);
    let config = StreamConfig { sample_rate: 50, channels: 2 };
    session.start(config);
    assert!(session.is_streaming());
    assert_eq!(session.config(), Some(config));
    assert_eq!(session.sample_rate(), 50);
    assert_eq!(session.channel_count(), 2);
    assert_eq!(session.capacity(), 20);
    assert_eq!(session.snapshot(), Vec::<u32>::new());
}

#[test]
fn capture_keeps_the_newest_samples() {
    let mut session = Session::new();
    session.start(StreamConfig { sample_rate: 20, channels: 2 });
    assert_eq!(session.capacity(), 8);
    session.capture(&[1, 2, 3, 4, 5, 6]);
    session.capture(&[7, 8, 9, 10]);
    assert_eq!(session.snapshot(), vec![3, 4, 5, 6, 7, 8, 9, 10]);
    assert_eq!(session.channels(), vec![vec![3, 5, 7, 9], vec![4, 6, 8, 10]]);
}

#[test]
fn stop_empties_the_buffer_and_forgets_the_stream() {
    let mut session = Session::new();
    session.start(StreamConfig { sample_rate: 20, channels: 2 });
    session.capture(&[1, 2, 3]);
    session.stop();
    assert!(!session.is_streaming());
    assert_eq!(session.config(), None);
    assert_eq!(session.sample_rate(), 0);
    assert_eq!(session.channel_count(), 1);
    assert_eq!(session.capacity(), 8);
    assert_eq!(session.snapshot(), Vec::<u32>::new());
}

#[test]
fn unusual_channel_counts_are_shown_as_mono() {
    let mut session = Session::new();
    session.start(StreamConfig { sample_rate: 10, channels: 3 });
    assert_eq!(session.capacity(), 6);
    assert_eq!(session.channel_count(), 1);
    session.capture(&[1, 2, 3, 4]);
    assert_eq!(session.channels(), vec![vec![1, 2, 3, 4]]);
}

#[test]
fn restart_takes_the_new_stream() {
    let mut session = Session::new();
    session.start(StreamConfig { sample_rate: 20, channels: 2 });
    session.capture(&[1, 2, 3]);
    session.start(StreamConfig { sample_rate: 15, channels: 1 });
    assert_eq!(session.capacity(), 3);
    assert_eq!(session.channel_count(), 1);
    assert_eq!(session.snapshot(), Vec::<u32>::new());
    session.capture(&[4, 5, 6, 7]);
    assert_eq!(session.channels(), vec![vec![5, 6, 7]]);
}
