use pulse_spectralyzer::capture::CaptureBuffer;
use pulse_spectralyzer::ring::MAX_CAPACITY;

fn bits(values: &[f32]) -> Vec<u32> {
    values.iter().map(|v| v.to_bits()).collect()
}

fn floats(values: &[u32]) -> Vec<f32> {
    values.iter().map(|v| f32::from_bits(*v)).collect()
}

#[test]
fn new_buffer_is_empty_with_requested_capacity() {
    let buffer = CaptureBuffer::new(8);
    assert_eq!(buffer.capacity(), 8);
    assert_eq!(buffer.len(), 0);
    assert!(buffer.is_empty());
    assert_eq!(buffer.snapshot(), Vec::<u32>::new());
}

#[test]
fn zero_capacity_is_clamped_to_one() {
    let mut buffer = CaptureBuffer::new(0);
    assert_eq!(buffer.capacity(), 1);
    buffer.push(&[7, 8, 9]);
    assert_eq!(buffer.snapshot(), vec![9]);
}

#[test]
fn huge_capacity_is_clamped_to_the_maximum() {
    let buffer = CaptureBuffer::new(usize::MAX);
    assert_eq!(buffer.capacity(), MAX_CAPACITY);
    assert_eq!(MAX_CAPACITY, 268_435_456);
    assert!(buffer.is_empty());
}

#[test]
fn capacity_eight_keeps_last_eight_of_ten() {
    let mut buffer = CaptureBuffer::new(8);
    buffer.push(&bits(&[1.0, 2.0, 3.0, 4.0, 5.0, 6.0, 7.0, 8.0, 9.0, 10.0]));
    assert_eq!(
        floats(&buffer.snapshot()),
        vec![3.0, 4.0, 5.0, 6.0, 7.0, 8.0, 9.0, 10.0]
    );
    assert_eq!(buffer.len(), 8);
    assert_eq!(buffer.capacity(), 8);
}

#[test]
fn push_below_capacity_keeps_everything_in_order() {
    let mut buffer = CaptureBuffer::new(5);
    buffer.push(&[10, 20]);
    buffer.push(&[30]);
    assert_eq!(buffer.snapshot(), vec![10, 20, 30]);
    assert_eq!(buffer.len(), 3);
    assert!(!buffer.is_empty());
}

#[test]
fn push_of_nothing_changes_nothing() {
    let mut buffer = CaptureBuffer::new(3);
    buffer.push(&[1, 2]);
    buffer.push(&[]);
    assert_eq!(buffer.snapshot(), vec![1, 2]);
}

#[test]
fn many_blocks_leave_the_newest_samples() {
    for capacity in 1..=12usize {
        let mut buffer = CaptureBuffer::new(capacity);
        let mut history: Vec<u32> = Vec::new();
        let mut next: u32 = 0;
        for block_len in [0usize, 1, 3, 7, 2, 13, 5, 1] {
            let block: Vec<u32> = (0..block_len)
                .map(|k| next.wrapping_mul(31).wrapping_add(k as u32))
                .collect();
            next += 1;
            buffer.push(&block);
            history.extend_from_slice(&block);
            let kept = history.len().min(capacity);
            assert!(buffer.len() <= capacity);
            assert_eq!(buffer.len(), kept);
            assert_eq!(buffer.snapshot(), history[history.len() - kept..].to_vec());
        }
    }
}

#[test]
fn push_sample_displaces_the_oldest_when_full() {
    let mut buffer = CaptureBuffer::new(2);
    buffer.push_sample(1);
    assert_eq!(buffer.snapshot(), vec![1]);
    buffer.push_sample(2);
    assert_eq!(buffer.snapshot(), vec![1, 2]);
    buffer.push_sample(3);
    assert_eq!(buffer.snapshot(), vec![2, 3]);
}

#[test]
fn snapshot_is_a_copy() {
    let mut buffer = CaptureBuffer::new(4);
    buffer.push(&[1, 2, 3]);
    let before = buffer.snapshot();
    buffer.push(&[4, 5]);
    assert_eq!(before, vec![1, 2, 3]);
    assert_eq!(buffer.snapshot(), vec![2, 3, 4, 5]);
}

#[test]
fn clear_empties_and_keeps_capacity() {
    let mut buffer = CaptureBuffer::new(4);
    buffer.push(&[1, 2, 3, 4, 5]);
    buffer.clear();
    assert_eq!(buffer.len(), 0);
    assert_eq!(buffer.capacity(), 4);
    assert_eq!(buffer.snapshot(), Vec::<u32>::new());
    buffer.push(&[6, 7, 8, 9, 10, 11]);
    assert_eq!(buffer.snapshot(), vec![8, 9, 10, 11]);
}

#[test]
fn resize_empties_and_takes_the_new_capacity() {
    let mut buffer = CaptureBuffer::new(4);
    buffer.push(&[1, 2, 3]);
    buffer.resize(2);
    assert_eq!(buffer.capacity(), 2);
    assert!(buffer.is_empty());
    buffer.push(&[4, 5, 6]);
    assert_eq!(buffer.snapshot(), vec![5, 6]);
    buffer.resize(0);
    assert_eq!(buffer.capacity(), 1);
    assert!(buffer.is_empty());
}

#[test]
fn capacity_that_is_no_power_of_two_wraps_correctly() {
    let mut buffer = CaptureBuffer::new(3);
    for round in 0..20u32 {
        buffer.push(&[round * 2, round * 2 + 1]);
    }
    assert_eq!(buffer.snapshot(), vec![37, 38, 39]);
}
