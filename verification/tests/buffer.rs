use huetrack::buffer::{TemporalBuffer, WINDOW};

fn contents(buffer: &TemporalBuffer<u32>) -> Vec<u32> {
    (0..buffer.len()).map(|i| *buffer.get(i)).collect()
}

#[test]
fn window_is_six() {
    assert_eq!(WINDOW, 6);
}

#[test]
fn new_buffer_is_empty() {
    let buffer: TemporalBuffer<u32> = TemporalBuffer::new();
    assert_eq!(buffer.len(), 0);
    assert!(!buffer.is_full());
    assert!(buffer.newest().is_none());
}

#[test]
fn buffer_fills_in_insertion_order() {
    let mut buffer = TemporalBuffer::new();
    for (pushed, mask) in [11u32, 12, 13, 14, 15, 16].into_iter().enumerate() {
        assert_eq!(buffer.is_full(), false);
        assert_eq!(buffer.push(mask), None);
        assert_eq!(buffer.len(), pushed + 1);
        assert_eq!(buffer.newest(), Some(&mask));
    }
    assert!(buffer.is_full());
    assert_eq!(contents(&buffer), vec![11, 12, 13, 14, 15, 16]);
}

#[test]
fn full_buffer_evicts_the_oldest() {
    let mut buffer = TemporalBuffer::new();
    for mask in 1u32..=6 {
        buffer.push(mask);
    }
    assert_eq!(buffer.push(7), Some(1));
    assert_eq!(contents(&buffer), vec![2, 3, 4, 5, 6, 7]);
    assert_eq!(buffer.push(8), Some(2));
    assert_eq!(contents(&buffer), vec![3, 4, 5, 6, 7, 8]);
    assert!(buffer.is_full());
}

#[test]
fn buffer_never_exceeds_window_and_keeps_the_most_recent() {
    let mut buffer = TemporalBuffer::new();
    let mut pushed: Vec<u32> = Vec::new();
    for mask in 0u32..40 {
        buffer.push(mask * 3);
        pushed.push(mask * 3);
        assert!(buffer.len() <= WINDOW);
        let kept = pushed.len().min(WINDOW);
        assert_eq!(buffer.len(), kept);
        assert_eq!(contents(&buffer), pushed[pushed.len() - kept..].to_vec());
        assert_eq!(buffer.is_full(), pushed.len() >= WINDOW);
    }
}

#[test]
fn buffer_keeps_equal_masks_apart() {
    let mut buffer = TemporalBuffer::new();
    for _ in 0..9 {
        buffer.push(5u32);
    }
    assert_eq!(contents(&buffer), vec![5; 6]);
}

#[test]
fn buffer_holds_masks_that_cannot_be_copied() {
    let mut buffer: TemporalBuffer<String> = TemporalBuffer::new();
    for i in 0..7 {
        let evicted = buffer.push(format!("mask {}", i));
        assert_eq!(evicted, if i == 6 { Some(String::from("mask 0")) } else { None });
    }
    assert_eq!(buffer.get(0), "mask 1");
    assert_eq!(buffer.get(5), "mask 6");
}
