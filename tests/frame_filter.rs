use h264_iframe_filter::frame_filter::{chain_outcome, Buffer, FlowError, FrameFilter};

fn stream(total: usize, key_interval: usize) -> Vec<Buffer<Vec<u8>>> {
    let mut v = Vec::new();
    for i in 0..total {
        v.push(Buffer::new(vec![(i % 256) as u8, 0xAB], i % key_interval != 0));
    }
    v
}

#[test]
fn new_filter_counts_nothing() {
    let f = FrameFilter::new();
    assert_eq!(f.frame_count(), 0);
}

#[test]
fn key_frame_is_forwarded_unchanged() {
    let mut f = FrameFilter::new();
    let out = f.sink_chain(Buffer::new(vec![1, 2, 3], false));
    let b = out.expect("key frame forwarded");
    assert_eq!(b.data, vec![1, 2, 3]);
    assert!(!b.delta_unit);
    assert_eq!(f.frame_count(), 1);
}

#[test]
fn delta_frame_is_dropped_but_counted() {
    let mut f = FrameFilter::new();
    assert!(f.sink_chain(Buffer::new(vec![9], true)).is_none());
    assert_eq!(f.frame_count(), 1);
}

#[test]
fn forwarded_count_matches_key_frames() {
    let mut f = FrameFilter::new();
    let flags = [false, true, true, false, true, false, false, true];
    let input: Vec<Buffer<Vec<u8>>> = flags.iter().enumerate().map(|(i, d)| Buffer::new(vec![i as u8], *d)).collect();
    let out = f.filter_stream(input);
    assert_eq!(out.len(), 4);
    assert_eq!(f.frame_count(), 8);
}

#[test]
fn forwarded_buffers_keep_content_and_flags() {
    let mut f = FrameFilter::new();
    let input = vec![
        Buffer::new(vec![0, 0, 0, 1, 0x65], false),
        Buffer::new(vec![0, 0, 0, 1, 0x41], true),
        Buffer::new(vec![7, 7, 7], false),
    ];
    let out = f.filter_stream(input);
    assert_eq!(out.len(), 2);
    assert_eq!(out[0].data, vec![0, 0, 0, 1, 0x65]);
    assert_eq!(out[1].data, vec![7, 7, 7]);
    assert!(!out[0].delta_unit && !out[1].delta_unit);
}

#[test]
fn key_frames_keep_their_order() {
    let mut f = FrameFilter::new();
    let input: Vec<Buffer<Vec<u8>>> = (0..6u8).map(|i| Buffer::new(vec![i], i % 2 == 1)).collect();
    let out = f.filter_stream(input);
    let ids: Vec<u8> = out.iter().map(|b| b.data[0]).collect();
    assert_eq!(ids, vec![0, 2, 4]);
}

#[test]
fn empty_stream_is_a_no_op() {
    let mut f = FrameFilter::new();
    let out = f.filter_stream(Vec::<Buffer<Vec<u8>>>::new());
    assert!(out.is_empty());
    assert_eq!(f.frame_count(), 0);
}

#[test]
fn hundred_frames_with_interval_ten_give_ten() {
    let mut f = FrameFilter::new();
    let out = f.filter_stream(stream(100, 10));
    assert_eq!(out.len(), 10);
    assert_eq!(f.frame_count(), 100);
    assert_eq!(out[3].data[0], 30);
}

#[test]
fn counter_keeps_growing_across_streams() {
    let mut f = FrameFilter::new();
    f.filter_stream(stream(5, 2));
    f.filter_stream(stream(7, 3));
    assert_eq!(f.frame_count(), 12);
}

#[test]
fn dropped_buffer_reports_success() {
    assert_eq!(chain_outcome(None), Ok(()));
}

#[test]
fn downstream_result_is_passed_on() {
    assert_eq!(chain_outcome(Some(Ok(()))), Ok(()));
    assert_eq!(chain_outcome(Some(Err(FlowError::NotLinked))), Err(FlowError::NotLinked));
    assert_eq!(chain_outcome(Some(Err(FlowError::Flushing))), Err(FlowError::Flushing));
}
