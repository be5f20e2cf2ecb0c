use lora_link::framer::AudioFramer;

fn ramp(start: i16, n: usize) -> Vec<i16> {
    (0..n).map(|i| start + i as i16).collect()
}

#[test]
fn frames_from_uneven_chunks() {
    let mut f = AudioFramer::new(40);
    let a = f.push(&ramp(0, 25));
    assert_eq!(a.len(), 0);
    assert_eq!(f.buffered(), 25);
    let b = f.push(&ramp(25, 30));
    assert_eq!(b.len(), 1);
    assert_eq!(b[0], ramp(0, 40));
    assert_eq!(f.buffered(), 15);
    let c = f.push(&ramp(55, 10));
    assert_eq!(c.len(), 0);
    assert_eq!(f.buffered(), 25);
    // the remainder is carried into the next frame in order
    let d = f.push(&ramp(65, 15));
    assert_eq!(d.len(), 1);
    assert_eq!(d[0], ramp(40, 40));
    assert_eq!(f.buffered(), 0);
}

#[test]
fn one_chunk_completes_several_frames() {
    let mut f = AudioFramer::new(4);
    let out = f.push(&ramp(1, 11));
    assert_eq!(out, vec![ramp(1, 4), ramp(5, 4)]);
    assert_eq!(f.buffered(), 3);
    assert_eq!(f.frame_length(), 4);
}

#[test]
fn frame_count_and_remainder_over_many_chunks() {
    let mut f = AudioFramer::new(7);
    let sizes = [3usize, 0, 9, 1, 14, 6, 2];
    let mut next: i16 = 0;
    let mut frames = Vec::new();
    for s in sizes {
        frames.extend(f.push(&ramp(next, s)));
        next += s as i16;
    }
    // 35 samples = 5 * 7 + 0
    assert_eq!(frames.len(), 5);
    assert_eq!(f.buffered(), 0);
    let flat: Vec<i16> = frames.concat();
    assert_eq!(flat, ramp(0, 35));
}

#[test]
fn empty_chunk_changes_nothing() {
    let mut f = AudioFramer::new(3);
    assert_eq!(f.push(&[7, 8]).len(), 0);
    assert_eq!(f.push(&[]).len(), 0);
    assert_eq!(f.buffered(), 2);
}

#[test]
fn stop_discards_partial_frame() {
    let mut f = AudioFramer::new(40);
    assert_eq!(f.push(&ramp(0, 30)).len(), 0);
    f.discard_partial();
    assert_eq!(f.buffered(), 0);
    // the next session starts a fresh frame
    let out = f.push(&ramp(100, 40));
    assert_eq!(out, vec![ramp(100, 40)]);
}

#[test]
fn frame_of_length_one() {
    let mut f = AudioFramer::new(1);
    let out = f.push(&[5, -6, 7]);
    assert_eq!(out, vec![vec![5], vec![-6], vec![7]]);
    assert_eq!(f.buffered(), 0);
}
