use lasercube::{
    batches, encode_samples, LaserdockSample, BYTES_PER_BATCH, SAMPLES_PER_BATCH, SAMPLE_SIZE,
    XY,
};

fn ramp(len: usize) -> Vec<LaserdockSample> {
    (0..len)
        .map(|i| LaserdockSample::new_xy((i % 256) as u8, 0, 0, XY(i as u16), XY(0)))
        .collect()
}

#[test]
fn batch_size_is_derived_from_packet_and_sample_size() {
    assert_eq!(BYTES_PER_BATCH, 64);
    assert_eq!(SAMPLE_SIZE, 8);
    assert_eq!(SAMPLES_PER_BATCH, 8);
    assert_eq!(SAMPLES_PER_BATCH, BYTES_PER_BATCH / SAMPLE_SIZE);
}

fn check_batches(len: usize, count: usize, last: usize) {
    let samples = ramp(len);
    let bs = batches(&samples);
    assert_eq!(bs.len(), count);
    if count > 0 {
        assert_eq!(bs[count - 1].len(), last);
    }
    for b in &bs {
        assert!(!b.is_empty() && b.len() <= SAMPLES_PER_BATCH);
    }
    let joined: Vec<LaserdockSample> = bs.concat();
    assert_eq!(joined, samples);
}

#[test]
fn batches_of_empty_sequence() {
    check_batches(0, 0, 0);
}

#[test]
fn batches_of_partial_batch() {
    check_batches(3, 1, 3);
}

#[test]
fn batches_of_exact_multiple() {
    check_batches(8, 1, 8);
    check_batches(16, 2, 8);
}

#[test]
fn batches_with_remainder() {
    check_batches(17, 3, 1);
    check_batches(23, 3, 7);
}

#[test]
fn encode_samples_concatenates_records() {
    let samples = ramp(3);
    let bytes = encode_samples(&samples);
    assert_eq!(bytes.len(), 24);
    for (i, s) in samples.iter().enumerate() {
        assert_eq!(&bytes[8 * i..8 * i + 8], &s.to_bytes());
    }
    assert_eq!(&bytes[8..16], &[1, 0, 0, 0, 1, 0, 0, 0]);
}

#[test]
fn encoded_batch_fits_one_transfer() {
    let samples = ramp(20);
    for b in batches(&samples) {
        assert!(encode_samples(&b).len() <= BYTES_PER_BATCH);
    }
    assert_eq!(encode_samples(&[]).len(), 0);
}

#[test]
fn batches_sent_in_order_carry_the_whole_stream() {
    let samples = ramp(21);
    let sent: Vec<u8> = batches(&samples).iter().flat_map(|b| encode_samples(b)).collect();
    assert_eq!(sent, encode_samples(&samples));
    assert_eq!(sent.len(), 21 * SAMPLE_SIZE);
}
