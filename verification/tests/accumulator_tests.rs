use momcap::accumulator::AccumulatorError;
use momcap::accumulator::Sample;
use momcap::accumulator::SampleAccumulator;

fn mono(levels: &[i32]) -> Vec<Sample> {
    levels.iter().enumerate().map(|(k, &l)| Sample { word: k as u32, level: l }).collect()
}

#[test]
fn boundary_within_threshold_never_warns() {
    // expected step 5764; the threshold is 1.01x, so a jump of 5821
    // (5821 * 100 = 582100 <= 5764 * 101 = 582164) stays quiet.
    let mut acc = SampleAccumulator::new(100, 1, 5764);
    acc.on_samples(1, &mono(&[5821])).unwrap();
    assert_eq!(acc.warning_count(), 0);
    acc.on_samples(1, &mono(&[5821 + 5821])).unwrap();
    assert_eq!(acc.warning_count(), 0);
    acc.on_samples(1, &mono(&[5821 + 5821 - 5821])).unwrap();
    assert_eq!(acc.warning_count(), 0);
}

#[test]
fn offending_boundary_warns_exactly_once_each() {
    // A jump of 5822 exceeds the threshold: 582200 > 582164.
    let mut acc = SampleAccumulator::new(100, 1, 5764);
    acc.on_samples(1, &mono(&[5822])).unwrap();
    assert_eq!(acc.warning_count(), 1);
    // Quiet boundary in between: count stays.
    acc.on_samples(1, &mono(&[5822 + 100])).unwrap();
    assert_eq!(acc.warning_count(), 1);
    // Second offending boundary: exactly one more.
    acc.on_samples(1, &mono(&[5822 + 100 + 90000])).unwrap();
    assert_eq!(acc.warning_count(), 2);
}

#[test]
fn only_the_first_sample_of_a_buffer_is_checked() {
    // A wild jump inside the buffer does not warn; only the boundary
    // against the last retained sample counts.
    let mut acc = SampleAccumulator::new(100, 1, 5764);
    acc.on_samples(3, &mono(&[100, 90000, -90000])).unwrap();
    assert_eq!(acc.warning_count(), 0);
    // The retained level is now -90000; a nearby next buffer is quiet.
    acc.on_samples(1, &mono(&[-90000 + 5000])).unwrap();
    assert_eq!(acc.warning_count(), 0);
}

#[test]
fn deliveries_accumulate_in_order() {
    let mut acc = SampleAccumulator::new(100, 2, 5764);
    let b1 = vec![
        Sample { word: 10, level: 0 },
        Sample { word: 11, level: 0 },
        Sample { word: 12, level: 0 },
        Sample { word: 13, level: 0 },
    ];
    let b2 = vec![Sample { word: 20, level: 0 }, Sample { word: 21, level: 0 }];
    assert_eq!(acc.on_samples(2, &b1).unwrap(), 2);
    assert_eq!(acc.on_samples(1, &b2).unwrap(), 1);
    assert_eq!(acc.words(), &vec![10, 11, 12, 13, 20, 21]);
    assert_eq!(acc.len(), (2 + 1) * 2);
}

#[test]
fn overflowing_delivery_is_refused_whole() {
    let mut acc = SampleAccumulator::new(3, 1, 5764);
    acc.on_samples(2, &mono(&[0, 0])).unwrap();
    let r = acc.on_samples(2, &mono(&[0, 0]));
    assert_eq!(r, Err(AccumulatorError::Overflow));
    assert_eq!(acc.len(), 2);
    assert_eq!(acc.warning_count(), 0);
    // A delivery that still fits is accepted afterwards.
    acc.on_samples(1, &mono(&[0])).unwrap();
    assert_eq!(acc.len(), 3);
}

#[test]
fn finalizing_hands_the_words_out() {
    let mut acc = SampleAccumulator::new(10, 1, 0);
    acc.on_samples(2, &mono(&[0, 0])).unwrap();
    let words = acc.into_words();
    assert_eq!(words, vec![0, 1]);
}
