use grex_nc_dump_test::layout::{
    offset_of, CHANNELS, CHANNEL_STRIDE, COMPONENTS, COMPONENT_STRIDE, FRAME_LEN, POLARIZATIONS,
    POLARIZATION_STRIDE,
};
use grex_nc_dump_test::Payload;

fn known_samples() -> Vec<i8> {
    (0..FRAME_LEN).map(|i| ((i * 7 + 3) % 256) as u8 as i8).collect()
}

#[test]
fn layout_constants_agree() {
    assert_eq!(CHANNELS, 2048);
    assert_eq!(FRAME_LEN, POLARIZATIONS * CHANNELS * COMPONENTS);
    assert_eq!(POLARIZATION_STRIDE, CHANNELS * COMPONENTS);
    assert_eq!(CHANNEL_STRIDE, COMPONENTS);
    assert_eq!(COMPONENT_STRIDE, 1);
}

#[test]
fn offset_of_known_indices() {
    assert_eq!(offset_of(0, 0, 0), 0);
    assert_eq!(offset_of(0, 0, 1), 1);
    assert_eq!(offset_of(0, 1, 0), 2);
    assert_eq!(offset_of(0, 2047, 1), 4095);
    assert_eq!(offset_of(1, 0, 0), 4096);
    assert_eq!(offset_of(1, 5, 1), 4107);
    assert_eq!(offset_of(1, 2047, 1), 8191);
}

#[test]
fn new_rejects_wrong_lengths() {
    assert!(Payload::new(1, Vec::new()).is_none());
    assert!(Payload::new(1, vec![0i8; FRAME_LEN - 1]).is_none());
    assert!(Payload::new(1, vec![0i8; FRAME_LEN + 1]).is_none());
    assert!(Payload::new(1, vec![0i8; FRAME_LEN]).is_some());
}

#[test]
fn new_keeps_count_and_samples() {
    let payload = Payload::new(77, known_samples()).unwrap();
    assert_eq!(payload.count(), 77);
    assert_eq!(payload.data_view().as_slice(), &known_samples()[..]);
    let copy = payload.clone();
    assert_eq!(copy.count(), 77);
    assert_eq!(copy.data_view().as_slice(), &known_samples()[..]);
}

#[test]
fn view_has_the_declared_shape_and_strides() {
    let payload = Payload::new(0, known_samples()).unwrap();
    let view = payload.data_view();
    assert_eq!(view.shape(), (2, 2048, 2));
    assert_eq!(view.strides(), (4096, 2, 1));
}

#[test]
fn view_reads_the_sample_at_the_computed_offset() {
    let samples = known_samples();
    let payload = Payload::new(0, samples.clone()).unwrap();
    let view = payload.data_view();
    for pol in 0..2usize {
        for chan in 0..CHANNELS {
            for comp in 0..2usize {
                let offset = (pol * CHANNELS + chan) * 2 + comp;
                assert_eq!(view.get(pol, chan, comp), samples[offset]);
            }
        }
    }
}

#[test]
fn view_borrows_the_payload() {
    let payload = Payload::new(0, known_samples()).unwrap();
    let first = payload.data_view().as_slice().as_ptr();
    let second = payload.data_view().as_slice().as_ptr();
    assert_eq!(first, second);
}

#[test]
fn from_channels_lays_out_polarization_a_first() {
    let pol_a: Vec<(i8, i8)> = (0..CHANNELS).map(|c| ((c % 100) as i8, -((c % 50) as i8))).collect();
    let pol_b: Vec<(i8, i8)> = (0..CHANNELS).map(|c| (-((c % 90) as i8), (c % 30) as i8)).collect();
    let payload = Payload::from_channels(5, &pol_a, &pol_b).unwrap();
    assert_eq!(payload.count(), 5);
    let view = payload.data_view();
    for chan in 0..CHANNELS {
        assert_eq!(view.get(0, chan, 0), pol_a[chan].0);
        assert_eq!(view.get(0, chan, 1), pol_a[chan].1);
        assert_eq!(view.get(1, chan, 0), pol_b[chan].0);
        assert_eq!(view.get(1, chan, 1), pol_b[chan].1);
    }
}

#[test]
fn from_channels_rejects_wrong_lengths() {
    let good = vec![(0i8, 0i8); CHANNELS];
    let short = vec![(0i8, 0i8); CHANNELS - 1];
    assert!(Payload::from_channels(0, &short, &good).is_none());
    assert!(Payload::from_channels(0, &good, &short).is_none());
    assert!(Payload::from_channels(0, &good, &good).is_some());
}

#[test]
fn random_payload_is_one_frame_with_count_zero() {
    let payload = Payload::random();
    assert_eq!(payload.count(), 0);
    assert_eq!(payload.data_view().as_slice().len(), FRAME_LEN);
}
