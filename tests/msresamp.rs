use liquid_dsp::msresamp::{keep_written, output_buffer, written_count, MsresampState};
use liquid_dsp::sample::Sample;

fn s(re: f32, im: f32) -> Sample {
    Sample::from_bits(re.to_bits(), im.to_bits())
}

#[test]
fn state_keeps_its_parameters() {
    let r = MsresampState::new(0.5f32.to_bits(), 60.0f32.to_bits(), 7.25f32.to_bits());
    assert_eq!(f32::from_bits(r.rate_bits()), 0.5);
    assert_eq!(f32::from_bits(r.attenuation_bits()), 60.0);
    assert_eq!(f32::from_bits(r.delay_bits()), 7.25);
    assert_eq!(r.delay_bits(), r.delay_bits());
}

#[test]
fn output_buffer_is_zeroed() {
    let b = output_buffer(2000);
    assert_eq!(b.len(), 2000);
    assert!(b.iter().all(|x| *x == Sample::zero()));
    assert!(output_buffer(0).is_empty());
}

#[test]
fn written_count_is_bounded_by_buffer() {
    assert_eq!(written_count(500, 2000), 500);
    assert_eq!(written_count(2000, 2000), 2000);
    assert_eq!(written_count(2001, 2000), 2000);
    assert_eq!(written_count(0, 0), 0);
    assert_eq!(written_count(u32::MAX, 3), 3);
}

#[test]
fn keep_written_truncates_to_report() {
    let mut b = output_buffer(10);
    for (k, x) in b.iter_mut().enumerate() {
        *x = s(k as f32, 0.0);
    }
    let kept = keep_written(b.clone(), 4);
    assert_eq!(kept, b[..4].to_vec());
    assert_eq!(keep_written(b.clone(), 10), b);
    assert!(keep_written(b.clone(), 0).is_empty());
}

#[test]
fn keep_written_never_exceeds_buffer() {
    let b = output_buffer(1000);
    assert_eq!(keep_written(b.clone(), 1001).len(), 1000);
    assert_eq!(keep_written(b, u32::MAX).len(), 1000);
}

#[test]
fn auto_sized_half_rate_buffer() {
    // 1000 inputs at rate 0.5 get a buffer of 2 * 1000 * 0.5 samples; a
    // reported count of 500 keeps exactly 500.
    let n = 1000usize;
    let rate = 0.5f32;
    let cap = (2.0 * n as f32 * rate) as usize;
    let b = output_buffer(cap);
    assert_eq!(b.len(), 1000);
    let out = keep_written(b, 500);
    assert_eq!(out.len(), 500);
}
