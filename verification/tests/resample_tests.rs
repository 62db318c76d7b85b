use music_visualizer::resample::resample;

#[test]
fn upsampling_by_two_interpolates_midpoints() {
    let src: Vec<i64> = vec![0, 65536];
    let out = resample(&src, 1, 2);
    assert_eq!(out, vec![0, 32768, 65536, 65536]);
}

#[test]
fn identity_rate_returns_the_block() {
    let src: Vec<i64> = vec![5, -7, 9, 0];
    let out = resample(&src, 44100, 44100);
    assert_eq!(out, src);
}

#[test]
fn downsampling_by_two_keeps_every_other_sample() {
    let src: Vec<i64> = vec![0, 2, 4, 6];
    let out = resample(&src, 2, 1);
    assert_eq!(out, vec![0, 4]);
}

#[test]
fn device_rate_conversion_length_is_within_one_of_the_ratio() {
    // 44.1 kHz source on a 48 kHz device: 1000 samples * 48000/44100
    // is 1088.43..., so the resampled block holds 1089 samples.
    let src: Vec<i64> = vec![1000; 1000];
    let out = resample(&src, 44100, 48000);
    assert_eq!(out.len(), 1089);
    let scaled = (out.len() as i64) * 44100 - 1000i64 * 48000;
    assert!(0 <= scaled && scaled < 44100);
}

#[test]
fn negative_samples_interpolate_linearly() {
    let src: Vec<i64> = vec![-65536, 65536];
    let out = resample(&src, 1, 2);
    assert_eq!(out, vec![-65536, 0, 65536, 65536]);
}

#[test]
fn empty_block_resamples_to_empty() {
    let src: Vec<i64> = Vec::new();
    let out = resample(&src, 44100, 48000);
    assert!(out.is_empty());
}
