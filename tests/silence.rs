use zippify::{remove_silence, silence_mask, SILENT_THRESHOLD_COUNT};

const SILENT_THRESHOLD: f32 = 0.015_848_933;

fn quiet_flags(channel: &[f32]) -> Vec<bool> {
    channel.iter().map(|s| *s < SILENT_THRESHOLD).collect()
}

#[test]
fn forty_quiet_samples_are_muted_from_index_32() {
    let mut channel = vec![0.001f32; 40];
    let quiet = quiet_flags(&channel);
    remove_silence(&mut channel, &quiet, 0.0);
    for (i, s) in channel.iter().enumerate() {
        if i < 32 {
            assert_eq!(*s, 0.001);
        } else {
            assert_eq!(*s, 0.0);
        }
    }
}

#[test]
fn thirty_two_quiet_samples_are_untouched() {
    let mut channel = vec![0.001f32; 32];
    let quiet = quiet_flags(&channel);
    remove_silence(&mut channel, &quiet, 0.0);
    assert_eq!(channel, vec![0.001f32; 32]);
}

#[test]
fn thirty_three_quiet_samples_lose_the_last() {
    let quiet = vec![true; 33];
    let mask = silence_mask(&quiet);
    assert_eq!(mask.len(), 33);
    assert!(mask[..32].iter().all(|m| !*m));
    assert!(mask[32]);
}

#[test]
fn loud_samples_are_never_muted() {
    let mut channel = vec![0.5f32; 100];
    let quiet = quiet_flags(&channel);
    remove_silence(&mut channel, &quiet, 0.0);
    assert_eq!(channel, vec![0.5f32; 100]);
}

#[test]
fn quiet_count_is_not_reset_by_loud_samples() {
    // 20 quiet, one loud, 20 quiet: the 33rd quiet sample is the 34th sample.
    let mut quiet = vec![true; 20];
    quiet.push(false);
    quiet.extend(vec![true; 20]);
    let mask = silence_mask(&quiet);
    for (i, m) in mask.iter().enumerate() {
        assert_eq!(*m, i >= 33, "index {}", i);
    }
}

#[test]
fn clamped_block_is_muted_after_the_negative_peak() {
    // The clamped block [0.251, 0.251, -0.251, 0.001 x 40]: the negative peak
    // lies below the threshold too, so it is the first quiet sample.
    let t = 0.251f32;
    let mut channel = vec![t, t, -t];
    channel.extend(vec![0.001f32; 40]);
    let quiet = quiet_flags(&channel);
    remove_silence(&mut channel, &quiet, 0.0);
    assert_eq!(&channel[..3], &[t, t, -t]);
    for i in 3..34 {
        assert_eq!(channel[i], 0.001, "index {}", i);
    }
    for i in 34..43 {
        assert_eq!(channel[i], 0.0, "index {}", i);
    }
}

#[test]
fn empty_block_is_left_empty() {
    let mut channel: Vec<f32> = Vec::new();
    remove_silence(&mut channel, &Vec::new(), 0.0);
    assert!(channel.is_empty());
    assert!(silence_mask(&Vec::new()).is_empty());
}

#[test]
fn threshold_count_is_thirty_two() {
    assert_eq!(SILENT_THRESHOLD_COUNT, 32);
}
