use rustroom::histogram::{count_bins, LEVELS};

#[test]
fn counts_each_level() {
    let bins = count_bins(&[0, 0, 255, 3, 128, 0]);
    assert_eq!(bins.len(), LEVELS);
    assert_eq!(bins[0], 3);
    assert_eq!(bins[3], 1);
    assert_eq!(bins[128], 1);
    assert_eq!(bins[255], 1);
    assert_eq!(bins[1], 0);
}

#[test]
fn empty_input_gives_zero_bins() {
    let bins = count_bins(&[]);
    assert_eq!(bins.len(), 256);
    assert!(bins.iter().all(|&b| b == 0));
}

#[test]
fn bins_add_up_to_sample_count() {
    let samples: Vec<u8> = (0..1000u32).map(|i| (i * 7 % 256) as u8).collect();
    let bins = count_bins(&samples);
    assert_eq!(bins.iter().sum::<usize>(), 1000);
}
