use feed_me_bits::stats::byte_value_histogram;
use feed_me_bits::stats::within_tolerance;

#[test]
fn test_byte_value_histogram_exact_counts() {
    let data = vec![0u8, 1, 1, 255, 1];
    let hist = byte_value_histogram(&data);
    assert_eq!(hist.len(), 256);
    assert_eq!(hist[0], 1);
    assert_eq!(hist[1], 3);
    assert_eq!(hist[2], 0);
    assert_eq!(hist[255], 1);
    let total: usize = hist.iter().sum();
    assert_eq!(total, data.len());
}

#[test]
fn test_within_tolerance_bounds() {
    let mut hist = vec![4096usize; 256];
    assert!(within_tolerance(&hist, 4096, 410));
    hist[17] = 4506;
    assert!(within_tolerance(&hist, 4096, 410));
    hist[17] = 4507;
    assert!(!within_tolerance(&hist, 4096, 410));
    hist[17] = 3686;
    assert!(within_tolerance(&hist, 4096, 410));
    hist[17] = 3685;
    assert!(!within_tolerance(&hist, 4096, 410));
}

#[test]
fn test_entropy_uniformity() {
    // One mebibyte of well-mixed bytes, bucketed by value: every bucket
    // must sit within 10% of the uniform expectation of 4096.
    let mut state: u64 = 0x2545F4914F6CDD1D;
    let mut data = Vec::with_capacity(1 << 20);
    for _ in 0..(1usize << 20) {
        state = state
            .wrapping_mul(6364136223846793005)
            .wrapping_add(1442695040888963407);
        data.push((state >> 56) as u8);
    }
    assert_eq!(data.len(), 1048576);
    let hist = byte_value_histogram(&data);
    assert!(within_tolerance(&hist, 4096, 410));
}
