use subtone::pdm::generate_pdm;

#[test]
fn silence_alternates() {
    assert_eq!(generate_pdm(&vec![0; 8], 1), vec![0x55]);
}

#[test]
fn full_scale_is_all_ones_or_zeros() {
    assert_eq!(generate_pdm(&vec![1; 16], 1), vec![0xFF, 0xFF]);
    assert_eq!(generate_pdm(&vec![-1; 8], 1), vec![0x00]);
}

#[test]
fn mixed_samples_pack_msb_first() {
    let samples = vec![100, -100, 50, -50, 0, 25, -25, 75];
    assert_eq!(generate_pdm(&samples, 100), vec![0b1010_0101]);
}

#[test]
fn empty_waveform_gives_empty_table() {
    assert_eq!(generate_pdm(&Vec::new(), 1000), Vec::<u8>::new());
}

fn cosine(n: usize, scale: i32) -> Vec<i32> {
    (0..n)
        .map(|i| {
            let phase = 2.0 * std::f64::consts::PI * i as f64 / n as f64;
            (-phase.cos() * scale as f64).round() as i32
        })
        .collect()
}

#[test]
fn generation_is_repeatable() {
    let samples = cosine(1024, 1 << 16);
    assert_eq!(generate_pdm(&samples, 1 << 16), generate_pdm(&samples, 1 << 16));
}

#[test]
fn density_follows_waveform() {
    let scale: i32 = 1 << 16;
    let n = 4096;
    let samples = cosine(n, scale);
    let table = generate_pdm(&samples, scale);
    assert_eq!(table.len(), n / 8);
    let bit = |k: usize| (table[k / 8] >> (7 - k % 8)) & 1 == 1;
    for (a, b) in [(0, n), (0, 512), (100, 900), (2000, 2300), (n - 64, n)] {
        let ones = (a..b).filter(|&k| bit(k)).count() as i64;
        let sum: i64 = samples[a..b].iter().map(|&s| s as i64).sum();
        let dev = scale as i64 * (2 * ones - (b - a) as i64) - sum;
        assert!(dev.abs() <= 2 * scale as i64);
        if a == 0 {
            assert!(dev.abs() <= scale as i64);
        }
    }
    // the cosine starts at its trough, so the stream starts sparse
    let first_ones = (0..256).filter(|&k| bit(k)).count();
    let mid_ones = (n / 2 - 128..n / 2 + 128).filter(|&k| bit(k)).count();
    assert!(first_ones < 16);
    assert!(mid_ones > 240);
}
