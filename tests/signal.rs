use wav_dynamics::decode::{plan_windows, select_encoding, source_kind, DecodeError, SampleEncoding, SampleFormat, SourceKind};
use wav_dynamics::energy::{is_silent, window_energies, window_energy};

#[test]
fn supported_encodings() {
    assert_eq!(select_encoding(SampleFormat::Int, 16).unwrap(), SampleEncoding::Int16);
    assert_eq!(select_encoding(SampleFormat::Int, 24).unwrap(), SampleEncoding::Int24);
    assert_eq!(select_encoding(SampleFormat::Int, 32).unwrap(), SampleEncoding::Int32);
    assert_eq!(select_encoding(SampleFormat::Float, 32).unwrap(), SampleEncoding::Float32);
}

#[test]
fn unsupported_encodings_are_refused() {
    for (f, b) in [(SampleFormat::Int, 8u16), (SampleFormat::Float, 64), (SampleFormat::Float, 16), (SampleFormat::Int, 20)] {
        match select_encoding(f, b) {
            Err(DecodeError::UnsupportedFormat { format, bits }) => {
                assert_eq!(format, f);
                assert_eq!(bits, b);
            }
            other => panic!("{:?}", other),
        }
    }
}

#[test]
fn full_scale_divisors() {
    assert_eq!(SampleEncoding::Int16.full_scale(), 32768);
    assert_eq!(SampleEncoding::Int24.full_scale(), 8388608);
    assert_eq!(SampleEncoding::Int32.full_scale(), 2147483648);
    assert_eq!(SampleEncoding::Float32.full_scale(), 1);
}

#[test]
fn one_second_mono_plan() {
    let p = plan_windows(48000, 48000, 1).unwrap();
    assert_eq!(p.span, 19200);
    assert_eq!(p.step, 4800);
    assert_eq!(p.count, 7);
    assert_eq!(p.samples_per_second, 48000);
    assert_eq!(p.midpoint(0), 9600);
    assert_eq!(p.start(6), 28800);
    assert_eq!(p.midpoint(6), 38400);
    assert_eq!(p.starts(), vec![0, 4800, 9600, 14400, 19200, 24000, 28800]);
}

#[test]
fn stereo_plan_counts_interleaved_samples() {
    let p = plan_windows(88200, 44100, 2).unwrap();
    assert_eq!(p.span, 35280);
    assert_eq!(p.step, 8820);
    assert_eq!(p.count, 7);
    assert_eq!(p.samples_per_second, 88200);
}

#[test]
fn input_shorter_than_one_window_is_refused() {
    assert!(matches!(plan_windows(100, 48000, 1), Err(DecodeError::EmptySampleData)));
    assert!(matches!(plan_windows(19199, 48000, 1), Err(DecodeError::EmptySampleData)));
    let p = plan_windows(19200, 48000, 1).unwrap();
    assert_eq!(p.count, 1);
    assert_eq!(p.starts(), vec![0]);
}

#[test]
fn plan_errors() {
    assert!(matches!(plan_windows(0, 48000, 1), Err(DecodeError::EmptySampleData)));
    assert!(matches!(plan_windows(10, 5, 1), Err(DecodeError::InvalidWindowConfig)));
    assert!(matches!(plan_windows(10, 48000, 0), Err(DecodeError::InvalidWindowConfig)));
    let p = plan_windows(10, 10, 1).unwrap();
    assert_eq!((p.span, p.step, p.count), (4, 1, 7));
}

#[test]
fn csv_extension_selects_table_reader() {
    assert_eq!(source_kind(Some("csv")), SourceKind::Csv);
    assert_eq!(source_kind(Some("CSV")), SourceKind::Wav);
    assert_eq!(source_kind(Some("wav")), SourceKind::Wav);
    assert_eq!(source_kind(None), SourceKind::Wav);
}

#[test]
fn full_scale_window_is_loud() {
    let samples: Vec<i32> = (0..48000).map(|i| if i % 2 == 0 { -32768 } else { 32767 }).collect();
    let p = plan_windows(samples.len() as u64, 48000, 1).unwrap();
    let e = window_energies(&samples, &p);
    assert_eq!(e.len(), 7);
    let expected: u128 = 9600 * (32768u128 * 32768) + 9600 * (32767u128 * 32767);
    assert!(e.iter().all(|&x| x == expected));
    assert!(expected <= 19200 * 32768u128 * 32768);
    assert!(!is_silent(expected, p.span, 32768));
}

#[test]
fn zero_and_empty_windows_are_floored() {
    let samples = vec![0i32; 4800];
    assert_eq!(window_energy(&samples, 0, 4800), 0);
    assert!(is_silent(0, 4800, 32768));
    assert!(is_silent(0, 0, 32768));
    assert!(is_silent(5, 0, 32768));
}

#[test]
fn floor_threshold_is_one_part_in_a_billion() {
    // RMS of 1e-9 of full scale: energy / len == full_scale^2 / 10^18.
    let fs: u64 = 1 << 31;
    let len: u64 = 1_000_000_000_000_000_000 / 4;
    let x: u128 = len as u128 * (fs as u128) * (fs as u128);
    let boundary = x / 1_000_000_000_000_000_000;
    assert!(!is_silent(boundary, len, fs));
    assert!(is_silent(boundary - 1, len, fs));
    assert!(!is_silent(1, 19200, 32768));
}

#[test]
fn window_energy_sums_squares() {
    let samples = vec![3, -4, 0, 12, -5];
    assert_eq!(window_energy(&samples, 0, 2), 25);
    assert_eq!(window_energy(&samples, 3, 2), 169);
    assert_eq!(window_energy(&samples, 1, 0), 0);
}

#[test]
fn exact_full_scale_window_has_unit_ratio() {
    // One second at 48 kHz, mono, every sample at full scale.
    let samples = vec![i32::MIN; 48000];
    let p = plan_windows(48000, 48000, 1).unwrap();
    let fs = SampleEncoding::Int32.full_scale();
    let e = window_energies(&samples, &p);
    assert_eq!(e.len(), 7);
    for &x in &e {
        assert_eq!(x, p.span as u128 * fs as u128 * fs as u128);
        assert!(!is_silent(x, p.span, fs));
    }
    let times: Vec<u64> = (0..p.count).map(|k| p.midpoint(k)).collect();
    assert!(times.windows(2).all(|w| w[0] < w[1]));
}
