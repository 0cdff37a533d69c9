use firenibble::schema::{copy_in_statement, setup_table};
use firenibble::calendar::{CalendarDate, DateError};
use firenibble::config::{Config, ConfigError};
use firenibble::encode::{encode_batch, encode_row, record_fits, EncodeError};
use firenibble::record::{double_bits, random_batch, random_date, random_record, Record};
use firenibble::worker::{reconcile, run_status, BatchOutcome, RunStatus, Worker, WorkerStep};

fn cfg(total: usize, per_batch: usize, parallelism: usize) -> Config {
    Config::new(32, total, per_batch, parallelism).unwrap()
}

fn date(year: i32, ordinal: u16) -> CalendarDate {
    CalendarDate::from_ordinal_date(year, ordinal).unwrap()
}

fn sample_record() -> Record {
    Record {
        f1: -1,
        f2: 0x0102_0304_0506_0708,
        f3: 7,
        f4: 0x3FF0_0000_0000_0000,
        f5: 0,
        f6: 1,
        f7: u64::MAX,
        f8: "ab".to_string(),
        f9: String::new(),
        f10: date(2000, 1),
        f11: date(2000, 2),
        f12: date(1999, 365),
        f13: "Z".to_string(),
        f14: "09".to_string(),
        f15: "xyz".to_string(),
    }
}

const HEADER: [u8; 19] = [
    0x50, 0x47, 0x43, 0x4F, 0x50, 0x59, 0x0A, 0xFF, 0x0D, 0x0A, 0x00, 0, 0, 0, 0, 0, 0, 0, 0,
];

#[test]
fn config_rejects_empty_pool() {
    assert_eq!(Config::new(32, 40, 10, 0), Err(ConfigError::ZeroParallelism));
}

#[test]
fn config_rejects_row_overflow() {
    assert_eq!(Config::new(32, usize::MAX, 2, 4), Err(ConfigError::TooManyRows));
}

#[test]
fn config_accepts_zero_rows() {
    let c = Config::new(8, 0, 0, 3).unwrap();
    assert_eq!(c.attempted_rows(), 0);
    assert_eq!(c.scheduled_batches(), 0);
}

#[test]
fn benchmark_shape() {
    let c = Config::benchmark();
    assert_eq!(c.random_string_length, 32);
    assert_eq!(c.total_batches, 40);
    assert_eq!(c.records_per_batch, 250_000);
    assert_eq!(c.parallelism, 16);
    assert_eq!(c.batches_per_worker(), 2);
    assert_eq!(c.unassigned_batches(), 8);
}

#[test]
fn even_partition_covers_total() {
    let c = cfg(40, 10, 8);
    let q = c.worker_quotas();
    assert_eq!(q.len(), 8);
    assert_eq!(q.iter().sum::<usize>(), 40);
    assert_eq!(c.scheduled_batches(), 40);
}

#[test]
fn four_workers_eight_batches() {
    let c = cfg(8, 1000, 4);
    assert_eq!(c.worker_quotas(), vec![2, 2, 2, 2]);
    assert_eq!(c.scheduled_batches(), 8);
    assert_eq!(c.attempted_rows(), 8 * 1000);
    for id in 0..4 {
        let mut w = Worker::new(id, &c);
        let mut loads = 0;
        while let WorkerStep::Load { records, .. } = w.next_step() {
            w.complete_batch(records as u64);
            loads += 1;
        }
        assert_eq!(loads, 2);
    }
}

#[test]
fn uneven_partition_truncates() {
    let c = cfg(10, 5, 3);
    assert_eq!(c.batches_per_worker(), 3);
    assert_eq!(c.worker_quotas(), vec![3, 3, 3]);
    assert_eq!(c.scheduled_batches(), 9);
    assert_eq!(c.unassigned_batches(), 1);
}

#[test]
fn attempted_rows_for_throughput() {
    let c = cfg(40, 250_000, 16);
    assert_eq!(c.attempted_rows(), 10_000_000);
}

#[test]
fn calendar_bounds() {
    assert_eq!(CalendarDate::from_ordinal_date(2019, 366), Err(DateError::InvalidDate));
    assert!(CalendarDate::from_ordinal_date(2020, 366).is_ok());
    assert!(CalendarDate::from_ordinal_date(1900, 366).is_err());
    assert!(CalendarDate::from_ordinal_date(2000, 366).is_ok());
    assert!(CalendarDate::from_ordinal_date(9999, 1).is_ok());
    assert!(CalendarDate::from_ordinal_date(10000, 1).is_err());
    assert!(CalendarDate::from_ordinal_date(-9999, 1).is_ok());
    assert!(CalendarDate::from_ordinal_date(2021, 0).is_err());
}

#[test]
fn days_since_2000() {
    assert_eq!(date(2000, 1).days_since_2000(), 0);
    assert_eq!(date(2000, 2).days_since_2000(), 1);
    assert_eq!(date(1999, 365).days_since_2000(), -1);
    assert_eq!(date(2001, 1).days_since_2000(), 366);
    assert_eq!(date(1, 1).days_since_2000(), -730_119);
    let d = date(2024, 60);
    assert_eq!(d.year(), 2024);
    assert_eq!(d.ordinal(), 60);
}

#[test]
fn double_bits_range() {
    assert_eq!(double_bits(0), 0x3FF0_0000_0000_0000);
    assert_eq!(double_bits(u64::MAX), 0x3FFF_FFFF_FFFF_FFFF);
    assert_eq!(f64::from_bits(double_bits(1 << 63)), 1.5);
}

#[test]
fn generated_strings_are_alphanumeric() {
    let mut rng = rand::thread_rng();
    for len in [0usize, 1, 32] {
        let r = random_record(&mut rng, len).unwrap();
        for s in [&r.f8, &r.f9, &r.f13, &r.f14, &r.f15] {
            assert_eq!(s.chars().count(), len);
            assert!(s.chars().all(|c| c.is_ascii_alphanumeric()));
        }
    }
}

#[test]
fn generated_dates_in_range() {
    let mut rng = rand::thread_rng();
    for _ in 0..200 {
        let d = random_date(&mut rng).unwrap();
        assert!(1 <= d.year() && d.year() < 9999);
        assert!(1 <= d.ordinal() && d.ordinal() < 365);
    }
    let r = random_record(&mut rng, 4).unwrap();
    for d in [r.f10, r.f11, r.f12] {
        assert!(1 <= d.year() && d.year() < 9999);
    }
}

#[test]
fn generated_doubles_in_unit_range() {
    let mut rng = rand::thread_rng();
    let r = random_record(&mut rng, 1).unwrap();
    for b in [r.f4, r.f5, r.f6, r.f7] {
        let x = f64::from_bits(b);
        assert!((1.0..2.0).contains(&x));
    }
}

#[test]
fn batch_has_requested_size() {
    let mut rng = rand::thread_rng();
    let b = random_batch(&mut rng, 25, 6).unwrap();
    assert_eq!(b.len(), 25);
    assert!(b.iter().all(|r| r.f8.len() == 6));
    assert!(random_batch(&mut rng, 0, 6).unwrap().is_empty());
}

#[test]
fn empty_batch_encoding() {
    let b = encode_batch(&Vec::new()).unwrap();
    let mut want = HEADER.to_vec();
    want.extend_from_slice(&[0xFF, 0xFF]);
    assert_eq!(b, want);
}

#[test]
fn row_encoding_bytes() {
    let r = sample_record();
    assert!(record_fits(&r));
    let b = encode_row(&r);
    let mut want: Vec<u8> = vec![0, 15];
    want.extend_from_slice(&[0, 0, 0, 8, 0xFF, 0xFF, 0xFF, 0xFF, 0xFF, 0xFF, 0xFF, 0xFF]);
    want.extend_from_slice(&[0, 0, 0, 8, 1, 2, 3, 4, 5, 6, 7, 8]);
    want.extend_from_slice(&[0, 0, 0, 4, 0, 0, 0, 7]);
    want.extend_from_slice(&[0, 0, 0, 8, 0x3F, 0xF0, 0, 0, 0, 0, 0, 0]);
    want.extend_from_slice(&[0, 0, 0, 8, 0, 0, 0, 0, 0, 0, 0, 0]);
    want.extend_from_slice(&[0, 0, 0, 8, 0, 0, 0, 0, 0, 0, 0, 1]);
    want.extend_from_slice(&[0, 0, 0, 8, 0xFF, 0xFF, 0xFF, 0xFF, 0xFF, 0xFF, 0xFF, 0xFF]);
    want.extend_from_slice(&[0, 0, 0, 2, b'a', b'b']);
    want.extend_from_slice(&[0, 0, 0, 0]);
    want.extend_from_slice(&[0, 0, 0, 4, 0, 0, 0, 0]);
    want.extend_from_slice(&[0, 0, 0, 4, 0, 0, 0, 1]);
    want.extend_from_slice(&[0, 0, 0, 4, 0xFF, 0xFF, 0xFF, 0xFF]);
    want.extend_from_slice(&[0, 0, 0, 1, b'Z']);
    want.extend_from_slice(&[0, 0, 0, 2, b'0', b'9']);
    want.extend_from_slice(&[0, 0, 0, 3, b'x', b'y', b'z']);
    assert_eq!(b, want);
}

#[test]
fn batch_encoding_frames_rows_in_order() {
    let mut second = sample_record();
    second.f1 = 5;
    let rows = vec![sample_record(), second];
    let b = encode_batch(&rows).unwrap();
    let mut want = HEADER.to_vec();
    want.extend(encode_row(&rows[0]));
    want.extend(encode_row(&rows[1]));
    want.extend_from_slice(&[0xFF, 0xFF]);
    assert_eq!(b, want);
}

#[test]
fn generated_batch_encodes() {
    let mut rng = rand::thread_rng();
    let rows = random_batch(&mut rng, 3, 32).unwrap();
    let b = encode_batch(&rows).unwrap();
    let row_len = 2 + 4 * 15 + 8 * 2 + 4 + 8 * 4 + 32 * 5 + 4 * 3;
    assert_eq!(b.len(), 19 + 3 * row_len + 2);
}

#[test]
fn encode_error_is_distinct() {
    assert_ne!(format!("{:?}", EncodeError::FieldTooLarge), "");
}

#[test]
fn reconcile_full_and_short() {
    assert_eq!(
        reconcile(1, 2, 100, 100),
        BatchOutcome::Written { worker_id: 1, batch_id: 2, rows: 100 }
    );
    assert_eq!(
        reconcile(1, 2, 99, 100),
        BatchOutcome::ShortWrite { worker_id: 1, batch_id: 2, rows: 99, expected: 100 }
    );
    assert!(reconcile(0, 0, 101, 100).is_short());
}

#[test]
fn short_write_does_not_stop_worker() {
    let c = cfg(9, 250, 3);
    let mut w = Worker::new(7, &c);
    assert_eq!(w.next_step(), WorkerStep::Load { batch_id: 0, records: 250, string_length: 32 });
    let o = w.complete_batch(249);
    assert_eq!(o, BatchOutcome::ShortWrite { worker_id: 7, batch_id: 0, rows: 249, expected: 250 });
    assert_eq!(w.next_step(), WorkerStep::Load { batch_id: 1, records: 250, string_length: 32 });
    assert_eq!(
        w.complete_batch(250),
        BatchOutcome::Written { worker_id: 7, batch_id: 1, rows: 250 }
    );
    w.complete_batch(250);
    assert!(w.is_finished());
    assert_eq!(w.next_step(), WorkerStep::Finished);
    assert_eq!(w.short_writes, 1);
}

#[test]
fn run_status_cases() {
    let c = cfg(2, 10, 1);
    let clean = Worker::new(0, &c);
    let mut short = Worker::new(1, &c);
    short.complete_batch(3);
    assert_eq!(run_status(&vec![Some(clean), Some(clean)]), RunStatus::Clean);
    assert_eq!(run_status(&vec![Some(clean), Some(short)]), RunStatus::PartialWrites);
    assert_eq!(run_status(&vec![Some(short), None]), RunStatus::Aborted);
    assert_eq!(run_status(&Vec::new()), RunStatus::Clean);
}

#[test]
fn schema_statements() {
    let ddl = setup_table();
    assert!(ddl.starts_with("CREATE TABLE IF NOT EXISTS firenibble"));
    assert!(ddl.contains("f0 BIGINT PRIMARY KEY GENERATED ALWAYS AS IDENTITY"));
    assert!(ddl.contains("f15 VARCHAR)"));
    assert_eq!(
        copy_in_statement(),
        "COPY firenibble(f1,f2,f3,f4,f5,f6,f7,f8,f9,f10,f11,f12,f13,f14,f15) FROM STDIN BINARY"
    );
}
