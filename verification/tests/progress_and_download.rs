use install_pipeline::download::{Download, DownloadError};
use install_pipeline::progress::{Progress, ProgressTracker, NOMINAL_PERCENT};

#[test]
fn percent_is_share_of_total_rounded_down() {
    let mut t = ProgressTracker::new(200);
    assert_eq!(t.percent(), 0);
    t.advance(50);
    assert_eq!(t.percent(), 25);
    assert_eq!(t.progress(), Progress::Measured(25));
    t.advance(149);
    assert_eq!(t.percent(), 99);
    t.advance(1);
    assert_eq!(t.percent(), 100);
    assert_eq!(t.done(), 200);
    assert_eq!(t.declared_total(), 200);
}

#[test]
fn percent_of_thirds_rounds_down() {
    let mut t = ProgressTracker::new(3);
    t.advance(1);
    assert_eq!(t.percent(), 33);
    t.advance(1);
    assert_eq!(t.percent(), 66);
    t.advance(1);
    assert_eq!(t.percent(), 100);
}

#[test]
fn percent_is_capped_when_more_arrives_than_declared() {
    let mut t = ProgressTracker::new(10);
    t.advance(25);
    assert_eq!(t.progress(), Progress::Measured(100));
}

#[test]
fn percent_does_not_overflow_on_huge_counts() {
    let mut t = ProgressTracker::new(u64::MAX);
    t.advance(u64::MAX / 2);
    assert_eq!(t.percent(), 49);
    t.advance(u64::MAX - u64::MAX / 2);
    assert_eq!(t.percent(), 100);
}

#[test]
fn unknown_total_reads_nominal() {
    let mut t = ProgressTracker::new(0);
    assert_eq!(t.progress(), Progress::Nominal);
    t.advance(1234);
    assert_eq!(t.progress(), Progress::Nominal);
    assert_eq!(t.percent(), 50);
    assert_eq!(NOMINAL_PERCENT, 50);
    assert_eq!(Progress::Nominal.percent(), 50);
    assert_eq!(Progress::Measured(7).percent(), 7);
}

#[test]
fn download_refuses_non_success_status() {
    for status in [404u16, 500, 301, 199, 300, 0] {
        match Download::begin(status, Some(10)) {
            Err(e) => assert_eq!(e, DownloadError::HttpStatus(status)),
            Ok(_) => panic!("status {} accepted", status),
        }
    }
    assert!(Download::begin(200, None).is_ok());
    assert!(Download::begin(299, None).is_ok());
    assert!(Download::begin(206, Some(1)).is_ok());
}

#[test]
fn not_found_is_told_apart() {
    assert!(DownloadError::HttpStatus(404).is_not_found());
    assert!(!DownloadError::HttpStatus(500).is_not_found());
    assert!(!DownloadError::EmptyBody.is_not_found());
    assert!(!DownloadError::Transport.is_not_found());
    assert!(!DownloadError::Io.is_not_found());
}

#[test]
fn download_counts_the_sum_of_chunks() {
    let mut d = Download::begin(200, Some(1000)).ok().unwrap();
    let chunks = [100usize, 0, 250, 400, 250];
    let expected = [10u8, 10, 35, 75, 100];
    let mut sum = 0u64;
    for (len, want) in chunks.iter().zip(expected.iter()) {
        assert!(d.has_room_for(*len));
        let p = d.record_chunk(*len);
        sum += *len as u64;
        assert_eq!(p, Progress::Measured(*want));
        assert_eq!(d.bytes_written(), sum);
    }
    assert_eq!(d.finish(), Ok(1000));
}

#[test]
fn download_progress_never_decreases_with_known_total() {
    let mut d = Download::begin(200, Some(777)).ok().unwrap();
    let mut last = 0u8;
    for len in [1usize, 76, 300, 0, 5, 395, 40] {
        let p = d.record_chunk(len);
        assert!(matches!(p, Progress::Measured(_)));
        assert!(p.percent() >= last);
        assert!(p.percent() <= 100);
        last = p.percent();
    }
    assert_eq!(last, 100);
    assert_eq!(d.finish(), Ok(817));
}

#[test]
fn download_without_length_reports_only_nominal() {
    let mut d = Download::begin(200, None).ok().unwrap();
    for len in [10usize, 20, 30] {
        assert_eq!(d.record_chunk(len), Progress::Nominal);
    }
    assert_eq!(d.finish(), Ok(60));
}

#[test]
fn download_with_zero_length_is_unknown() {
    let mut d = Download::begin(200, Some(0)).ok().unwrap();
    assert_eq!(d.record_chunk(5), Progress::Nominal);
    assert_eq!(d.record_chunk(5).percent(), 50);
}

#[test]
fn empty_body_is_an_error() {
    let d = Download::begin(200, Some(100)).ok().unwrap();
    assert_eq!(d.finish(), Err(DownloadError::EmptyBody));
    let mut e = Download::begin(200, None).ok().unwrap();
    e.record_chunk(0);
    e.record_chunk(0);
    assert_eq!(e.bytes_written(), 0);
    assert_eq!(e.finish(), Err(DownloadError::EmptyBody));
}

#[test]
fn room_for_a_chunk_is_bounded_by_the_counter() {
    let mut d = Download::begin(200, None).ok().unwrap();
    assert!(d.has_room_for(usize::MAX));
    d.record_chunk(1);
    assert_eq!(d.has_room_for(usize::MAX), (usize::MAX as u128) + 1 <= u64::MAX as u128);
    assert!(d.has_room_for(0));
}
