use regen_oracle::errors::OracleError;
use regen_oracle::fetch::{band_or_fallback, check_fetch_status, check_search_status, fallback_buffer, BandAccumulator};

// A simulated upstream emitting ten times the cap still yields a buffer
// of exactly the cap.
#[test]
fn three_records() {
    let cap: usize = 1000;
    let mut acc = BandAccumulator::new(cap);
    let chunk = vec![0xabu8; 64];
    let mut offered: usize = 0;
    while offered < 10 * cap {
        let more = acc.push_chunk(&chunk);
        offered += chunk.len();
        if !more {
            break;
        }
    }
    let data = acc.into_data();
    assert_eq!(data.len(), cap);
    assert!(data.iter().all(|b| *b == 0xab));
}

#[test]
fn push_chunk_truncates_at_cap() {
    let mut acc = BandAccumulator::new(10);
    let more = acc.push_chunk(&[1, 2, 3, 4, 5, 6]);
    assert!(more);
    let more = acc.push_chunk(&[7, 8, 9, 10, 11, 12]);
    assert!(!more);
    let data = acc.into_data();
    assert_eq!(data, vec![1, 2, 3, 4, 5, 6, 7, 8, 9, 10]);
}

#[test]
fn short_stream_is_kept_whole() {
    let mut acc = BandAccumulator::new(100);
    assert!(acc.push_chunk(&[1, 2, 3]));
    assert!(acc.push_chunk(&[]));
    let data = acc.into_data();
    assert_eq!(data, vec![1, 2, 3]);
}

#[test]
fn success_statuses_pass() {
    assert_eq!(check_fetch_status(200), Ok(()));
    assert_eq!(check_fetch_status(204), Ok(()));
    assert_eq!(check_fetch_status(206), Ok(()));
    assert_eq!(check_fetch_status(299), Ok(()));
}

#[test]
fn failure_statuses_carry_their_code() {
    assert_eq!(check_fetch_status(404), Err(OracleError::FetchError(404)));
    assert_eq!(check_fetch_status(301), Err(OracleError::FetchError(301)));
    assert_eq!(check_fetch_status(500), Err(OracleError::FetchError(500)));
    assert_eq!(check_fetch_status(199), Err(OracleError::FetchError(199)));
}

#[test]
fn fallback_buffer_is_deterministic_and_sized() {
    let a = fallback_buffer(50_000);
    let b = fallback_buffer(50_000);
    assert_eq!(a.len(), 50_000);
    assert_eq!(a, b);
    assert_eq!(a[0], 0);
    assert_eq!(a[255], 255);
    assert_eq!(a[256], 0);
    assert_eq!(a[1000], (1000 % 256) as u8);
}

#[test]
fn search_statuses_are_judged_separately() {
    assert_eq!(check_search_status(200), Ok(()));
    assert_eq!(check_search_status(206), Ok(()));
    assert_eq!(check_search_status(404), Err(OracleError::SearchApiError(404)));
    assert_eq!(check_search_status(500), Err(OracleError::SearchApiError(500)));
}

#[test]
fn failed_download_substitutes_the_fallback_when_allowed() {
    let ok: Result<Vec<u8>, OracleError> = Ok(vec![1, 2, 3]);
    assert_eq!(band_or_fallback(ok, true, 100), Ok(vec![1, 2, 3]));
    let failed: Result<Vec<u8>, OracleError> = Err(OracleError::FetchError(404));
    let substituted = band_or_fallback(failed, true, 100).unwrap();
    assert_eq!(substituted, fallback_buffer(100));
    let failed: Result<Vec<u8>, OracleError> = Err(OracleError::FetchError(404));
    assert_eq!(band_or_fallback(failed, false, 100), Err(OracleError::FetchError(404)));
}
