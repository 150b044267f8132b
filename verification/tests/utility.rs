use azure_kinect::error::{
    Error, K4A_BUFFER_RESULT_FAILED, K4A_BUFFER_RESULT_SUCCEEDED, K4A_BUFFER_RESULT_TOO_SMALL,
};
use azure_kinect::handle::ResourceLedger;
use azure_kinect::utility::{get_k4a_binary_data, get_k4a_string};

#[test]
fn utility_test() {
    let t1 = "abcdefg";

    let f = |cap: usize| -> (u32, usize, String) {
        if cap == 0 {
            (K4A_BUFFER_RESULT_TOO_SMALL, t1.len() + 1, String::new())
        } else {
            (K4A_BUFFER_RESULT_SUCCEEDED, t1.len() + 1, t1.to_string())
        }
    };

    let rst1 = get_k4a_string(&f);
    assert_eq!(rst1.unwrap(), t1);
}

#[test]
fn probe_round_trip_binary() {
    let payload: Vec<u8> = vec![1, 2, 3, 4, 5];
    let body = payload.clone();
    let f = move |cap: usize| -> (u32, usize, Vec<u8>) {
        if cap == 0 {
            (K4A_BUFFER_RESULT_TOO_SMALL, body.len() + 1, Vec::new())
        } else {
            (K4A_BUFFER_RESULT_SUCCEEDED, body.len() + 1, body.clone())
        }
    };
    assert_eq!(get_k4a_binary_data(&f).unwrap(), payload);
}

#[test]
fn probe_empty_value_succeeds_on_the_probe_itself() {
    let f = |_cap: usize| -> (u32, usize, Vec<u8>) { (K4A_BUFFER_RESULT_SUCCEEDED, 0, Vec::new()) };
    assert_eq!(get_k4a_binary_data(&f).unwrap(), Vec::<u8>::new());
}

#[test]
fn probe_rejects_degenerate_sizes_and_failures() {
    let tiny = |_cap: usize| -> (u32, usize, Vec<u8>) {
        (K4A_BUFFER_RESULT_TOO_SMALL, 1, Vec::new())
    };
    assert_eq!(get_k4a_binary_data(&tiny), Err(Error::TooSmall));

    let broken = |_cap: usize| -> (u32, usize, Vec<u8>) {
        (K4A_BUFFER_RESULT_FAILED, 0, Vec::new())
    };
    assert_eq!(get_k4a_binary_data(&broken), Err(Error::Failed));

    let flaky = |cap: usize| -> (u32, usize, String) {
        if cap == 0 {
            (K4A_BUFFER_RESULT_TOO_SMALL, 8, String::new())
        } else {
            (K4A_BUFFER_RESULT_FAILED, 8, String::new())
        }
    };
    assert_eq!(get_k4a_string(&flaky), Err(Error::Failed));
}

#[test]
fn ledger_releases_exactly_once() {
    let mut ledger = ResourceLedger::new();
    let first = ledger.create();
    let second = ledger.share(&first);
    let third = ledger.share(&second);
    assert_eq!(ledger.live_count(), 1);
    assert!(!ledger.release(first));
    assert!(!ledger.release(third));
    assert!(ledger.release(second));
    assert_eq!(ledger.live_count(), 0);

    let fresh = ledger.create();
    assert_eq!(ledger.live_count(), 1);
    assert!(ledger.release(fresh));
    assert_eq!(ledger.live_count(), 0);
}
