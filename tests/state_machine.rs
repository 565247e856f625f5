use doc_index_updater::ledger::{JobId, Ledger};
use doc_index_updater::status::JobStatus;

#[test]
fn absent_then_error_is_first_write_wins() {
    let mut ledger = Ledger::new();
    let id = JobId { value: 42 };
    let failed = JobStatus::Error { code: "E1".to_string(), message: "broken".to_string() };
    assert_eq!(ledger.set(&id, failed.clone()).unwrap(), failed);
    assert_eq!(ledger.set(&id, JobStatus::Done).unwrap(), failed);
}

#[test]
fn accepted_then_error_advances() {
    let mut ledger = Ledger::new();
    let id = JobId { value: 43 };
    let failed = JobStatus::Error { code: "E2".to_string(), message: "timeout".to_string() };
    assert_eq!(ledger.set(&id, JobStatus::Accepted).unwrap(), JobStatus::Accepted);
    assert_eq!(ledger.set(&id, failed.clone()).unwrap(), failed);
    assert_eq!(ledger.get(&id).unwrap(), failed);
}
