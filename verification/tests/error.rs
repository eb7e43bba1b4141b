use async_bulkhead::Bulkhead;
use async_bulkhead::BulkheadError;
use std::time::Duration;

#[test]
fn messages_name_the_cause() {
    assert_eq!(
        BulkheadError::Timeout.message(),
        "the maximum number of concurrent calls is met"
    );
    assert_eq!(
        BulkheadError::InvalidConcurrentCalls.message(),
        "max concurrent calls must be at least 1"
    );
    assert_eq!(BulkheadError::Acquire.message(), "the bulkhead semaphore has been closed");
}

#[test]
fn elapsed_time_is_a_timeout() {
    let rt = tokio::runtime::Builder::new_current_thread().enable_time().build().unwrap();
    let elapsed = rt
        .block_on(async {
            tokio::time::timeout(Duration::from_millis(1), std::future::pending::<()>()).await
        })
        .unwrap_err();
    assert_eq!(BulkheadError::from(elapsed), BulkheadError::Timeout);
}

#[test]
fn closed_semaphore_is_an_acquire_error() {
    let semaphore = tokio::sync::Semaphore::new(1);
    semaphore.close();
    let rt = tokio::runtime::Builder::new_current_thread().build().unwrap();
    let closed = rt.block_on(semaphore.acquire()).unwrap_err();
    assert_eq!(BulkheadError::from(closed), BulkheadError::Acquire);
}

#[test]
fn entering_with_a_closed_semaphore_fails() {
    let semaphore = tokio::sync::Semaphore::new(1);
    semaphore.close();
    let rt = tokio::runtime::Builder::new_current_thread().enable_time().build().unwrap();
    let entry = rt.block_on(async {
        let outcome = tokio::time::timeout(Duration::from_secs(1), semaphore.acquire()).await;
        Bulkhead::enter(outcome)
    });
    assert_eq!(entry.unwrap_err(), BulkheadError::Acquire);
}

#[test]
fn errors_compare_by_kind() {
    assert_eq!(BulkheadError::Timeout, BulkheadError::Timeout);
    assert_ne!(BulkheadError::Timeout, BulkheadError::Acquire);
    assert_ne!(BulkheadError::Timeout, BulkheadError::InvalidConcurrentCalls);
    assert_ne!(BulkheadError::Acquire, BulkheadError::InvalidConcurrentCalls);
}
