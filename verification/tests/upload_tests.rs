use mie_upload::checksum::sha1_hex;
use mie_upload::structs::B2BasicError;
use mie_upload::upload::{
    choose_strategy, encode_metadata, plan_for_file, resolve_batch_outcomes, FileOutcome,
    RetryDecision, RetryPolicy, SingleShotPhase, SingleShotSession, UploadJob, UploadStrategy,
    LARGE_FILE_THRESHOLD, RETRY_BACKOFF_MILLIS, RETRY_CAP,
};

fn pairs(v: &[(&str, &str)]) -> Vec<(String, String)> {
    v.iter().map(|(a, b)| (a.to_string(), b.to_string())).collect()
}

const MIB: u64 = 1024 * 1024;

#[test]
fn sizes_at_or_below_threshold_go_single_shot() {
    assert_eq!(choose_strategy(50 * MIB), UploadStrategy::SingleShot);
    assert_eq!(choose_strategy(LARGE_FILE_THRESHOLD), UploadStrategy::SingleShot);
    assert_eq!(choose_strategy(LARGE_FILE_THRESHOLD + 1), UploadStrategy::Multipart);
    assert_eq!(choose_strategy(500 * MIB), UploadStrategy::Multipart);
}

#[test]
fn plan_for_file_uses_the_fixed_part_size() {
    let plan = plan_for_file(500 * MIB);
    assert_eq!(plan.part_size, 20 * MIB);
    assert_eq!(plan.parts.len(), 25);
}

#[test]
fn single_shot_scenario_one_url_one_body_one_digest() {
    // a 50 MiB file sits below the threshold
    let size = 50 * MIB;
    assert_eq!(choose_strategy(size), UploadStrategy::SingleShot);

    // the whole file's digest is computed once, up front
    let content = b"hello world";
    let digest = sha1_hex(content);
    assert_eq!(digest, "2aae6c35c94fcfb415dbe95f408b9ce91ee846ed");

    let mut session = SingleShotSession::new(size, digest.clone());
    session.on_url_issued();
    session.add_uploaded_bytes(size / 2);
    session.add_uploaded_bytes(size - size / 2);
    session.on_uploaded();

    assert_eq!(session.phase, SingleShotPhase::Uploaded);
    assert_eq!(session.url_requests, 1);
    assert_eq!(session.upload_requests, 1);
    assert_eq!(session.uploaded_bytes, size);
    assert_eq!(session.content_sha1, digest);
}

#[test]
fn single_shot_failure_before_upload() {
    let mut session = SingleShotSession::new(10, "0".repeat(40));
    session.on_url_issued();
    session.on_fatal();
    assert_eq!(session.phase, SingleShotPhase::Failed);
    assert_eq!(session.upload_requests, 0);
}

#[test]
fn metadata_keys_and_values_are_percent_encoded() {
    let raw = pairs(&[("author", "jane doe"), ("a key", "a/b")]);
    assert_eq!(encode_metadata(&raw), pairs(&[("author", "jane%20doe"), ("a%20key", "a/b")]));
}

#[test]
fn a_job_is_encoded_once_on_creation() {
    let job = UploadJob::new(
        "/tmp/cat file.mp4".to_string(),
        "videos",
        "cat file.mp4",
        &pairs(&[("src", "web page")]),
        "bucket-1".to_string(),
    );
    assert_eq!(job.path, "/tmp/cat file.mp4");
    assert_eq!(job.object_name, "videos/cat%20file.mp4");
    assert_eq!(job.metadata, pairs(&[("src", "web%20page")]));
    assert_eq!(job.bucket_id, "bucket-1");
}

#[test]
fn retry_budget_gives_up_at_the_cap() {
    let mut policy = RetryPolicy::new(RETRY_CAP);
    for attempt in 1..RETRY_CAP {
        let decision = policy.on_failure();
        assert_eq!(decision, RetryDecision::RetryAfterMillis(RETRY_BACKOFF_MILLIS));
        assert_eq!(policy.failures, attempt);
    }
    let final_decision = policy.on_failure();
    assert_eq!(final_decision, RetryDecision::GiveUp);
    assert_eq!(policy.failures, RETRY_CAP);
}

#[test]
fn success_resets_the_failure_count() {
    let mut policy = RetryPolicy::new(3);
    assert_eq!(policy.on_failure(), RetryDecision::RetryAfterMillis(RETRY_BACKOFF_MILLIS));
    assert_eq!(policy.on_failure(), RetryDecision::RetryAfterMillis(RETRY_BACKOFF_MILLIS));
    policy.on_success();
    assert_eq!(policy.failures, 0);
    assert_eq!(policy.on_failure(), RetryDecision::RetryAfterMillis(RETRY_BACKOFF_MILLIS));
}

#[test]
fn exhausted_budget_aborts_the_unfinished_siblings() {
    // one file failed for good; its two unfinished siblings are aborted,
    // and every submitted file gets an outcome in submission order
    let partial = vec![
        Some(FileOutcome::Failed(B2BasicError::RequestSendError(
            "connection reset".to_string(),
        ))),
        None,
        None,
    ];
    let outcomes = resolve_batch_outcomes(partial);
    assert_eq!(outcomes.len(), 3);
    assert!(matches!(
        outcomes[0],
        FileOutcome::Failed(B2BasicError::RequestSendError(ref m)) if m == "connection reset"
    ));
    assert!(matches!(outcomes[1], FileOutcome::Aborted));
    assert!(matches!(outcomes[2], FileOutcome::Aborted));
}
