use mie_upload::checksum::sha1_hex;
use mie_upload::engine::{MultipartSession, UploadPhase};
use mie_upload::plan::{batch_ranges, PartPlan};

const MIB: u64 = 1024 * 1024;

fn fake_digest(part_number: u16) -> String {
    format!("{:040}", part_number)
}

#[test]
fn multipart_scenario_500_mib_in_three_batches() {
    let plan = PartPlan::new(500 * MIB, 20 * MIB);
    let lengths: Vec<u64> = plan.parts.iter().map(|p| p.length).collect();
    let mut session = MultipartSession::new(plan);
    assert_eq!(session.phase, UploadPhase::Planned);

    session.on_started("file-id-1".to_string());
    assert_eq!(session.phase, UploadPhase::Started);

    let batches = batch_ranges(lengths.len(), 10);
    assert_eq!(batches.len(), 3);
    for (start, end) in batches.iter().copied() {
        // one upload-part URL per worker batch
        session.on_part_url_requested();
        for index in start..end {
            session.add_uploaded_bytes(lengths[index]);
            session.record_part(index, fake_digest(index as u16 + 1), lengths[index]);
        }
    }
    assert_eq!(session.phase, UploadPhase::AllPartsAcked);
    assert_eq!(session.uploaded_bytes, 500 * MIB);

    let digests = session.finish_digest_list();
    assert_eq!(digests.len(), 25);
    for (i, digest) in digests.iter().enumerate() {
        assert_eq!(*digest, fake_digest(i as u16 + 1));
    }

    session.on_finished();
    assert_eq!(session.phase, UploadPhase::Finalized);
    assert_eq!(session.start_requests, 1);
    assert_eq!(session.finish_requests, 1);
    assert_eq!(session.part_url_requests, 3);
    assert_eq!(session.acked, 25);
}

#[test]
fn service_busy_rolls_back_and_recounts() {
    let plan = PartPlan::new(30, 20);
    let mut session = MultipartSession::new(plan);
    session.on_started("file-id-2".to_string());
    session.on_part_url_requested();

    let part1 = vec![0xabu8; 20];
    let part2 = vec![0xcdu8; 10];

    // part 1 goes through in one attempt
    session.add_uploaded_bytes(20);
    let digest1 = sha1_hex(&part1);
    session.record_part(0, digest1, 20);

    // part 2: five bytes counted, then a 503 arrives
    session.add_uploaded_bytes(5);
    let before_retry = session.uploaded_bytes;
    session.rollback_uploaded_bytes(5);
    assert_eq!(session.uploaded_bytes, before_retry - 5);
    // a fresh part URL, then the same part again from the start
    session.on_part_url_requested();
    session.add_uploaded_bytes(10);
    let digest2_retry = sha1_hex(&part2);
    session.record_part(1, digest2_retry.clone(), 10);

    // no net change: the counter reads the file size, not more
    assert_eq!(session.uploaded_bytes, 30);
    assert_eq!(session.part_url_requests, 2);
    assert_eq!(session.phase, UploadPhase::AllPartsAcked);

    // the retried part carries the digest an unretried upload would have
    let digest2_direct = sha1_hex(&part2);
    assert_eq!(digest2_retry, digest2_direct);
    let digests = session.finish_digest_list();
    assert_eq!(digests[1], digest2_direct);
}

#[test]
fn fatal_error_fails_the_session() {
    let plan = PartPlan::new(30, 20);
    let mut session = MultipartSession::new(plan);
    session.on_started("file-id-3".to_string());
    session.add_uploaded_bytes(7);
    session.on_fatal();
    assert_eq!(session.phase, UploadPhase::Failed);
    // nothing else moved
    assert_eq!(session.uploaded_bytes, 7);
    assert_eq!(session.start_requests, 1);
    assert_eq!(session.finish_requests, 0);
}

#[test]
fn single_part_plan_finalizes_after_one_part() {
    let plan = PartPlan::new(5, 20);
    let mut session = MultipartSession::new(plan);
    session.on_started("file-id-4".to_string());
    session.on_part_url_requested();
    session.add_uploaded_bytes(5);
    session.record_part(0, fake_digest(1), 5);
    assert_eq!(session.phase, UploadPhase::AllPartsAcked);
    let digests = session.finish_digest_list();
    assert_eq!(digests, vec![fake_digest(1)]);
    session.on_finished();
    assert_eq!(session.phase, UploadPhase::Finalized);
}

#[test]
fn known_sha1_vector() {
    assert_eq!(sha1_hex(b"abc"), "a9993e364706816aba3e25717850c26c9cd0d89d");
    assert_eq!(sha1_hex(b""), "da39a3ee5e6b4b0d3255bfef95601890afd80709");
}
