use mie_upload::client::update_file_retention_body;
use mie_upload::structs::{
    B2Actions, B2FileLegalHold, B2FileRetention, B2FileRetentionMode, B2FileRetentionPeriod,
    B2KeyCapabilities, B2ReplicationStatus, B2ServerSideEncryptionAlgorithm,
    B2UpdateFileRetentionBody,
};

#[test]
fn capability_wire_names_round_trip() {
    let all = [
        B2KeyCapabilities::ListKeys,
        B2KeyCapabilities::WriteKeys,
        B2KeyCapabilities::DeleteKeys,
        B2KeyCapabilities::ListBuckets,
        B2KeyCapabilities::ListAllBucketNames,
        B2KeyCapabilities::ReadBuckets,
        B2KeyCapabilities::WriteBuckets,
        B2KeyCapabilities::DeleteBuckets,
        B2KeyCapabilities::ReadBucketRetentions,
        B2KeyCapabilities::WriteBucketRetentions,
        B2KeyCapabilities::ReadBucketEncryption,
        B2KeyCapabilities::WriteBucketEncryption,
        B2KeyCapabilities::ListFiles,
        B2KeyCapabilities::ReadFiles,
        B2KeyCapabilities::ShareFiles,
        B2KeyCapabilities::WriteFiles,
        B2KeyCapabilities::DeleteFiles,
        B2KeyCapabilities::ReadFileLegalHolds,
        B2KeyCapabilities::WriteFileLegalHolds,
        B2KeyCapabilities::ReadFileRetentions,
        B2KeyCapabilities::WriteFileRetentions,
        B2KeyCapabilities::BypassGovernance,
        B2KeyCapabilities::ReadBucketReplications,
        B2KeyCapabilities::WriteBucketReplications,
    ];
    for capability in all {
        assert_eq!(B2KeyCapabilities::from_wire_name(capability.as_str()), Some(capability));
    }
    assert_eq!(B2KeyCapabilities::from_wire_name("writeFiles"), Some(B2KeyCapabilities::WriteFiles));
    assert_eq!(B2KeyCapabilities::from_wire_name("WriteFiles"), None);
    assert_eq!(B2KeyCapabilities::from_wire_name(""), None);
}

#[test]
fn action_wire_names_round_trip() {
    for action in [B2Actions::Start, B2Actions::Upload, B2Actions::Hide, B2Actions::Folder] {
        assert_eq!(B2Actions::from_wire_name(action.as_str()), Some(action));
    }
    assert_eq!(B2Actions::from_wire_name("delete"), None);
}

#[test]
fn fixed_wire_names_are_exact() {
    assert_eq!(B2ReplicationStatus::Pending.as_str(), "PENDING");
    assert_eq!(B2ReplicationStatus::Replica.as_str(), "REPLICA");
    assert_eq!(B2ServerSideEncryptionAlgorithm::AES256.as_str(), "AES256");
    assert_eq!(B2FileRetentionMode::Governance.as_str(), "governance");
    assert_eq!(B2FileRetentionMode::Compliance.as_str(), "compliance");
    assert_eq!(B2FileLegalHold::On.as_str(), "on");
    assert_eq!(B2FileLegalHold::Off.as_str(), "off");
}

#[test]
fn retention_body_serializes_mode_and_period() {
    let body = B2UpdateFileRetentionBody {
        file_name: "videos/cat.mp4".to_string(),
        file_id: "f1".to_string(),
        file_retention: B2FileRetention {
            mode: Some("governance".to_string()),
            period: Some(B2FileRetentionPeriod { duration: 7, unit: "days".to_string() }),
        },
        bypass_governance: Some(false),
    };
    assert_eq!(
        update_file_retention_body(&body),
        r#"{"fileName":"videos/cat.mp4","fileId":"f1","fileRetention":{"mode":"governance","period":{"duration":7,"unit":"days"}},"bypassGovernance":false}"#
    );
}

#[test]
fn retention_body_without_mode_has_null_and_no_period() {
    let body = B2UpdateFileRetentionBody {
        file_name: "n".to_string(),
        file_id: "f2".to_string(),
        file_retention: B2FileRetention { mode: None, period: None },
        bypass_governance: None,
    };
    assert_eq!(
        update_file_retention_body(&body),
        r#"{"fileName":"n","fileId":"f2","fileRetention":{"mode":null}}"#
    );
}

#[test]
fn retention_body_mode_without_period_is_null_period() {
    let body = B2UpdateFileRetentionBody {
        file_name: "n".to_string(),
        file_id: "f3".to_string(),
        file_retention: B2FileRetention { mode: Some("compliance".to_string()), period: None },
        bypass_governance: Some(true),
    };
    assert_eq!(
        update_file_retention_body(&body),
        r#"{"fileName":"n","fileId":"f3","fileRetention":{"mode":"compliance","period":null},"bypassGovernance":true}"#
    );
}
