//! Typed protocol data of the storage service: the account session,
//! capability and action kinds, request and response shapes, and the typed
//! error every call classifies into.

use vstd::prelude::*;

verus! {

/// The session an account-authorization call returns. Replaced wholesale on
/// re-authorization, never mutated field by field.
#[derive(Clone, Debug)]
pub struct B2AuthData {
    pub account_id: String,
    pub authorization_token: String,
    pub allowed: B2AuthDataAllowed,
    pub api_url: String,
    pub download_url: String,
    pub recommended_part_size: u64,
    pub absolute_minimum_part_size: u64,
    pub s3_api_url: String,
}

/// What the presented key may do.
#[derive(Clone, Copy, Debug, PartialEq, Eq, Structural)]
pub enum B2KeyCapabilities {
    ListKeys,
    WriteKeys,
    DeleteKeys,
    ListBuckets,
    ListAllBucketNames,
    ReadBuckets,
    WriteBuckets,
    DeleteBuckets,
    ReadBucketRetentions,
    WriteBucketRetentions,
    ReadBucketEncryption,
    WriteBucketEncryption,
    ListFiles,
    ReadFiles,
    ShareFiles,
    WriteFiles,
    DeleteFiles,
    ReadFileLegalHolds,
    WriteFileLegalHolds,
    ReadFileRetentions,
    WriteFileRetentions,
    BypassGovernance,
    ReadBucketReplications,
    WriteBucketReplications,
}

impl B2KeyCapabilities {
    /// The camelCase name the wire format uses for this capability.
    pub open spec fn wire_name(self) -> Seq<char> {
        match self {
            B2KeyCapabilities::ListKeys => "listKeys"@,
            B2KeyCapabilities::WriteKeys => "writeKeys"@,
            B2KeyCapabilities::DeleteKeys => "deleteKeys"@,
            B2KeyCapabilities::ListBuckets => "listBuckets"@,
            B2KeyCapabilities::ListAllBucketNames => "listAllBucketNames"@,
            B2KeyCapabilities::ReadBuckets => "readBuckets"@,
            B2KeyCapabilities::WriteBuckets => "writeBuckets"@,
            B2KeyCapabilities::DeleteBuckets => "deleteBuckets"@,
            B2KeyCapabilities::ReadBucketRetentions => "readBucketRetentions"@,
            B2KeyCapabilities::WriteBucketRetentions => "writeBucketRetentions"@,
            B2KeyCapabilities::ReadBucketEncryption => "readBucketEncryption"@,
            B2KeyCapabilities::WriteBucketEncryption => "writeBucketEncryption"@,
            B2KeyCapabilities::ListFiles => "listFiles"@,
            B2KeyCapabilities::ReadFiles => "readFiles"@,
            B2KeyCapabilities::ShareFiles => "shareFiles"@,
            B2KeyCapabilities::WriteFiles => "writeFiles"@,
            B2KeyCapabilities::DeleteFiles => "deleteFiles"@,
            B2KeyCapabilities::ReadFileLegalHolds => "readFileLegalHolds"@,
            B2KeyCapabilities::WriteFileLegalHolds => "writeFileLegalHolds"@,
            B2KeyCapabilities::ReadFileRetentions => "readFileRetentions"@,
            B2KeyCapabilities::WriteFileRetentions => "writeFileRetentions"@,
            B2KeyCapabilities::BypassGovernance => "bypassGovernance"@,
            B2KeyCapabilities::ReadBucketReplications => "readBucketReplications"@,
            B2KeyCapabilities::WriteBucketReplications => "writeBucketReplications"@,
        }
    }

    pub fn as_str(&self) -> (r: &'static str)
        ensures
            r@ == self.wire_name(),
    {
        match self {
            B2KeyCapabilities::ListKeys => "listKeys",
            B2KeyCapabilities::WriteKeys => "writeKeys",
            B2KeyCapabilities::DeleteKeys => "deleteKeys",
            B2KeyCapabilities::ListBuckets => "listBuckets",
            B2KeyCapabilities::ListAllBucketNames => "listAllBucketNames",
            B2KeyCapabilities::ReadBuckets => "readBuckets",
            B2KeyCapabilities::WriteBuckets => "writeBuckets",
            B2KeyCapabilities::DeleteBuckets => "deleteBuckets",
            B2KeyCapabilities::ReadBucketRetentions => "readBucketRetentions",
            B2KeyCapabilities::WriteBucketRetentions => "writeBucketRetentions",
            B2KeyCapabilities::ReadBucketEncryption => "readBucketEncryption",
            B2KeyCapabilities::WriteBucketEncryption => "writeBucketEncryption",
            B2KeyCapabilities::ListFiles => "listFiles",
            B2KeyCapabilities::ReadFiles => "readFiles",
            B2KeyCapabilities::ShareFiles => "shareFiles",
            B2KeyCapabilities::WriteFiles => "writeFiles",
            B2KeyCapabilities::DeleteFiles => "deleteFiles",
            B2KeyCapabilities::ReadFileLegalHolds => "readFileLegalHolds",
            B2KeyCapabilities::WriteFileLegalHolds => "writeFileLegalHolds",
            B2KeyCapabilities::ReadFileRetentions => "readFileRetentions",
            B2KeyCapabilities::WriteFileRetentions => "writeFileRetentions",
            B2KeyCapabilities::BypassGovernance => "bypassGovernance",
            B2KeyCapabilities::ReadBucketReplications => "readBucketReplications",
            B2KeyCapabilities::WriteBucketReplications => "writeBucketReplications",
        }
    }
}

/// Whether a wire string is this string: the decoder's one comparison.
fn wire_eq(name: &str, lit: &str) -> (r: bool)
    ensures
        r == (name@ == lit@),
{
    let left = name.to_owned();
    let right = lit.to_owned();
    left.eq(&right)
}

impl B2KeyCapabilities {
    /// Decodes the camelCase wire name of a capability; a string that names
    /// no capability decodes to nothing.
    pub fn from_wire_name(name: &str) -> (r: Option<B2KeyCapabilities>)
        ensures
            (r matches Some(c) ==> name@ == c.wire_name()),
            r is None ==> forall|c: B2KeyCapabilities| name@ != c.wire_name(),
    {
        if wire_eq(name, "listKeys") {
            Some(B2KeyCapabilities::ListKeys)
        } else if wire_eq(name, "writeKeys") {
            Some(B2KeyCapabilities::WriteKeys)
        } else if wire_eq(name, "deleteKeys") {
            Some(B2KeyCapabilities::DeleteKeys)
        } else if wire_eq(name, "listBuckets") {
            Some(B2KeyCapabilities::ListBuckets)
        } else if wire_eq(name, "listAllBucketNames") {
            Some(B2KeyCapabilities::ListAllBucketNames)
        } else if wire_eq(name, "readBuckets") {
            Some(B2KeyCapabilities::ReadBuckets)
        } else if wire_eq(name, "writeBuckets") {
            Some(B2KeyCapabilities::WriteBuckets)
        } else if wire_eq(name, "deleteBuckets") {
            Some(B2KeyCapabilities::DeleteBuckets)
        } else if wire_eq(name, "readBucketRetentions") {
            Some(B2KeyCapabilities::ReadBucketRetentions)
        } else if wire_eq(name, "writeBucketRetentions") {
            Some(B2KeyCapabilities::WriteBucketRetentions)
        } else if wire_eq(name, "readBucketEncryption") {
            Some(B2KeyCapabilities::ReadBucketEncryption)
        } else if wire_eq(name, "writeBucketEncryption") {
            Some(B2KeyCapabilities::WriteBucketEncryption)
        } else if wire_eq(name, "listFiles") {
            Some(B2KeyCapabilities::ListFiles)
        } else if wire_eq(name, "readFiles") {
            Some(B2KeyCapabilities::ReadFiles)
        } else if wire_eq(name, "shareFiles") {
            Some(B2KeyCapabilities::ShareFiles)
        } else if wire_eq(name, "writeFiles") {
            Some(B2KeyCapabilities::WriteFiles)
        } else if wire_eq(name, "deleteFiles") {
            Some(B2KeyCapabilities::DeleteFiles)
        } else if wire_eq(name, "readFileLegalHolds") {
            Some(B2KeyCapabilities::ReadFileLegalHolds)
        } else if wire_eq(name, "writeFileLegalHolds") {
            Some(B2KeyCapabilities::WriteFileLegalHolds)
        } else if wire_eq(name, "readFileRetentions") {
            Some(B2KeyCapabilities::ReadFileRetentions)
        } else if wire_eq(name, "writeFileRetentions") {
            Some(B2KeyCapabilities::WriteFileRetentions)
        } else if wire_eq(name, "bypassGovernance") {
            Some(B2KeyCapabilities::BypassGovernance)
        } else if wire_eq(name, "readBucketReplications") {
            Some(B2KeyCapabilities::ReadBucketReplications)
        } else if wire_eq(name, "writeBucketReplications") {
            Some(B2KeyCapabilities::WriteBucketReplications)
        } else {
            None
        }
    }
}

/// What a stored file entry represents.
#[derive(Clone, Copy, Debug, PartialEq, Eq, Structural)]
pub enum B2Actions {
    Start,
    Upload,
    Hide,
    Folder,
}

impl B2Actions {
    pub open spec fn wire_name(self) -> Seq<char> {
        match self {
            B2Actions::Start => "start"@,
            B2Actions::Upload => "upload"@,
            B2Actions::Hide => "hide"@,
            B2Actions::Folder => "folder"@,
        }
    }

    pub fn as_str(&self) -> (r: &'static str)
        ensures
            r@ == self.wire_name(),
    {
        match self {
            B2Actions::Start => "start",
            B2Actions::Upload => "upload",
            B2Actions::Hide => "hide",
            B2Actions::Folder => "folder",
        }
    }

    /// Decodes the wire name of an action; a string that names no action
    /// decodes to nothing.
    pub fn from_wire_name(name: &str) -> (r: Option<B2Actions>)
        ensures
            (r matches Some(a) ==> name@ == a.wire_name()),
            r is None ==> forall|a: B2Actions| name@ != a.wire_name(),
    {
        if wire_eq(name, "start") {
            Some(B2Actions::Start)
        } else if wire_eq(name, "upload") {
            Some(B2Actions::Upload)
        } else if wire_eq(name, "hide") {
            Some(B2Actions::Hide)
        } else if wire_eq(name, "folder") {
            Some(B2Actions::Folder)
        } else {
            None
        }
    }
}

/// The typed failure of one protocol call: a transport failure, an HTTP
/// error response, or a body that would not decode.
#[derive(Clone, Debug)]
pub enum B2BasicError {
    NotAuthenticated,
    JsonParseError(String),
    RequestError(B2BasicErrorBody),
    RequestSendError(String),
}

/// Replication state of a stored file.
#[derive(Clone, Copy, Debug, PartialEq, Eq, Structural)]
pub enum B2ReplicationStatus {
    Pending,
    Completed,
    Failed,
    Replica,
}

impl B2ReplicationStatus {
    pub open spec fn wire_name(self) -> Seq<char> {
        match self {
            B2ReplicationStatus::Pending => "PENDING"@,
            B2ReplicationStatus::Completed => "COMPLETED"@,
            B2ReplicationStatus::Failed => "FAILED"@,
            B2ReplicationStatus::Replica => "REPLICA"@,
        }
    }

    pub fn as_str(&self) -> (r: &'static str)
        ensures
            r@ == self.wire_name(),
    {
        match self {
            B2ReplicationStatus::Pending => "PENDING",
            B2ReplicationStatus::Completed => "COMPLETED",
            B2ReplicationStatus::Failed => "FAILED",
            B2ReplicationStatus::Replica => "REPLICA",
        }
    }
}

/// The body of an HTTP error response: its status, a service error code,
/// and a human-readable message.
#[derive(Clone, Debug)]
pub struct B2BasicErrorBody {
    pub status: u16,
    pub code: String,
    pub message: String,
}

/// The restrictions attached to the presented key.
#[derive(Clone, Debug)]
pub struct B2AuthDataAllowed {
    pub capabilities: Vec<B2KeyCapabilities>,
    pub bucket_id: Option<String>,
    pub bucket_name: Option<String>,
    pub name_prefix: Option<String>,
}

#[derive(Clone, Debug)]
pub struct B2LifeCycleRules {
    pub days_from_hiding_to_deleting: Option<u32>,
    pub days_from_uploading_to_hiding: Option<u32>,
    pub file_name_prefix: String,
}

#[derive(Clone, Debug)]
pub struct B2ServerSideEncryption {
    pub mode: Option<String>,
    pub algorithm: Option<String>,
}

#[derive(Clone, Debug)]
pub struct B2FileRetentionPeriod {
    pub duration: u64,
    pub unit: String,
}

#[derive(Clone, Debug)]
pub struct B2FileRetention {
    pub mode: Option<String>,
    pub period: Option<B2FileRetentionPeriod>,
}

#[derive(Clone, Debug)]
pub struct B2ObjectLockValue {
    pub default_retention: B2FileRetention,
    pub is_file_lock_enabled: bool,
}

#[derive(Clone, Debug)]
pub struct B2ObjectLock {
    pub is_client_authorized_to_read: bool,
    pub value: Option<B2ObjectLockValue>,
}

/// The stored-object descriptor the service returns once an upload, single
/// shot or finalized multipart, is complete.
#[derive(Clone, Debug)]
pub struct B2File {
    pub account_id: String,
    pub action: String,
    pub bucket_id: String,
    pub content_length: u64,
    pub content_sha1: String,
    pub content_md5: Option<String>,
    pub content_type: String,
    pub file_id: String,
    pub file_info: Vec<(String, String)>,
    pub file_name: String,
    pub file_retention: B2ObjectLock,
    pub legal_hold: B2ObjectLock,
    pub replication_status: Option<B2ReplicationStatus>,
    pub server_side_encryption: B2ServerSideEncryption,
    pub upload_timestamp: u64,
}

/// The acknowledgement of one uploaded part.
#[derive(Clone, Debug)]
pub struct B2FilePart {
    pub file_id: String,
    pub part_number: u16,
    pub content_length: u64,
    pub content_sha1: String,
    pub content_md5: Option<String>,
    pub server_side_encryption: B2ServerSideEncryption,
    pub upload_timestamp: u64,
}

#[derive(Clone, Debug)]
pub struct B2ListFilesResponse {
    pub files: Vec<B2File>,
    pub next_file_name: Option<String>,
}

/// A short-lived upload endpoint for one file.
#[derive(Clone, Debug)]
pub struct B2GetUploadUrlResponse {
    pub bucket_id: String,
    pub upload_url: String,
    pub authorization_token: String,
}

#[derive(Clone, Debug)]
pub struct B2ListFilesBody {
    pub start_file_name: Option<String>,
    pub max_file_count: Option<u32>,
    pub prefix: Option<String>,
    pub delimiter: Option<String>,
    pub bucket_id: String,
}

#[derive(Clone, Debug)]
pub struct B2GetUploadUrlBody {
    pub bucket_id: String,
}

#[derive(Clone, Copy, Debug, PartialEq, Eq, Structural)]
pub enum B2ServerSideEncryptionAlgorithm {
    AES256,
}

impl B2ServerSideEncryptionAlgorithm {
    pub open spec fn wire_name(self) -> Seq<char> {
        "AES256"@
    }

    pub fn as_str(&self) -> (r: &'static str)
        ensures
            r@ == self.wire_name(),
    {
        "AES256"
    }
}

#[derive(Clone, Copy, Debug, PartialEq, Eq, Structural)]
pub enum B2FileRetentionMode {
    Governance,
    Compliance,
}

impl B2FileRetentionMode {
    pub open spec fn wire_name(self) -> Seq<char> {
        match self {
            B2FileRetentionMode::Governance => "governance"@,
            B2FileRetentionMode::Compliance => "compliance"@,
        }
    }

    pub fn as_str(&self) -> (r: &'static str)
        ensures
            r@ == self.wire_name(),
    {
        match self {
            B2FileRetentionMode::Governance => "governance",
            B2FileRetentionMode::Compliance => "compliance",
        }
    }
}

#[derive(Clone, Copy, Debug, PartialEq, Eq, Structural)]
pub enum B2FileLegalHold {
    On,
    Off,
}

impl B2FileLegalHold {
    pub open spec fn wire_name(self) -> Seq<char> {
        match self {
            B2FileLegalHold::On => "on"@,
            B2FileLegalHold::Off => "off"@,
        }
    }

    pub fn as_str(&self) -> (r: &'static str)
        ensures
            r@ == self.wire_name(),
    {
        match self {
            B2FileLegalHold::On => "on",
            B2FileLegalHold::Off => "off",
        }
    }
}

/// The named header fields of a single-shot upload request.
#[derive(Clone, Debug)]
pub struct B2UploadFileHeaders {
    pub authorization: String,
    pub file_name: String,
    pub content_type: String,
    pub content_length: u32,
    pub content_sha1: String,
    pub src_last_modified_millis: Option<u32>,
    pub b2_content_disposition: Option<String>,
    pub b2_content_language: Option<String>,
    pub b2_expires: Option<String>,
    pub b2_cache_control: Option<String>,
    pub b2_content_encoding: Option<String>,
    pub custom_upload_timestamp: Option<u32>,
    pub legal_hold: Option<B2FileLegalHold>,
    pub retention_mode: Option<B2FileRetentionMode>,
    pub retention_retain_until_timestamp: Option<u32>,
    pub server_side_encryption: Option<B2ServerSideEncryptionAlgorithm>,
    pub server_side_encryption_customer_algorithm: Option<B2ServerSideEncryptionAlgorithm>,
    pub server_side_encryption_customer_key: Option<String>,
    pub server_side_encryption_customer_key_md5: Option<String>,
}

/// The named header fields of one part-upload request.
#[derive(Clone, Debug)]
pub struct B2UploadPartHeaders {
    pub authorization: String,
    pub part_number: u16,
    pub content_length: u32,
    pub content_sha1: String,
    pub server_side_encryption_customer_algorithm: Option<B2ServerSideEncryptionAlgorithm>,
    pub server_side_encryption_customer_key: Option<String>,
    pub server_side_encryption_customer_key_md5: Option<String>,
}

/// The fields a start-large-file request carries.
#[derive(Clone, Debug)]
pub struct B2StartLargeFileUploadBody {
    pub bucket_id: String,
    pub file_name: String,
    pub content_type: String,
    pub file_info: Vec<(String, String)>,
}

/// A short-lived upload endpoint for the parts of one large file.
#[derive(Clone, Debug)]
pub struct B2GetUploadPartUrlResponse {
    pub file_id: String,
    pub upload_url: String,
    pub authorization_token: String,
}

/// The server-side handle of a started large file.
#[derive(Clone, Debug)]
pub struct B2StartLargeFileUploadResponse {
    pub account_id: String,
    pub action: B2Actions,
    pub bucket_id: String,
    pub content_length: i128,
    pub content_sha1: String,
    pub content_md5: Option<String>,
    pub content_type: String,
    pub file_id: String,
    pub file_info: Vec<(String, String)>,
    pub file_name: String,
    pub file_retention: B2ObjectLock,
    pub legal_hold: B2ObjectLock,
    pub replication_status: Option<B2ReplicationStatus>,
    pub service_side_encryption: Option<B2ServerSideEncryption>,
    pub upload_timestamp: u64,
}

#[derive(Clone, Debug)]
pub struct B2UpdateFileRetentionBody {
    pub file_name: String,
    pub file_id: String,
    pub file_retention: B2FileRetention,
    pub bypass_governance: Option<bool>,
}

/// The ordered digest list that finalizes a large file.
#[derive(Clone, Debug)]
pub struct B2FinishLargeFileBody {
    pub file_id: String,
    pub part_sha1_array: Vec<String>,
}

#[derive(Clone, Debug)]
pub struct B2UpdateFileRetentionResponse {
    pub file_name: String,
    pub file_id: String,
    pub file_retention: B2FileRetention,
}

impl B2AuthData {
    /// Whether the session's key holds the one capability: a pure lookup,
    /// not an enforcement -- the service can still answer 401 or 403.
    pub fn has_permission(&self, permission: B2KeyCapabilities) -> (r: bool)
        ensures
            r == self.allowed.capabilities@.contains(permission),
    {
        let n = self.allowed.capabilities.len();
        let mut i: usize = 0;
        while i < n
            invariant
                i <= n == self.allowed.capabilities@.len(),
                forall|j: int| 0 <= j < i ==> self.allowed.capabilities@[j] != permission,
            decreases n - i,
        {
            if self.allowed.capabilities[i] == permission {
                return true;
            }
            i = i + 1;
        }
        false
    }

    /// Whether the session's key holds every one of the capabilities.
    pub fn has_all_permissions(&self, permissions: &Vec<B2KeyCapabilities>) -> (r: bool)
        ensures
            r == forall|j: int|
                0 <= j < permissions@.len() ==> self.allowed.capabilities@.contains(
                    #[trigger] permissions@[j],
                ),
    {
        let n = permissions.len();
        let mut i: usize = 0;
        while i < n
            invariant
                i <= n == permissions@.len(),
                forall|j: int|
                    0 <= j < i ==> self.allowed.capabilities@.contains(#[trigger] permissions@[j]),
            decreases n - i,
        {
            if !self.has_permission(permissions[i]) {
                return false;
            }
            i = i + 1;
        }
        true
    }

    /// The bearer token every subsequent call presents.
    pub fn get_authorization_token(&self) -> (r: &str)
        ensures
            r@ == self.authorization_token@,
    {
        self.authorization_token.as_str()
    }
}

} // verus!
