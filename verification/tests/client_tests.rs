use mie_upload::client::{
    api_url, basic_auth_header, file_info_header_pairs, finish_large_file_body,
    get_upload_url_body, handle_response, is_error_status, is_service_busy, list_files_body,
    start_large_file_body, upload_part_url_query, RawResponse,
};
use mie_upload::structs::{
    B2AuthData, B2AuthDataAllowed, B2BasicError, B2BasicErrorBody, B2FileLegalHold,
    B2FinishLargeFileBody, B2GetUploadUrlBody, B2KeyCapabilities, B2ListFilesBody,
    B2StartLargeFileUploadBody, B2UploadFileHeaders, B2UploadPartHeaders,
};

fn pairs(v: &[(&str, &str)]) -> Vec<(String, String)> {
    v.iter().map(|(a, b)| (a.to_string(), b.to_string())).collect()
}

#[test]
fn basic_auth_header_encodes_the_credentials() {
    // base64("user:pass"), standard alphabet, no padding
    assert_eq!(basic_auth_header("user", "pass"), "Basic dXNlcjpwYXNz");
    // a length that would need padding has none
    assert_eq!(basic_auth_header("a", "b"), "Basic YTpi");
}

#[test]
fn api_url_joins_base_and_call_name() {
    assert_eq!(
        api_url("https://api004.backblazeb2.com", "b2_list_file_names"),
        "https://api004.backblazeb2.com/b2api/v2/b2_list_file_names"
    );
}

#[test]
fn part_url_query_encodes_the_file_handle() {
    assert_eq!(
        upload_part_url_query("https://api004.backblazeb2.com", "4_zid+1"),
        "https://api004.backblazeb2.com/b2api/v2/b2_get_upload_part_url?fileId=4_zid%2b1"
    );
}

#[test]
fn the_declared_content_type_lets_the_service_detect() {
    assert_eq!(mie_upload::client::auto_content_type(), "b2/x-auto");
}

#[test]
fn statuses_from_400_are_errors() {
    assert!(!is_error_status(200));
    assert!(!is_error_status(399));
    assert!(is_error_status(400));
    assert!(is_error_status(503));
}

#[test]
fn only_a_503_request_error_is_service_busy() {
    let busy = B2BasicError::RequestError(B2BasicErrorBody {
        status: 503,
        code: "service_unavailable".to_string(),
        message: "busy".to_string(),
    });
    assert!(is_service_busy(&busy));
    let not_busy = B2BasicError::RequestError(B2BasicErrorBody {
        status: 500,
        code: "internal_error".to_string(),
        message: "".to_string(),
    });
    assert!(!is_service_busy(&not_busy));
    assert!(!is_service_busy(&B2BasicError::RequestSendError("x".to_string())));
}

#[test]
fn transport_failure_classifies_as_send_error() {
    let res: Result<i32, B2BasicError> =
        handle_response(RawResponse::TransportFailed("timed out".to_string()));
    assert!(matches!(res, Err(B2BasicError::RequestSendError(ref m)) if m == "timed out"));
}

#[test]
fn error_status_carries_the_decoded_error_body() {
    let res: Result<i32, B2BasicError> = handle_response(RawResponse::Arrived(
        503,
        Err(String::new()),
        Some(B2BasicErrorBody {
            status: 503,
            code: "service_unavailable".to_string(),
            message: "try again".to_string(),
        }),
    ));
    match res {
        Err(B2BasicError::RequestError(body)) => {
            assert_eq!(body.status, 503);
            assert_eq!(body.code, "service_unavailable");
            assert_eq!(body.message, "try again");
        }
        other => panic!("expected a request error, got {:?}", other),
    }
}

#[test]
fn error_status_without_body_falls_back_to_the_status() {
    let res: Result<i32, B2BasicError> =
        handle_response(RawResponse::Arrived(404, Err(String::new()), None));
    match res {
        Err(B2BasicError::RequestError(body)) => {
            assert_eq!(body.status, 404);
            assert_eq!(body.code, "");
            assert_eq!(body.message, "");
        }
        other => panic!("expected a request error, got {:?}", other),
    }
}

#[test]
fn success_status_returns_the_decoded_body() {
    let res: Result<i32, B2BasicError> =
        handle_response(RawResponse::Arrived(200, Ok(42), None));
    assert!(matches!(res, Ok(42)));
}

#[test]
fn undecodable_success_body_is_a_parse_error() {
    let res: Result<i32, B2BasicError> = handle_response(RawResponse::Arrived(
        200,
        Err("expected value at line 1".to_string()),
        None,
    ));
    assert!(matches!(
        res,
        Err(B2BasicError::JsonParseError(ref m)) if m == "expected value at line 1"
    ));
}

#[test]
fn capability_lookup_is_pure() {
    let auth = B2AuthData {
        account_id: "acct".to_string(),
        authorization_token: "tok".to_string(),
        allowed: B2AuthDataAllowed {
            capabilities: vec![B2KeyCapabilities::ReadFiles, B2KeyCapabilities::WriteFiles],
            bucket_id: None,
            bucket_name: None,
            name_prefix: None,
        },
        api_url: "https://api.example".to_string(),
        download_url: "https://dl.example".to_string(),
        recommended_part_size: 100 * 1024 * 1024,
        absolute_minimum_part_size: 5 * 1024 * 1024,
        s3_api_url: "https://s3.example".to_string(),
    };
    assert!(auth.has_permission(B2KeyCapabilities::WriteFiles));
    assert!(!auth.has_permission(B2KeyCapabilities::DeleteFiles));
    assert!(auth.has_all_permissions(&vec![
        B2KeyCapabilities::ReadFiles,
        B2KeyCapabilities::WriteFiles,
    ]));
    assert!(!auth.has_all_permissions(&vec![
        B2KeyCapabilities::ReadFiles,
        B2KeyCapabilities::DeleteKeys,
    ]));
    assert_eq!(auth.get_authorization_token(), "tok");
}

fn upload_headers() -> B2UploadFileHeaders {
    B2UploadFileHeaders {
        authorization: "token".to_string(),
        file_name: "videos/cat.mp4".to_string(),
        content_type: "b2/x-auto".to_string(),
        content_length: 1048576,
        content_sha1: "a9993e364706816aba3e25717850c26c9cd0d89d".to_string(),
        src_last_modified_millis: None,
        b2_content_disposition: None,
        b2_content_language: None,
        b2_expires: None,
        b2_cache_control: None,
        b2_content_encoding: None,
        custom_upload_timestamp: None,
        legal_hold: None,
        retention_mode: None,
        retention_retain_until_timestamp: None,
        server_side_encryption: None,
        server_side_encryption_customer_algorithm: None,
        server_side_encryption_customer_key: None,
        server_side_encryption_customer_key_md5: None,
    }
}

#[test]
fn upload_headers_keep_the_fixed_wire_names() {
    let headers = upload_headers();
    assert_eq!(
        headers.header_pairs(),
        pairs(&[
            ("Authorization", "token"),
            ("X-Bz-File-Name", "videos/cat.mp4"),
            ("Content-Type", "b2/x-auto"),
            ("Content-Length", "1048576"),
            ("X-Bz-Content-Sha1", "a9993e364706816aba3e25717850c26c9cd0d89d"),
        ])
    );
}

#[test]
fn empty_and_absent_header_values_are_omitted() {
    let mut headers = upload_headers();
    headers.content_type = String::new();
    headers.legal_hold = Some(B2FileLegalHold::On);
    headers.b2_content_disposition = Some("attachment".to_string());
    headers.b2_expires = Some(String::new());
    assert_eq!(
        headers.header_pairs(),
        pairs(&[
            ("Authorization", "token"),
            ("X-Bz-File-Name", "videos/cat.mp4"),
            ("Content-Length", "1048576"),
            ("X-Bz-Content-Sha1", "a9993e364706816aba3e25717850c26c9cd0d89d"),
            ("X-Bz-Info-b2-content-disposition", "attachment"),
            ("X-Bz-File-Legal-Hold", "on"),
        ])
    );
}

#[test]
fn part_headers_render_the_part_number() {
    let headers = B2UploadPartHeaders {
        authorization: "part-token".to_string(),
        part_number: 7,
        content_length: 20971520,
        content_sha1: "da39a3ee5e6b4b0d3255bfef95601890afd80709".to_string(),
        server_side_encryption_customer_algorithm: None,
        server_side_encryption_customer_key: None,
        server_side_encryption_customer_key_md5: None,
    };
    assert_eq!(
        headers.header_pairs(),
        pairs(&[
            ("Authorization", "part-token"),
            ("X-Bz-Part-Number", "7"),
            ("Content-Length", "20971520"),
            ("X-Bz-Content-Sha1", "da39a3ee5e6b4b0d3255bfef95601890afd80709"),
        ])
    );
}

#[test]
fn metadata_maps_to_prefixed_headers() {
    let info = pairs(&[("author", "me"), ("empty", ""), ("note", "a%20b")]);
    assert_eq!(
        file_info_header_pairs(&info),
        pairs(&[("X-Bz-Info-author", "me"), ("X-Bz-Info-note", "a%20b")])
    );
}

#[test]
fn get_upload_url_body_is_exact_json() {
    let body = B2GetUploadUrlBody { bucket_id: "bucket-1".to_string() };
    assert_eq!(get_upload_url_body(&body), r#"{"bucketId":"bucket-1"}"#);
}

#[test]
fn json_strings_escape_quotes_and_controls() {
    let body = B2GetUploadUrlBody { bucket_id: "a\"b\\c\nd".to_string() };
    assert_eq!(get_upload_url_body(&body), "{\"bucketId\":\"a\\\"b\\\\c\\nd\"}");
    let body2 = B2GetUploadUrlBody { bucket_id: "\u{1}".to_string() };
    assert_eq!(get_upload_url_body(&body2), "{\"bucketId\":\"\\u0001\"}");
}

#[test]
fn start_large_file_body_without_metadata() {
    let body = B2StartLargeFileUploadBody {
        bucket_id: "bucket-1".to_string(),
        file_name: "videos/cat.mp4".to_string(),
        content_type: "b2/x-auto".to_string(),
        file_info: vec![],
    };
    assert_eq!(
        start_large_file_body(&body),
        r#"{"bucketId":"bucket-1","fileName":"videos/cat.mp4","contentType":"b2/x-auto"}"#
    );
}

#[test]
fn start_large_file_body_with_metadata() {
    let body = B2StartLargeFileUploadBody {
        bucket_id: "bucket-1".to_string(),
        file_name: "n".to_string(),
        content_type: "b2/x-auto".to_string(),
        file_info: pairs(&[("author", "me"), ("src", "web")]),
    };
    assert_eq!(
        start_large_file_body(&body),
        r#"{"bucketId":"bucket-1","fileName":"n","contentType":"b2/x-auto","fileInfo":{"author":"me","src":"web"}}"#
    );
}

#[test]
fn finish_large_file_body_lists_digests_in_order() {
    let body = B2FinishLargeFileBody {
        file_id: "4_z27c88f1d182b150646ff0b16_f200ec353a2184825_d20160409".to_string(),
        part_sha1_array: vec!["a".repeat(40), "b".repeat(40)],
    };
    let expected = format!(
        r#"{{"fileId":"4_z27c88f1d182b150646ff0b16_f200ec353a2184825_d20160409","partSha1Array":["{}","{}"]}}"#,
        "a".repeat(40),
        "b".repeat(40)
    );
    assert_eq!(finish_large_file_body(&body), expected);
}

#[test]
fn finish_body_of_one_part_has_no_comma() {
    let body = B2FinishLargeFileBody {
        file_id: "f".to_string(),
        part_sha1_array: vec!["c".repeat(40)],
    };
    assert_eq!(
        finish_large_file_body(&body),
        format!(r#"{{"fileId":"f","partSha1Array":["{}"]}}"#, "c".repeat(40))
    );
}

#[test]
fn list_files_body_leaves_absent_options_out() {
    let body = B2ListFilesBody {
        start_file_name: None,
        max_file_count: Some(100),
        prefix: Some("videos/".to_string()),
        delimiter: None,
        bucket_id: "bucket-1".to_string(),
    };
    assert_eq!(
        list_files_body(&body),
        r#"{"bucketId":"bucket-1","maxFileCount":100,"prefix":"videos/"}"#
    );
    let bare = B2ListFilesBody {
        start_file_name: None,
        max_file_count: None,
        prefix: None,
        delimiter: None,
        bucket_id: "b".to_string(),
    };
    assert_eq!(list_files_body(&bare), r#"{"bucketId":"b"}"#);
}
