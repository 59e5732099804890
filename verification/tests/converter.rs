use converter::download::{run_fetch, status_check, BoundedFetch};
use converter::model::{
    failure_result, success_result, DownloadResult, DownloadTask, NetworkError, ProcessingResult,
};
use converter::codec::{decimal_string, encode_result};
use converter::pipeline::plan_uploads;
use converter::processing::process_image;
use converter::worker::{worker_step, PollEvent, WorkerAction};
use converter::DOWNLOAD_SIZE_LIMIT;

use image::GenericImageView;

fn sample_jpeg(width: u32, height: u32) -> Vec<u8> {
    let img = image::RgbImage::from_fn(width, height, |x, y| {
        image::Rgb([(x % 256) as u8, (y % 256) as u8, 100])
    });
    let mut bytes: Vec<u8> = Vec::new();
    image::DynamicImage::ImageRgb8(img)
        .write_to(
            &mut std::io::Cursor::new(&mut bytes),
            image::ImageFormat::Jpeg,
        )
        .expect("encoding a sample image");
    bytes
}

fn jpeg_dimensions(bytes: &[u8]) -> (u32, u32) {
    image::load_from_memory_with_format(bytes, image::ImageFormat::Jpeg)
        .expect("decoding")
        .dimensions()
}

fn sample_task() -> DownloadTask {
    DownloadTask {
        correlation_id: 7,
        url: String::from("http://example.invalid/cat.jpg"),
        target_path: String::from("images/cat.jpg"),
        target_thumbnail_path: String::from("thumbs/cat.jpg"),
    }
}

#[test]
fn successful_job_yields_both_payloads() {
    let body = sample_jpeg(300, 200);
    let chunks = vec![body.clone()];
    let fetched = run_fetch(200, Some("OK"), &chunks).expect("status 200 within the cap");
    assert_eq!(fetched, body);

    let plan = plan_uploads(&sample_task(), fetched).expect("a decodable body");
    assert_eq!(plan.correlation_id, 7);
    assert_eq!(plan.original, body);
    assert_eq!(plan.original_path, "images/cat.jpg");
    assert_eq!(plan.thumbnail_path, "thumbs/cat.jpg");

    let (w, h) = jpeg_dimensions(&plan.thumbnail);
    assert!(w <= 128 && h <= 128);
    assert!(w == 128 || h == 128);
    assert_ne!(plan.thumbnail, plan.original);

    let record = encode_result(&success_result(plan.correlation_id));
    assert_eq!(
        record,
        b"{\"correlation_id\":7,\"res\":\"Ok\",\"description\":\"\"}".to_vec()
    );
}

#[test]
fn small_image_is_not_padded_past_its_size() {
    let body = sample_jpeg(16, 8);
    let (_, thumb) = process_image(body).expect("a decodable body");
    let (w, h) = jpeg_dimensions(&thumb);
    assert!(w <= 128 && h <= 128);
}

#[test]
fn processing_is_idempotent_on_dimensions() {
    let body = sample_jpeg(257, 131);
    let (_, first) = process_image(body.clone()).expect("a decodable body");
    let (_, second) = process_image(body).expect("a decodable body");
    assert_eq!(jpeg_dimensions(&first), jpeg_dimensions(&second));
}

#[test]
fn original_bytes_are_returned_unmodified() {
    let body = sample_jpeg(40, 40);
    let (original, _) = process_image(body.clone()).expect("a decodable body");
    assert_eq!(original, body);
}

#[test]
fn undecodable_body_fails_the_job() {
    let task = sample_task();
    let record = plan_uploads(&task, b"not a jpeg".to_vec()).expect_err("no JPEG here");
    assert_eq!(record.correlation_id, 7);
    assert_eq!(record.res, ProcessingResult::Failed);
    assert!(!record.description.is_empty());
}

#[test]
fn non_200_status_is_a_download_error() {
    let chunks: Vec<Vec<u8>> = vec![vec![1, 2, 3]];
    let err = run_fetch(404, Some("Not Found"), &chunks).expect_err("status is not 200");
    match &err {
        NetworkError::DownloadError(reason) => assert_eq!(reason, "Not Found"),
        other => panic!("wrong failure kind: {}", other.describe()),
    }
    assert_eq!(err.describe(), "DownloadError: Not Found");
}

#[test]
fn unknown_status_reason_gets_generic_text() {
    let err = status_check(599, None).expect_err("status is not 200");
    assert_eq!(err.describe(), "DownloadError: Unknown HTTP error");
}

#[test]
fn status_200_is_accepted() {
    assert!(status_check(200, Some("OK")).is_ok());
}

#[test]
fn fetch_aborts_past_the_size_cap() {
    let chunks = vec![vec![0u8; DOWNLOAD_SIZE_LIMIT], vec![0u8]];
    let err = run_fetch(200, Some("OK"), &chunks).expect_err("one byte over the cap");
    match err {
        NetworkError::DownloadSizeLimitReached(n) => assert_eq!(n, DOWNLOAD_SIZE_LIMIT + 1),
        other => panic!("wrong failure kind: {}", other.describe()),
    }
}

#[test]
fn fetch_accepts_exactly_the_cap() {
    let chunks = vec![vec![7u8; DOWNLOAD_SIZE_LIMIT]];
    let body = run_fetch(200, Some("OK"), &chunks).expect("exactly the cap is allowed");
    assert_eq!(body.len(), DOWNLOAD_SIZE_LIMIT);
}

#[test]
fn bounded_fetch_reports_count_at_abort() {
    let mut fetch = BoundedFetch::new();
    fetch.push_chunk(&[1u8; 1000]).expect("well under the cap");
    assert_eq!(fetch.len(), 1000);
    let big = vec![0u8; DOWNLOAD_SIZE_LIMIT];
    let err = fetch.push_chunk(&big).expect_err("past the cap");
    match err {
        NetworkError::DownloadSizeLimitReached(n) => assert_eq!(n, DOWNLOAD_SIZE_LIMIT + 1000),
        other => panic!("wrong failure kind: {}", other.describe()),
    }
    assert_eq!(fetch.len(), 1000);
}

#[test]
fn size_limit_failure_names_the_byte_count() {
    let err = NetworkError::DownloadSizeLimitReached(20971521);
    assert_eq!(err.describe(), "DownloadSizeLimitReached: 20971521");
    let record = failure_result(3, &err);
    assert_eq!(record.correlation_id, 3);
    assert_eq!(record.res, ProcessingResult::Failed);
    assert_eq!(record.description, "DownloadSizeLimitReached: 20971521");
}

#[test]
fn upload_failures_carry_their_kind() {
    let bucket = NetworkError::UploadBucketAccessError(String::from("bad endpoint"));
    assert_eq!(bucket.describe(), "UploadBucketAccessError: bad endpoint");
    let put = NetworkError::UploadPutError(String::from("put refused"));
    assert_eq!(put.describe(), "UploadPutError: put refused");
}

#[test]
fn decimal_rendering_is_exact() {
    assert_eq!(decimal_string(0), "0");
    assert_eq!(decimal_string(10), "10");
    assert_eq!(decimal_string(1000), "1000");
    assert_eq!(decimal_string(4294967295), "4294967295");
}

#[test]
fn encoded_record_is_plain_json() {
    let record = DownloadResult {
        correlation_id: 42,
        res: ProcessingResult::Failed,
        description: String::from("DownloadError: Not Found"),
    };
    let bytes = encode_result(&record);
    assert_eq!(
        bytes,
        b"{\"correlation_id\":42,\"res\":\"Error\",\"description\":\"DownloadError: Not Found\"}"
            .to_vec()
    );
}

#[test]
fn encoded_record_escapes_the_description() {
    let record = DownloadResult {
        correlation_id: 2,
        res: ProcessingResult::Failed,
        description: String::from("a\"b\\c\nd"),
    };
    let bytes = encode_result(&record);
    assert_eq!(
        bytes,
        b"{\"correlation_id\":2,\"res\":\"Error\",\"description\":\"a\\\"b\\\\c\\u000ad\"}"
            .to_vec()
    );
}

#[test]
fn encoded_record_parses_back_with_a_json_parser() {
    let record = DownloadResult {
        correlation_id: 9,
        res: ProcessingResult::Failed,
        description: String::from("odd text: \"quoted\\slash\"\n\ttail \u{00e9}"),
    };
    let bytes = encode_result(&record);
    let value: serde_json::Value = serde_json::from_slice(&bytes).expect("well-formed JSON");
    assert_eq!(value.get("correlation_id").unwrap().as_u64(), Some(9));
    assert_eq!(value.get("res").unwrap().as_str(), Some("Error"));
    assert_eq!(
        value.get("description").unwrap().as_str(),
        Some("odd text: \"quoted\\slash\"\n\ttail \u{00e9}")
    );
}

#[test]
fn transport_failure_keeps_polling() {
    let action = worker_step(PollEvent::ReceiveFailed);
    assert!(matches!(action, WorkerAction::KeepPolling));
}

#[test]
fn empty_payload_is_acknowledged_without_a_record() {
    let action = worker_step(PollEvent::EmptyPayload);
    assert!(matches!(action, WorkerAction::AcknowledgeOnly));
}

#[test]
fn malformed_payload_is_acknowledged_without_a_record() {
    let action = worker_step(PollEvent::ParseFailed);
    assert!(matches!(action, WorkerAction::AcknowledgeOnly));
}

#[test]
fn parsed_task_runs_the_job() {
    let action = worker_step(PollEvent::Parsed(sample_task()));
    match action {
        WorkerAction::RunJob(task) => assert_eq!(task.correlation_id, 7),
        WorkerAction::KeepPolling | WorkerAction::AcknowledgeOnly => {
            panic!("a parsed task must run")
        }
    }
}
