use std::sync::Mutex;

use shendesk::domain::image::{CompressImagesRequest, CompressionProgress, CompressionStatus};
use shendesk::image_service::{
    ImageProcessResult, ImageProcessStatus, ImageProcessor, ImageService, ImageServiceError,
    ImageServiceErrorKind,
};
use shendesk::ipc_error::IpcErrorCode;
use shendesk::ipc_request::map_image_error;

#[derive(Debug, Default)]
struct RecordingProcessor {
    calls: Mutex<Vec<(String, String, u8)>>,
}

impl ImageProcessor for RecordingProcessor {
    fn process(
        &self,
        input: &str,
        output: &str,
        quality: u8,
    ) -> Result<ImageProcessResult, ImageServiceError> {
        self.calls
            .lock()
            .expect("calls lock")
            .push((input.to_owned(), output.to_owned(), quality));
        match input.rsplit('/').next() {
            Some("completed.jpg") => Ok(ImageProcessResult {
                status: ImageProcessStatus::Completed,
                original_bytes: 100,
                output_bytes: 60,
            }),
            Some("skipped.png") => Ok(ImageProcessResult {
                status: ImageProcessStatus::Skipped,
                original_bytes: 40,
                output_bytes: 40,
            }),
            _ => Err(ImageServiceError::new(ImageServiceErrorKind::Decoding, "private decoder detail")),
        }
    }
}

#[test]
fn processes_in_order_and_continues_after_item_failures() {
    let service = ImageService::new(RecordingProcessor::default());
    let mut events: Vec<CompressionProgress> = Vec::new();
    let result = service
        .compress_images(
            CompressImagesRequest {
                items: vec![
                    "/tmp/completed.jpg".to_owned(),
                    "/tmp/failed.jpg".to_owned(),
                    "/tmp/skipped.png".to_owned(),
                ],
                output_dir: "/tmp/output".to_owned(),
                quality: 75,
            },
            &mut events,
        )
        .expect("valid batch should complete");

    assert_eq!(result.total, 3);
    assert_eq!(result.succeeded, 1);
    assert_eq!(result.skipped, 1);
    assert_eq!(result.failed, 1);
    assert_eq!(result.total_original_bytes, 140);
    assert_eq!(result.total_compressed_bytes, 100);

    assert_eq!(events.len(), 6);
    assert_eq!(events[0].index, 1);
    assert_eq!(events[1].status, CompressionStatus::Completed);
    assert_eq!(events[3].status, CompressionStatus::Failed);
    assert_eq!(events[3].error.as_deref(), Some("无法读取图片内容。"));
    assert_eq!(events[5].status, CompressionStatus::Skipped);
    assert!(!events[3].error.as_deref().unwrap_or_default().contains("private"));

    let calls = service.processor().calls.lock().expect("calls lock");
    assert_eq!(calls[0].2, 75);
    assert_eq!(calls[0].1, "/tmp/output/completed.jpg");
}

#[test]
fn validates_the_batch_before_processing() {
    let service = ImageService::new(RecordingProcessor::default());

    for request in [
        CompressImagesRequest { items: Vec::new(), output_dir: "/tmp/output".to_owned(), quality: 75 },
        CompressImagesRequest {
            items: vec!["relative.jpg".to_owned()],
            output_dir: "/tmp/output".to_owned(),
            quality: 75,
        },
        CompressImagesRequest {
            items: vec!["/tmp/photo.jpg".to_owned()],
            output_dir: "/tmp/output".to_owned(),
            quality: 0,
        },
    ] {
        let mut events: Vec<CompressionProgress> = Vec::new();
        let error = service
            .compress_images(request, &mut events)
            .expect_err("invalid request should fail");
        assert_eq!(error.kind(), ImageServiceErrorKind::Validation);
        assert!(events.is_empty());
    }
    assert!(service.processor().calls.lock().expect("calls lock").is_empty());
}

#[test]
fn command_error_mapping_is_redacted() {
    let error = ImageServiceError::new(
        ImageServiceErrorKind::Output,
        "permission denied: /Users/example/private/output.jpg",
    );
    let mapped = map_image_error(error);

    assert_eq!(mapped.code, IpcErrorCode::ImageOutputFailed);
    assert!(!mapped.message.contains("/Users/example"));
}

#[test]
fn trims_paths_and_reports_the_trimmed_output_directory() {
    let service = ImageService::new(RecordingProcessor::default());
    let mut events: Vec<CompressionProgress> = Vec::new();
    let result = service
        .compress_images(
            CompressImagesRequest {
                items: vec!["  /tmp/completed.jpg ".to_owned()],
                output_dir: " /tmp/output ".to_owned(),
                quality: 100,
            },
            &mut events,
        )
        .expect("batch should complete");
    assert_eq!(result.output_dir, "/tmp/output");
    assert_eq!(events[0].file_name, "completed.jpg");
    assert_eq!(events[1].compressed_bytes, 60);
    assert_eq!(service.processor().calls.lock().expect("calls lock")[0].0, "/tmp/completed.jpg");
}

fn encoded(format: image::ImageFormat) -> Vec<u8> {
    let mut picture = image::RgbImage::new(32, 32);
    for (x, y, pixel) in picture.enumerate_pixels_mut() {
        *pixel = image::Rgb([(x * 8) as u8, (y * 8) as u8, 128]);
    }
    let mut bytes = std::io::Cursor::new(Vec::new());
    image::DynamicImage::ImageRgb8(picture)
        .write_to(&mut bytes, format)
        .expect("fixture should encode");
    bytes.into_inner()
}

#[test]
fn rejects_unsupported_extensions() {
    let error = shendesk::image_service::compress_image_bytes(vec![1, 2, 3], Some("gif"), 80)
        .expect_err("gif is unsupported");
    assert_eq!(error.kind(), ImageServiceErrorKind::Unsupported);
    let missing = shendesk::image_service::compress_image_bytes(vec![1, 2, 3], None, 80)
        .expect_err("missing extension");
    assert_eq!(missing.kind(), ImageServiceErrorKind::Unsupported);
    let corrupt = shendesk::image_service::compress_image_bytes(vec![1, 2, 3], Some("JPG"), 80)
        .expect_err("corrupt jpeg");
    assert_eq!(corrupt.kind(), ImageServiceErrorKind::Decoding);
}

#[test]
fn png_output_is_not_larger_and_remains_decodable() {
    let source = encoded(image::ImageFormat::Png);
    let (result, output) =
        shendesk::image_service::compress_image_bytes(source.clone(), Some("png"), 80)
            .expect("png should compress");
    assert!(output.len() <= source.len());
    assert_eq!(result.original_bytes, source.len() as u64);
    assert_eq!(result.output_bytes, output.len() as u64);
    image::load_from_memory_with_format(&output, image::ImageFormat::Png)
        .expect("output should decode");
}

#[test]
fn skipped_images_are_copied_byte_for_byte() {
    let source = encoded(image::ImageFormat::Jpeg);
    let (result, output) =
        shendesk::image_service::compress_image_bytes(source.clone(), Some("jpeg"), 100)
            .expect("jpeg should re-encode");
    if result.status == ImageProcessStatus::Skipped {
        assert_eq!(output, source);
    } else {
        assert!(output.len() < source.len());
    }
}
