//! Batch image compression: validate the whole batch first, then hand each image to the
//! processor in order, reporting progress before and after each one and carrying on past
//! images that fail.
use vstd::prelude::*;

use crate::domain::image::{
    CompressImagesRequest, CompressImagesResult, CompressionProgress, CompressionStatus,
};
use crate::path::{path_file_name, path_is_absolute, path_join, spec_path_file_name, spec_path_is_absolute, spec_path_join};
use crate::text::{ascii_lower_seq, eq_ignore_ascii_case, trim, trim_seq};

verus! {

#[derive(Debug, Clone, Copy, PartialEq, Eq, Structural)]
pub enum ImageServiceErrorKind {
    Validation,
    Decoding,
    Encoding,
    Unsupported,
    Output,
    Operation,
}

/// The user-facing text for each kind of image error; it never carries internal details.
pub open spec fn image_safe_message(kind: ImageServiceErrorKind) -> Seq<char> {
    match kind {
        ImageServiceErrorKind::Validation => "提交的数据无效，请检查后重试。"@,
        ImageServiceErrorKind::Decoding => "无法读取图片内容。"@,
        ImageServiceErrorKind::Encoding => "图片压缩失败。"@,
        ImageServiceErrorKind::Unsupported => "仅支持 PNG 和 JPEG 图片。"@,
        ImageServiceErrorKind::Output => "无法写入输出文件，文件可能已存在或目录不可写。"@,
        ImageServiceErrorKind::Operation => "图片处理失败，请重试。"@,
    }
}

/// An image error: a stable kind and an internal message that is only logged.
#[derive(Debug)]
pub struct ImageServiceError {
    kind: ImageServiceErrorKind,
    message: String,
}

impl ImageServiceError {
    pub closed spec fn spec_kind(&self) -> ImageServiceErrorKind {
        self.kind
    }

    pub closed spec fn spec_message(&self) -> Seq<char> {
        self.message@
    }

    pub fn new(kind: ImageServiceErrorKind, message: &str) -> (r: Self)
        ensures
            r.spec_kind() == kind,
            r.spec_message() == message@,
    {
        ImageServiceError { kind, message: message.to_owned() }
    }

    pub fn validation(message: &str) -> (r: Self)
        ensures
            r.spec_kind() == ImageServiceErrorKind::Validation,
            r.spec_message() == message@,
    {
        Self::new(ImageServiceErrorKind::Validation, message)
    }

    pub fn kind(&self) -> (r: ImageServiceErrorKind)
        ensures
            r == self.spec_kind(),
    {
        self.kind
    }

    pub fn message(&self) -> (r: &str)
        ensures
            r@ == self.spec_message(),
    {
        self.message.as_str()
    }

    /// The user-facing text for this error's kind.
    pub fn safe_message(&self) -> (r: &'static str)
        ensures
            r@ == image_safe_message(self.spec_kind()),
    {
        match self.kind {
            ImageServiceErrorKind::Validation => "提交的数据无效，请检查后重试。",
            ImageServiceErrorKind::Decoding => "无法读取图片内容。",
            ImageServiceErrorKind::Encoding => "图片压缩失败。",
            ImageServiceErrorKind::Unsupported => "仅支持 PNG 和 JPEG 图片。",
            ImageServiceErrorKind::Output => "无法写入输出文件，文件可能已存在或目录不可写。",
            ImageServiceErrorKind::Operation => "图片处理失败，请重试。",
        }
    }
}

#[derive(Debug, Clone, Copy, PartialEq, Eq, Structural)]
pub enum ImageProcessStatus {
    Completed,
    Skipped,
}

/// What the processor did with one image.
#[derive(Debug, Clone, Copy, PartialEq, Eq, Structural)]
pub struct ImageProcessResult {
    pub status: ImageProcessStatus,
    pub original_bytes: u64,
    pub output_bytes: u64,
}

/// Compresses one image file into a new output file.
///
/// The contract of `process` holds of an implementation whose `obeys_processor_contract` is
/// `true`: one whose answer is a function of its arguments, as `outcome` gives it. An
/// implementation outside verified code keeps the default `false`, and then the contract
/// claims nothing of it.
pub trait ImageProcessor {
    /// Whether this implementation keeps the contract of `process`.
    closed spec fn obeys_processor_contract() -> bool {
        false
    }

    /// What processing `input` into `output` at `quality` gives: the result, or the kind of
    /// the failure.
    closed spec fn outcome(&self, input: Seq<char>, output: Seq<char>, quality: u8) -> Result<
        ImageProcessResult,
        ImageServiceErrorKind,
    > {
        Err(ImageServiceErrorKind::Operation)
    }

    fn process(&self, input: &str, output: &str, quality: u8) -> (r: Result<
        ImageProcessResult,
        ImageServiceError,
    >)
        ensures
            Self::obeys_processor_contract() ==> match self.outcome(input@, output@, quality) {
                Ok(result) => r == Ok::<ImageProcessResult, ImageServiceError>(result),
                Err(kind) => r matches Err(e) && e.spec_kind() == kind,
            },
    ;
}

/// The output path of `item` in `output_dir`: its file name joined to the trimmed directory.
pub open spec fn image_output_path(output_dir: Seq<char>, item: Seq<char>) -> Seq<char> {
    spec_path_join(trim_seq(output_dir), image_file_name(item))
}

/// Whether the outcome report `report` tells what the processor answered.
pub open spec fn reports_outcome(
    report: CompressionProgress,
    answer: Result<ImageProcessResult, ImageServiceErrorKind>,
) -> bool {
    match answer {
        Ok(result) => {
            &&& report.status == if result.status == ImageProcessStatus::Completed {
                CompressionStatus::Completed
            } else {
                CompressionStatus::Skipped
            }
            &&& report.original_bytes == result.original_bytes
            &&& report.compressed_bytes == result.output_bytes
        },
        Err(kind) => {
            &&& report.status == CompressionStatus::Failed
            &&& report.error matches Some(text) && text@ == image_safe_message(kind)
        },
    }
}

/// The encoders the processor has: JPEG and PNG.
#[derive(Debug, Clone, Copy, PartialEq, Eq, Structural)]
pub enum ImageCodec {
    Jpeg,
    Png,
}

/// The codec a file extension selects, compared without regard to ASCII case.
pub open spec fn codec_for(extension: Seq<char>) -> Option<ImageCodec> {
    let lower = ascii_lower_seq(extension);
    if lower == "jpg"@ || lower == "jpeg"@ {
        Some(ImageCodec::Jpeg)
    } else if lower == "png"@ {
        Some(ImageCodec::Png)
    } else {
        None
    }
}

/// The codec for an image's extension; a missing or unknown extension is unsupported.
pub fn codec_for_extension(extension: Option<&str>) -> (r: Result<ImageCodec, ImageServiceError>)
    ensures
        match extension {
            Some(text) => match codec_for(text@) {
                Some(codec) => r matches Ok(c) && c == codec,
                None => r matches Err(e) && e.spec_kind() == ImageServiceErrorKind::Unsupported,
            },
            None => r matches Err(e) && e.spec_kind() == ImageServiceErrorKind::Unsupported,
        },
{
    match extension {
        Some(text) => if eq_ignore_ascii_case(text, "jpg") || eq_ignore_ascii_case(text, "jpeg") {
            Ok(ImageCodec::Jpeg)
        } else if eq_ignore_ascii_case(text, "png") {
            Ok(ImageCodec::Png)
        } else {
            Err(ImageServiceError::new(ImageServiceErrorKind::Unsupported, "unsupported image extension"))
        },
        None => Err(
            ImageServiceError::new(
                ImageServiceErrorKind::Unsupported,
                "image extension is missing or invalid",
            ),
        ),
    }
}

#[verifier::external_type_specification]
#[verifier::external_body]
pub struct ExDynamicImage(image::DynamicImage);

/// Whether `image::load_from_memory_with_format` decodes `source` as PNG (`png`) or JPEG.
pub uninterp spec fn spec_image_decodes(source: Seq<u8>, png: bool) -> bool;

/// Calls `image::load_from_memory_with_format` on `source` with `ImageFormat::Png` when `png`
/// holds and `ImageFormat::Jpeg` otherwise; `None` when decoding fails.
#[verifier::external_body]
fn decode_image(source: &[u8], png: bool) -> (r: Option<image::DynamicImage>)
    ensures
        r is Some <==> spec_image_decodes(source@, png),
{
    let format = if png {
        image::ImageFormat::Png
    } else {
        image::ImageFormat::Jpeg
    };
    image::load_from_memory_with_format(source, format).ok()
}

/// What `JpegEncoder::new_with_quality(_, quality).encode_image` writes for the image that
/// `image::load_from_memory_with_format(source, ImageFormat::Jpeg)` decodes; `None` when the
/// encoder fails.
pub uninterp spec fn spec_jpeg_reencode(source: Seq<u8>, quality: u8) -> Option<Seq<u8>>;

/// What `oxipng::optimize_from_memory(source, &Options::from_preset(2))` returns; `None` when
/// it fails.
pub uninterp spec fn spec_oxipng_optimize(source: Seq<u8>) -> Option<Seq<u8>>;

/// The outcome of re-encoding a JPEG: it did not decode, it did not encode, or its new bytes.
pub enum JpegReencode {
    NotDecoded,
    NotEncoded,
    Encoded(Vec<u8>),
}

/// Decodes `source` with `image::load_from_memory_with_format(_, ImageFormat::Jpeg)` and
/// encodes the image with `image::codecs::jpeg::JpegEncoder::new_with_quality(_, quality)`
/// and its `encode_image`.
#[verifier::external_body]
fn reencode_jpeg(source: &[u8], quality: u8) -> (r: JpegReencode)
    ensures
        match r {
            JpegReencode::NotDecoded => !spec_image_decodes(source@, false),
            JpegReencode::NotEncoded => spec_image_decodes(source@, false)
                && spec_jpeg_reencode(source@, quality) is None,
            JpegReencode::Encoded(output) => spec_image_decodes(source@, false)
                && spec_jpeg_reencode(source@, quality) == Some(output@),
        },
{
    let picture = match image::load_from_memory_with_format(source, image::ImageFormat::Jpeg) {
        Ok(picture) => picture,
        Err(_) => return JpegReencode::NotDecoded,
    };
    let mut output = Vec::new();
    match image::codecs::jpeg::JpegEncoder::new_with_quality(&mut output, quality).encode_image(&picture) {
        Ok(()) => JpegReencode::Encoded(output),
        Err(_) => JpegReencode::NotEncoded,
    }
}

/// Calls `oxipng::optimize_from_memory` on `source` with `Options::from_preset(2)`; `None`
/// when it fails.
#[verifier::external_body]
fn optimize_png(source: &[u8]) -> (r: Option<Vec<u8>>)
    ensures
        match r {
            Some(output) => spec_oxipng_optimize(source@) == Some(output@),
            None => spec_oxipng_optimize(source@) is None,
        },
{
    oxipng::optimize_from_memory(source, &oxipng::Options::from_preset(2)).ok()
}

/// What compressing `source` with `codec` gives: the new bytes, or the kind of the failure.
pub open spec fn compressed(codec: ImageCodec, source: Seq<u8>, quality: u8) -> Result<
    Seq<u8>,
    ImageServiceErrorKind,
> {
    match codec {
        ImageCodec::Jpeg => if !spec_image_decodes(source, false) {
            Err(ImageServiceErrorKind::Decoding)
        } else {
            match spec_jpeg_reencode(source, quality) {
                Some(output) => Ok(output),
                None => Err(ImageServiceErrorKind::Encoding),
            }
        },
        ImageCodec::Png => if !spec_image_decodes(source, true) {
            Err(ImageServiceErrorKind::Decoding)
        } else {
            match spec_oxipng_optimize(source) {
                Some(output) => Ok(output),
                None => Err(ImageServiceErrorKind::Encoding),
            }
        },
    }
}

/// Whether `r` is the outcome `expected` describes.
pub open spec fn is_compression(
    r: Result<Vec<u8>, ImageServiceError>,
    expected: Result<Seq<u8>, ImageServiceErrorKind>,
) -> bool {
    match expected {
        Ok(output) => r matches Ok(bytes) && bytes@ == output,
        Err(kind) => r matches Err(e) && e.spec_kind() == kind,
    }
}

/// Re-encodes a JPEG at `quality`.
pub fn compress_jpeg(source: &[u8], quality: u8) -> (r: Result<Vec<u8>, ImageServiceError>)
    ensures
        is_compression(r, compressed(ImageCodec::Jpeg, source@, quality)),
{
    match reencode_jpeg(source, quality) {
        JpegReencode::NotDecoded => Err(
            ImageServiceError::new(ImageServiceErrorKind::Decoding, "failed to decode JPEG"),
        ),
        JpegReencode::NotEncoded => Err(
            ImageServiceError::new(ImageServiceErrorKind::Encoding, "failed to encode JPEG"),
        ),
        JpegReencode::Encoded(output) => Ok(output),
    }
}

/// Optimizes a PNG losslessly, once it is known to decode.
pub fn compress_png(source: &[u8]) -> (r: Result<Vec<u8>, ImageServiceError>)
    ensures
        is_compression(r, compressed(ImageCodec::Png, source@, 0)),
{
    if decode_image(source, true).is_none() {
        return Err(ImageServiceError::new(ImageServiceErrorKind::Decoding, "failed to decode PNG"));
    }
    match optimize_png(source) {
        Some(output) => Ok(output),
        None => Err(ImageServiceError::new(ImageServiceErrorKind::Encoding, "failed to optimize PNG")),
    }
}

/// Keeps the compressed bytes only when they are smaller; otherwise the original is kept and
/// the image counts as skipped.
pub fn choose_output(source: Vec<u8>, compressed: Vec<u8>) -> (r: (ImageProcessResult, Vec<u8>))
    ensures
        compressed@.len() < source@.len() ==> r.0.status == ImageProcessStatus::Completed
            && r.1@ == compressed@,
        compressed@.len() >= source@.len() ==> r.0.status == ImageProcessStatus::Skipped
            && r.1@ == source@,
        r.0.original_bytes == source@.len(),
        r.0.output_bytes == r.1@.len(),
{
    let original_bytes = source.len() as u64;
    if compressed.len() < source.len() {
        let output_bytes = compressed.len() as u64;
        (ImageProcessResult { status: ImageProcessStatus::Completed, original_bytes, output_bytes }, compressed)
    } else {
        let output_bytes = source.len() as u64;
        (ImageProcessResult { status: ImageProcessStatus::Skipped, original_bytes, output_bytes }, source)
    }
}

/// Compresses the bytes of an image with the given extension; returns what to report and the
/// bytes to write.
pub fn compress_image_bytes(source: Vec<u8>, extension: Option<&str>, quality: u8) -> (r: Result<
    (ImageProcessResult, Vec<u8>),
    ImageServiceError,
>)
    ensures
        match extension {
            Some(text) => match codec_for(text@) {
                None => r matches Err(e) && e.spec_kind() == ImageServiceErrorKind::Unsupported,
                Some(codec) => match compressed(codec, source@, quality) {
                    Ok(output) => r matches Ok((result, bytes)) && {
                        &&& result.original_bytes == source@.len()
                        &&& result.output_bytes == bytes@.len()
                        &&& if output.len() < source@.len() {
                            result.status == ImageProcessStatus::Completed && bytes@ == output
                        } else {
                            result.status == ImageProcessStatus::Skipped && bytes@ == source@
                        }
                    },
                    Err(kind) => r matches Err(e) && e.spec_kind() == kind,
                },
            },
            None => r matches Err(e) && e.spec_kind() == ImageServiceErrorKind::Unsupported,
        },
        r matches Ok((result, output)) ==> {
            &&& result.original_bytes == source@.len()
            &&& result.output_bytes == output@.len()
            &&& output@.len() <= source@.len()
            &&& result.status == ImageProcessStatus::Skipped ==> output@ == source@
        },
{
    let codec = match codec_for_extension(extension) {
        Ok(codec) => codec,
        Err(error) => {
            return Err(error);
        },
    };
    let attempt = match codec {
        ImageCodec::Jpeg => compress_jpeg(source.as_slice(), quality),
        ImageCodec::Png => compress_png(source.as_slice()),
    };
    match attempt {
        Ok(output) => Ok(choose_output(source, output)),
        Err(error) => Err(error),
    }
}

/// Where compression progress goes, in the order it is reported.
pub trait CompressionProgressSink {
    spec fn reported(&self) -> Seq<CompressionProgress>;

    fn report(&mut self, progress: CompressionProgress)
        ensures
            final(self).reported() == old(self).reported().push(progress),
    ;
}

impl CompressionProgressSink for Vec<CompressionProgress> {
    open spec fn reported(&self) -> Seq<CompressionProgress> {
        self@
    }

    fn report(&mut self, progress: CompressionProgress) {
        self.push(progress);
    }
}

/// A non-empty absolute path once surrounding whitespace is removed.
pub open spec fn is_valid_absolute_path(value: Seq<char>) -> bool {
    let path = trim_seq(value);
    path.len() > 0 && spec_path_is_absolute(path)
}

/// An image path: absolute, and naming a file.
pub open spec fn is_valid_image_path(value: Seq<char>) -> bool {
    is_valid_absolute_path(value) && spec_path_file_name(trim_seq(value)) is Some
}

/// The whole batch is acceptable: at least one image, quality 1 to 100, an absolute output
/// directory and valid image paths.
pub open spec fn is_valid_compress_request(request: CompressImagesRequest) -> bool {
    &&& request.items@.len() > 0
    &&& 1 <= request.quality <= 100
    &&& is_valid_absolute_path(request.output_dir@)
    &&& forall|i: int|
        0 <= i < request.items@.len() ==> is_valid_image_path(#[trigger] request.items@[i]@)
}

/// The file name of a (valid) image path.
pub open spec fn image_file_name(item: Seq<char>) -> Seq<char> {
    spec_path_file_name(trim_seq(item))->0
}

pub open spec fn saturating_sum(a: u64, b: u64) -> u64 {
    if a + b > u64::MAX {
        u64::MAX
    } else {
        (a + b) as u64
    }
}

/// The outcome reports of a batch: every second report, starting after the first.
pub open spec fn outcome_reports(reports: Seq<CompressionProgress>) -> Seq<CompressionProgress> {
    Seq::new(reports.len() / 2, |k: int| reports[2 * k + 1])
}

pub open spec fn count_status(outcomes: Seq<CompressionProgress>, status: CompressionStatus) -> nat
    decreases outcomes.len(),
{
    if outcomes.len() == 0 {
        0
    } else {
        count_status(outcomes.drop_last(), status) + if outcomes.last().status == status {
            1nat
        } else {
            0nat
        }
    }
}

/// Original sizes added up, stopping at `u64::MAX`.
pub open spec fn total_original(outcomes: Seq<CompressionProgress>) -> u64
    decreases outcomes.len(),
{
    if outcomes.len() == 0 {
        0
    } else {
        saturating_sum(total_original(outcomes.drop_last()), outcomes.last().original_bytes)
    }
}

/// Compressed sizes added up, stopping at `u64::MAX`.
pub open spec fn total_compressed(outcomes: Seq<CompressionProgress>) -> u64
    decreases outcomes.len(),
{
    if outcomes.len() == 0 {
        0
    } else {
        saturating_sum(total_compressed(outcomes.drop_last()), outcomes.last().compressed_bytes)
    }
}

/// The two reports of image `k` (counting from 0) of a batch of `total`: `Processing`, then
/// its outcome. A failure carries only the user-facing text of its kind, and no sizes.
pub open spec fn reports_image(
    first: CompressionProgress,
    outcome: CompressionProgress,
    k: int,
    total: nat,
    file_name: Seq<char>,
) -> bool {
    &&& first.index == k + 1
    &&& first.total == total
    &&& first.file_name@ == file_name
    &&& first.status == CompressionStatus::Processing
    &&& first.original_bytes == 0
    &&& first.compressed_bytes == 0
    &&& first.error is None
    &&& outcome.index == k + 1
    &&& outcome.total == total
    &&& outcome.file_name@ == file_name
    &&& outcome.status != CompressionStatus::Processing
    &&& if outcome.status == CompressionStatus::Failed {
        &&& outcome.original_bytes == 0
        &&& outcome.compressed_bytes == 0
        &&& outcome.error matches Some(text) && exists|kind: ImageServiceErrorKind|
            text@ == #[trigger] image_safe_message(kind)
    } else {
        outcome.error is None
    }
}

/// Checks a path and returns it without surrounding whitespace.
pub fn validate_absolute_path(value: &str, label: &str) -> (r: Result<String, ImageServiceError>)
    ensures
        r is Ok <==> is_valid_absolute_path(value@),
        r matches Ok(path) ==> path@ == trim_seq(value@),
        r matches Err(e) ==> e.spec_kind() == ImageServiceErrorKind::Validation,
{
    let value = trim(value);
    if value.unicode_len() == 0 || !path_is_absolute(value) {
        let mut message = String::from_str(label);
        message.append(" must be an absolute path");
        return Err(ImageServiceError::validation(message.as_str()));
    }
    Ok(value.to_owned())
}

/// Checks the whole batch; returns the trimmed image paths and output directory.
pub fn validate_request(request: &CompressImagesRequest) -> (r: Result<
    (Vec<String>, String),
    ImageServiceError,
>)
    ensures
        r is Ok <==> is_valid_compress_request(*request),
        r matches Err(e) ==> e.spec_kind() == ImageServiceErrorKind::Validation,
        r matches Ok((items, output_dir)) ==> {
            &&& output_dir@ == trim_seq(request.output_dir@)
            &&& items@.len() == request.items@.len()
            &&& forall|i: int|
                0 <= i < items@.len() ==> (#[trigger] items@[i])@ == trim_seq(request.items@[i]@)
        },
{
    if request.items.len() == 0 {
        return Err(ImageServiceError::validation("at least one image is required"));
    }
    if !(1 <= request.quality && request.quality <= 100) {
        return Err(ImageServiceError::validation("quality must be between 1 and 100"));
    }
    let output_dir = validate_absolute_path(request.output_dir.as_str(), "output directory")?;
    let mut items: Vec<String> = Vec::new();
    let mut i: usize = 0;
    while i < request.items.len()
        invariant
            0 <= i <= request.items@.len(),
            items@.len() == i,
            is_valid_absolute_path(request.output_dir@),
            1 <= request.quality <= 100,
            request.items@.len() > 0,
            forall|k: int| 0 <= k < i ==> (#[trigger] items@[k])@ == trim_seq(request.items@[k]@),
            forall|k: int| 0 <= k < i ==> is_valid_image_path(#[trigger] request.items@[k]@),
        decreases request.items@.len() - i,
    {
        let path = validate_absolute_path(request.items[i].as_str(), "image path")?;
        if path_file_name(path.as_str()).is_none() {
            return Err(ImageServiceError::validation("image path must include a file name"));
        }
        let ghost item = request.items@[i as int]@;
        assert(is_valid_image_path(item));
        items.push(path);
        i = i + 1;
    }
    Ok((items, output_dir))
}

pub struct ImageService<P> {
    processor: P,
}

impl<P: ImageProcessor> ImageService<P> {
    pub closed spec fn spec_processor(&self) -> P {
        self.processor
    }

    pub fn new(processor: P) -> (r: Self)
        ensures
            r.spec_processor() == processor,
    {
        ImageService { processor }
    }

    pub fn processor(&self) -> (r: &P)
        ensures
            *r == self.spec_processor(),
    {
        &self.processor
    }

    /// Compresses every image of `request` into its output directory, in order. Each image is
    /// reported as `Processing` and then with its outcome; a failed image does not stop the
    /// batch. The result counts the outcomes and adds up the sizes.
    pub fn compress_images<S: CompressionProgressSink>(
        &self,
        request: CompressImagesRequest,
        on_progress: &mut S,
    ) -> (r: Result<CompressImagesResult, ImageServiceError>)
        ensures
            r is Ok <==> is_valid_compress_request(request),
            r matches Err(e) ==> {
                &&& e.spec_kind() == ImageServiceErrorKind::Validation
                &&& final(on_progress).reported() == old(on_progress).reported()
            },
            r matches Ok(result) ==> {
                let n = request.items@.len();
                let before = old(on_progress).reported().len();
                let reports = final(on_progress).reported().subrange(
                    before as int,
                    final(on_progress).reported().len() as int,
                );
                let outcomes = outcome_reports(reports);
                &&& final(on_progress).reported().subrange(0, before as int) == old(
                    on_progress,
                ).reported()
                &&& reports.len() == 2 * n
                &&& forall|k: int|
                    0 <= k < n ==> reports_image(
                        #[trigger] reports[2 * k],
                        reports[2 * k + 1],
                        k,
                        n,
                        image_file_name(request.items@[k]@),
                    )
                &&& result.total == n
                &&& result.output_dir@ == trim_seq(request.output_dir@)
                &&& result.succeeded == count_status(outcomes, CompressionStatus::Completed)
                &&& result.skipped == count_status(outcomes, CompressionStatus::Skipped)
                &&& result.failed == count_status(outcomes, CompressionStatus::Failed)
                &&& result.succeeded + result.skipped + result.failed == n
                &&& result.total_original_bytes == total_original(outcomes)
                &&& result.total_compressed_bytes == total_compressed(outcomes)
                &&& P::obeys_processor_contract() ==> forall|k: int|
                    0 <= k < n ==> reports_outcome(
                        #[trigger] reports[2 * k + 1],
                        self.spec_processor().outcome(
                            trim_seq(request.items@[k]@),
                            image_output_path(request.output_dir@, request.items@[k]@),
                            request.quality,
                        ),
                    )
            },
    {
        let (items, output_dir) = validate_request(&request)?;
        let total = items.len();
        let mut succeeded: usize = 0;
        let mut skipped: usize = 0;
        let mut failed: usize = 0;
        let mut total_original_bytes: u64 = 0;
        let mut total_compressed_bytes: u64 = 0;
        let ghost before = on_progress.reported().len();
        let mut position: usize = 0;
        while position < total
            invariant
                total == items@.len(),
                items@.len() == request.items@.len(),
                is_valid_compress_request(request),
                forall|i: int|
                    0 <= i < items@.len() ==> (#[trigger] items@[i])@ == trim_seq(
                        request.items@[i]@,
                    ),
                0 <= position <= total,
                before == old(on_progress).reported().len(),
                on_progress.reported().len() == before + 2 * position,
                on_progress.reported().subrange(0, before as int) == old(on_progress).reported(),
                forall|k: int|
                    0 <= k < position ==> reports_image(
                        #[trigger] on_progress.reported()[before + 2 * k],
                        on_progress.reported()[before + 2 * k + 1],
                        k,
                        total as nat,
                        image_file_name(request.items@[k]@),
                    ),
                output_dir@ == trim_seq(request.output_dir@),
                P::obeys_processor_contract() ==> forall|k: int|
                    0 <= k < position ==> reports_outcome(
                        #[trigger] on_progress.reported()[before + 2 * k + 1],
                        self.spec_processor().outcome(
                            trim_seq(request.items@[k]@),
                            image_output_path(request.output_dir@, request.items@[k]@),
                            request.quality,
                        ),
                    ),
                succeeded == count_status(
                    outcome_reports(
                        on_progress.reported().subrange(
                            before as int,
                            on_progress.reported().len() as int,
                        ),
                    ),
                    CompressionStatus::Completed,
                ),
                skipped == count_status(
                    outcome_reports(
                        on_progress.reported().subrange(
                            before as int,
                            on_progress.reported().len() as int,
                        ),
                    ),
                    CompressionStatus::Skipped,
                ),
                failed == count_status(
                    outcome_reports(
                        on_progress.reported().subrange(
                            before as int,
                            on_progress.reported().len() as int,
                        ),
                    ),
                    CompressionStatus::Failed,
                ),
                succeeded + skipped + failed == position,
                total_original_bytes == total_original(
                    outcome_reports(
                        on_progress.reported().subrange(
                            before as int,
                            on_progress.reported().len() as int,
                        ),
                    ),
                ),
                total_compressed_bytes == total_compressed(
                    outcome_reports(
                        on_progress.reported().subrange(
                            before as int,
                            on_progress.reported().len() as int,
                        ),
                    ),
                ),
            decreases total - position,
        {
            let index = position + 1;
            let input = items[position].as_str();
            proof {
                assert(is_valid_image_path(request.items@[position as int]@));
            }
            let file_name = match path_file_name(input) {
                Some(name) => name,
                None => {
                    proof {
                        assert(false);
                    }
                    String::new()
                },
            };
            let ghost mid_before = on_progress.reported();
            on_progress.report(
                CompressionProgress {
                    index,
                    total,
                    file_name: file_name.clone(),
                    status: CompressionStatus::Processing,
                    original_bytes: 0,
                    compressed_bytes: 0,
                    error: None,
                },
            );
            let output = path_join(output_dir.as_str(), file_name.as_str());
            let ghost mid = on_progress.reported();
            let outcome = match self.processor.process(input, output.as_str(), request.quality) {
                Ok(processed) => {
                    let status = match processed.status {
                        ImageProcessStatus::Completed => {
                            succeeded = succeeded + 1;
                            CompressionStatus::Completed
                        },
                        ImageProcessStatus::Skipped => {
                            skipped = skipped + 1;
                            CompressionStatus::Skipped
                        },
                    };
                    total_original_bytes = total_original_bytes.saturating_add(
                        processed.original_bytes,
                    );
                    total_compressed_bytes = total_compressed_bytes.saturating_add(
                        processed.output_bytes,
                    );
                    CompressionProgress {
                        index,
                        total,
                        file_name,
                        status,
                        original_bytes: processed.original_bytes,
                        compressed_bytes: processed.output_bytes,
                        error: None,
                    }
                },
                Err(error) => {
                    failed = failed + 1;
                    let text = error.safe_message();
                    proof {
                        assert(text@ == image_safe_message(error.spec_kind()));
                    }
                    CompressionProgress {
                        index,
                        total,
                        file_name,
                        status: CompressionStatus::Failed,
                        original_bytes: 0,
                        compressed_bytes: 0,
                        error: Some(text.to_owned()),
                    }
                },
            };
            on_progress.report(outcome);
            proof {
                let all = on_progress.reported();
                let old_reports = mid_before.subrange(before as int, mid_before.len() as int);
                let reports = all.subrange(before as int, all.len() as int);
                let old_outcomes = outcome_reports(old_reports);
                let outcomes = outcome_reports(reports);
                assert(all.len() == before + 2 * position + 2);
                assert(all.subrange(0, before as int) =~= old(on_progress).reported());
                assert(outcomes.drop_last() =~= old_outcomes);
                assert(outcomes.last() == all[before + 2 * position + 1]);
                assert forall|k: int| 0 <= k < position + 1 implies reports_image(
                    #[trigger] all[before + 2 * k],
                    all[before + 2 * k + 1],
                    k,
                    total as nat,
                    image_file_name(request.items@[k]@),
                ) by {
                    if k < position {
                        assert(all[before + 2 * k] == mid_before[before + 2 * k]);
                    }
                }
                if P::obeys_processor_contract() {
                    assert forall|k: int| 0 <= k < position + 1 implies reports_outcome(
                        #[trigger] all[before + 2 * k + 1],
                        self.spec_processor().outcome(
                            trim_seq(request.items@[k]@),
                            image_output_path(request.output_dir@, request.items@[k]@),
                            request.quality,
                        ),
                    ) by {
                        if k < position {
                            assert(all[before + 2 * k + 1] == mid_before[before + 2 * k + 1]);
                        }
                    }
                }
            }
            position = position + 1;
        }
        proof {
            let all = on_progress.reported();
            let reports = all.subrange(before as int, all.len() as int);
            assert forall|k: int| 0 <= k < total implies reports_image(
                #[trigger] reports[2 * k],
                reports[2 * k + 1],
                k,
                total as nat,
                image_file_name(request.items@[k]@),
            ) by {
                assert(reports[2 * k] == all[before + 2 * k]);
                assert(reports[2 * k + 1] == all[before + 2 * k + 1]);
            }
            if P::obeys_processor_contract() {
                assert forall|k: int| 0 <= k < total implies reports_outcome(
                    #[trigger] reports[2 * k + 1],
                    self.spec_processor().outcome(
                        trim_seq(request.items@[k]@),
                        image_output_path(request.output_dir@, request.items@[k]@),
                        request.quality,
                    ),
                ) by {
                    assert(reports[2 * k + 1] == all[before + 2 * k + 1]);
                }
            }
        }
        Ok(
            CompressImagesResult {
                total,
                succeeded,
                skipped,
                failed,
                total_original_bytes,
                total_compressed_bytes,
                output_dir,
            },
        )
    }
}

} // verus!
