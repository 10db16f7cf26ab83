//! Decisions of an on-demand image transformation service: request model,
//! geometry of resizing, cropping and watermark placement, orientation
//! handling, encoder parameters, the plan that the image engine executes,
//! and the fetch and response rules around it.

pub mod geometry;
pub mod text;
pub mod request;
pub mod orientation;
pub mod encode;
pub mod errors;
pub mod pipeline;
pub mod fetch;
pub mod output;
pub mod routes;
pub mod laws;

pub use geometry::{Size, Crop, WatermarkPosition, get_target_size, smartcrop_eligible, get_watermark_target_size, get_watermark_borders};
pub use request::{ImageFormat, Rotation, WatermarkSpec, ProcessImageRequest, QualityRule, default_quality_rules, quality_override, effective_quality};
pub use orientation::{AccessMode, needs_rotation, decode_access, rotation_needed_from};
pub use encode::{EncodeOptions, encode_options};
pub use errors::{EngineFailure, ImageProcessingError};
pub use pipeline::{DecodedInfo, ResizeStep, WatermarkStep, PipelinePlan, plan_pipeline};
pub use fetch::{FileSource, resolve_source, source_from_parsed, send_failure, status_outcome, is_remote_address};
pub use output::VipsOutput;
pub use routes::{ProcessImageRequestExtractor, ProcessingFailure, PreparedRequest, SizeMetrics, pair_watermarks, last_modified_value, is_not_modified, not_modified_since, prepare_request, finish_processing, log_size_metrics};
