use img_transform::{
    encode_options, plan_pipeline, Crop, DecodedInfo, ImageFormat, ImageProcessingError, ProcessImageRequest,
    Size, WatermarkPosition, WatermarkSpec,
};

fn request(format: ImageFormat) -> ProcessImageRequest {
    ProcessImageRequest {
        image_address: String::from("img-test"),
        size: None,
        crop: Crop { w: None, h: None },
        rotation: None,
        format,
        quality: 80,
        watermarks: vec![],
        square: false,
    }
}

fn mark(size: i32, position: WatermarkPosition) -> WatermarkSpec {
    WatermarkSpec { image_address: String::from("watermark"), size, position }
}

#[test]
fn plain_jpeg_keeps_dimensions() {
    let req = request(ImageFormat::Jpeg);
    let p = plan_pipeline(&req, 533, 400, &vec![]).unwrap();
    assert_eq!((p.width, p.height), (533, 400));
    assert!(p.resize.is_none());
    assert!(p.crop.is_none());
    assert!(p.pad_to.is_none());
    assert!(p.watermarks.is_empty());
    assert_eq!(p.encode, encode_options(ImageFormat::Jpeg, 80));
    assert_eq!(req.format.mime_type(), "image/jpeg");
}

#[test]
fn resize_to_hundred_square() {
    let mut req = request(ImageFormat::Jpeg);
    req.size = Some(Size { w: Some(100), h: Some(100) });
    let p = plan_pipeline(&req, 533, 533, &vec![]).unwrap();
    assert_eq!((p.width, p.height), (100, 100));
    let r = p.resize.unwrap();
    assert_eq!((r.num, r.den, r.width, r.height), (100, 533, 100, 100));
}

#[test]
fn width_only_resize_output() {
    let mut req = request(ImageFormat::Png);
    req.size = Some(Size { w: Some(100), h: None });
    let p = plan_pipeline(&req, 533, 400, &vec![]).unwrap();
    assert_eq!((p.width, p.height), (100, 75));
}

#[test]
fn crop_applied_when_it_fits() {
    let mut req = request(ImageFormat::Webp);
    req.crop = Crop { w: Some(300), h: Some(200) };
    let p = plan_pipeline(&req, 533, 400, &vec![]).unwrap();
    assert_eq!(p.crop, Some((300, 200)));
    assert_eq!((p.width, p.height), (300, 200));
}

#[test]
fn crop_skipped_when_too_large_or_partial() {
    let mut req = request(ImageFormat::Webp);
    req.crop = Crop { w: Some(600), h: Some(200) };
    let p = plan_pipeline(&req, 533, 400, &vec![]).unwrap();
    assert_eq!(p.crop, None);
    assert_eq!((p.width, p.height), (533, 400));
    req.crop = Crop { w: Some(100), h: None };
    let p = plan_pipeline(&req, 533, 400, &vec![]).unwrap();
    assert_eq!(p.crop, None);
}

#[test]
fn square_pads_to_longer_side() {
    let mut req = request(ImageFormat::Jpeg);
    req.square = true;
    let p = plan_pipeline(&req, 300, 200, &vec![]).unwrap();
    assert_eq!((p.width, p.height), (300, 300));
    assert_eq!(p.pad_to, Some(300));
    let p = plan_pipeline(&req, 120, 450, &vec![]).unwrap();
    assert_eq!((p.width, p.height, p.pad_to), (450, 450, Some(450)));
}

#[test]
fn watermark_bottom_right_margin() {
    let mut req = request(ImageFormat::Jpeg);
    req.watermarks = vec![mark(40, WatermarkPosition::Point { dx: -10, dy: -10 })];
    let decoded = vec![Some(DecodedInfo { width: 200, height: 100, has_alpha: true })];
    let p = plan_pipeline(&req, 1000, 1000, &decoded).unwrap();
    assert_eq!(p.watermarks.len(), 1);
    let s = p.watermarks[0];
    assert_eq!((s.width, s.height), (400, 200));
    assert_eq!(1000 - (s.left + s.width as i64), 10);
    assert_eq!(1000 - (s.top + s.height as i64), 10);
    assert!(!s.downscale_first);
    assert!(!s.add_alpha);
    assert_eq!((s.scale_num, s.scale_den), (400, 200));
}

#[test]
fn undecodable_watermark_is_skipped_in_order() {
    let mut req = request(ImageFormat::Jpeg);
    req.watermarks = vec![
        mark(20, WatermarkPosition::Point { dx: 10, dy: 10 }),
        mark(20, WatermarkPosition::Center { dx: 0, dy: 0 }),
        mark(10, WatermarkPosition::Point { dx: -10, dy: -10 }),
    ];
    let info = DecodedInfo { width: 2000, height: 1000, has_alpha: false };
    let decoded = vec![Some(info), None, Some(info)];
    let p = plan_pipeline(&req, 1000, 1000, &decoded).unwrap();
    assert_eq!(p.watermarks.len(), 2);
    assert_eq!(p.watermarks[0].index, 0);
    assert_eq!((p.watermarks[0].left, p.watermarks[0].top), (10, 10));
    assert_eq!(p.watermarks[1].index, 2);
    assert_eq!((p.watermarks[1].width, p.watermarks[1].height), (100, 50));
    assert_eq!((p.watermarks[1].left, p.watermarks[1].top), (890, 940));
    assert!(p.watermarks[1].downscale_first);
    assert!(p.watermarks[1].add_alpha);
}

#[test]
fn watermark_placed_on_cropped_base() {
    let mut req = request(ImageFormat::Jpeg);
    req.crop = Crop { w: Some(500), h: Some(300) };
    req.watermarks = vec![mark(50, WatermarkPosition::Center { dx: 0, dy: 0 })];
    let decoded = vec![Some(DecodedInfo { width: 100, height: 100, has_alpha: true })];
    let p = plan_pipeline(&req, 1000, 1000, &decoded).unwrap();
    let s = p.watermarks[0];
    assert_eq!((s.width, s.height), (250, 250));
    assert_eq!((s.left, s.top), (125, 25));
}

#[test]
fn invalid_request_rejected() {
    let mut req = request(ImageFormat::Jpeg);
    req.size = Some(Size { w: None, h: None });
    assert!(matches!(plan_pipeline(&req, 10, 10, &vec![]), Err(ImageProcessingError::InvalidRequest)));
    let mut req = request(ImageFormat::Jpeg);
    req.watermarks = vec![mark(0, WatermarkPosition::Point { dx: 0, dy: 0 })];
    assert!(matches!(plan_pipeline(&req, 10, 10, &vec![None]), Err(ImageProcessingError::InvalidRequest)));
    let mut req = request(ImageFormat::Jpeg);
    req.crop = Crop { w: Some(0), h: Some(5) };
    assert!(!req.is_valid());
}

#[test]
fn encode_options_per_format() {
    let j = encode_options(ImageFormat::Jpeg, 70);
    assert!(j.white_background && j.optimize_coding && j.interlace);
    assert_eq!((j.quality, j.effort, j.bit_depth), (70, None, None));
    let w = encode_options(ImageFormat::Webp, 10);
    assert_eq!((w.quality, w.effort, w.bit_depth, w.interlace), (10, Some(2), None, false));
    let p = encode_options(ImageFormat::Png, 90);
    assert_eq!((p.effort, p.bit_depth, p.white_background), (None, Some(8), false));
    let h = encode_options(ImageFormat::Heic, 50);
    assert_eq!((h.quality, h.effort, h.bit_depth, h.optimize_coding), (50, None, None, false));
    assert_eq!(encode_options(ImageFormat::Webp, 10), encode_options(ImageFormat::Webp, 10));
}

#[test]
fn mime_types() {
    assert_eq!(ImageFormat::Png.mime_type(), "image/png");
    assert_eq!(ImageFormat::Webp.mime_type(), "image/webp");
    assert_eq!(ImageFormat::Heic.mime_type(), "image/heic");
}
