use img_transform::{
    decode_access, default_quality_rules, effective_quality, finish_processing, is_not_modified,
    last_modified_value, log_size_metrics, needs_rotation, not_modified_since, pair_watermarks, prepare_request,
    resolve_source, rotation_needed_from, send_failure, source_from_parsed, status_outcome, AccessMode, Crop,
    EngineFailure, FileSource, ImageFormat, ImageProcessingError, ProcessImageRequest,
    ProcessImageRequestExtractor, ProcessingFailure, QualityRule, Rotation, VipsOutput,
};

fn request(address: &str) -> ProcessImageRequest {
    ProcessImageRequest {
        image_address: String::from(address),
        size: None,
        crop: Crop { w: None, h: None },
        rotation: None,
        format: ImageFormat::Jpeg,
        quality: 80,
        watermarks: vec![],
        square: false,
    }
}

fn tiff_with_orientation(value: u8) -> Vec<u8> {
    vec![
        b'I', b'I', 42, 0, 8, 0, 0, 0, // header, first directory at 8
        1, 0, // one entry
        0x12, 0x01, 3, 0, 1, 0, 0, 0, value, 0, 0, 0, // orientation, SHORT, 1 value
        0, 0, 0, 0, // no next directory
    ]
}

#[test]
fn if_modified_since_equal_is_not_modified() {
    let lm = String::from("Thu, 01 Jan 1970 00:00:00 GMT");
    assert!(is_not_modified(&Some(lm.clone()), &lm));
    assert!(!is_not_modified(&Some(String::from("Fri, 02 Jan 1970 00:00:00 GMT")), &lm));
    assert!(!is_not_modified(&None, &lm));
}

#[test]
fn last_modified_is_http_date() {
    assert_eq!(last_modified_value(0).unwrap(), "Thu, 01 Jan 1970 00:00:00 GMT");
    assert_eq!(last_modified_value(1431704061).unwrap(), "Fri, 15 May 2015 15:34:21 GMT");
    assert_eq!(last_modified_value(253402300800), None);
    assert!(not_modified_since(&Some(String::from("Fri, 15 May 2015 15:34:21 GMT")), 1431704061));
    assert!(!not_modified_since(&Some(String::from("Fri, 15 May 2015 15:34:22 GMT")), 1431704061));
}

#[test]
fn failed_watermark_fetch_keeps_other_pairs() {
    let specs = vec!["a", "b", "c"];
    let fetched: Vec<Result<Vec<u8>, ImageProcessingError>> =
        vec![Ok(vec![1]), Err(ImageProcessingError::ImageDownloadFailed), Ok(vec![3])];
    let pairs = pair_watermarks(specs, fetched);
    assert_eq!(pairs, vec![("a", vec![1]), ("c", vec![3])]);
}

#[test]
fn all_watermark_fetches_failed() {
    let fetched: Vec<Result<Vec<u8>, ()>> = vec![Err(()), Err(())];
    assert!(pair_watermarks(vec![1, 2], fetched).is_empty());
}

#[test]
fn orientation_tag_requires_random_access() {
    assert!(needs_rotation(&None, &tiff_with_orientation(6)));
    assert_eq!(decode_access(&None, &tiff_with_orientation(6)), AccessMode::Random);
    assert!(!needs_rotation(&None, &tiff_with_orientation(1)));
    assert_eq!(decode_access(&None, &tiff_with_orientation(1)), AccessMode::Sequential);
}

#[test]
fn unparsable_metadata_means_no_rotation() {
    assert!(!needs_rotation(&None, b"not an image at all"));
    assert!(needs_rotation(&Some(Rotation::R90), b"not an image at all"));
    assert_eq!(decode_access(&Some(Rotation::R0), b""), AccessMode::Random);
}

#[test]
fn rotation_from_entries() {
    assert!(!rotation_needed_from(false, &None));
    assert!(rotation_needed_from(true, &None));
    assert!(!rotation_needed_from(false, &Some(vec![(false, Some(6)), (true, Some(0)), (true, None)])));
    assert!(rotation_needed_from(false, &Some(vec![(false, Some(1)), (true, Some(8))])));
}

#[test]
fn remote_source_uses_url_path() {
    let root = String::from("/data/public");
    match resolve_source(&root, &String::from("http://example.com/a/b.jpg?x=1")).unwrap() {
        FileSource::Remote { cache_path, cache_usable } => {
            assert_eq!(cache_path, "/data/public/a/b.jpg");
            assert!(cache_usable);
        }
        other => panic!("unexpected {:?}", other),
    }
}

#[test]
fn local_source_under_root() {
    let root = String::from("/data/public");
    match resolve_source(&root, &String::from("img-test")).unwrap() {
        FileSource::Local { path } => assert_eq!(path, "/data/public/img-test"),
        other => panic!("unexpected {:?}", other),
    }
}

#[test]
fn invalid_remote_address() {
    let root = String::from("/r");
    let r = resolve_source(&root, &String::from("http://"));
    assert!(matches!(r, Err(ImageProcessingError::InvalidResourceUriProvided(ref u)) if u == "http://"));
    let r = source_from_parsed(&root, &String::from("https://x"), None);
    assert!(matches!(r, Err(ImageProcessingError::InvalidResourceUriProvided(_))));
    match source_from_parsed(&root, &String::from("https://x"), Some(String::new())).unwrap() {
        FileSource::Remote { cache_path, cache_usable } => {
            assert_eq!(cache_path, "/r");
            assert!(!cache_usable);
        }
        other => panic!("unexpected {:?}", other),
    }
}

#[test]
fn download_status_outcomes() {
    let res = String::from("http://h/x.jpg");
    assert!(status_outcome(200, &res).is_ok());
    assert!(status_outcome(204, &res).is_ok());
    assert!(matches!(status_outcome(404, &res),
        Err(ImageProcessingError::ClientReturnedErrorStatusCode(404, ref u)) if u == "http://h/x.jpg"));
    assert!(matches!(status_outcome(500, &res), Err(ImageProcessingError::ImageDownloadFailed)));
    assert!(matches!(status_outcome(302, &res), Err(ImageProcessingError::ImageDownloadFailed)));
    assert!(matches!(send_failure(true), ImageProcessingError::ImageDownloadTimedOut));
    assert!(matches!(send_failure(false), ImageProcessingError::ImageDownloadFailed));
}

#[test]
fn error_responses() {
    let e = ImageProcessingError::ClientReturnedErrorStatusCode(404, String::from("u"));
    assert_eq!(
        e.response_parts(),
        (404, String::from("Received status code '404' while attemtping to download the image that has to be processed: 'u'"))
    );
    let e = ImageProcessingError::ClientReturnedErrorStatusCode(42, String::from("u"));
    assert_eq!(e.response_parts().0, 400);
    let e = ImageProcessingError::LibvipsProcessingFailed(EngineFailure::Initialization);
    assert_eq!(e.response_parts(), (400, String::from("The image that was requested to be processed cannot be opened.")));
    let e = ImageProcessingError::LibvipsProcessingFailed(EngineFailure::Operation);
    assert_eq!(e.response_parts(), (500, String::from("Something went wrong on our side.")));
    assert_eq!(ImageProcessingError::ImageDownloadTimedOut.response_parts().0, 400);
    let e = ImageProcessingError::InvalidResourceUriProvided(String::from("http://"));
    assert_eq!(e.response_parts(), (400, String::from("The provided resource URI is not valid: 'http://'")));
    assert_eq!(ImageProcessingError::InvalidRequest.response_parts().0, 400);
    assert_eq!(ImageProcessingError::ProcessingWorkerJoinError.response_parts().0, 500);
    assert_eq!(ImageProcessingError::ImageDownloadFailed.response_parts().0, 500);
    assert_eq!(ImageProcessingError::AxumHttpError.response_parts().0, 500);
}

#[test]
fn quality_rule_for_fixed_thumbnails() {
    let rules = default_quality_rules();
    assert_eq!(effective_quality(&String::from("files/a_400X400.jpg"), 90, &rules), 68);
    assert_eq!(effective_quality(&String::from("files/a_400x400.jpg"), 90, &rules), 90);
    let two = vec![
        QualityRule { suffix: String::from(".png"), quality: 30 },
        QualityRule { suffix: String::from("b.png"), quality: 40 },
    ];
    assert_eq!(effective_quality(&String::from("ab.png"), 90, &two), 30);
}

#[test]
fn prepare_applies_rules_and_source() {
    let rules = default_quality_rules();
    let p = prepare_request(request("x/400X400.jpg"), &String::from("/p"), &rules).unwrap();
    assert_eq!(p.request.quality, 68);
    assert!(matches!(p.source, FileSource::Local { ref path } if path == "/p/x/400X400.jpg"));
    let mut bad = request("img");
    bad.crop = Crop { w: Some(-3), h: Some(2) };
    assert!(matches!(prepare_request(bad, &String::from("/p"), &rules), Err(ImageProcessingError::InvalidRequest)));
    assert!(matches!(
        prepare_request(request("https://"), &String::from("/p"), &rules),
        Err(ImageProcessingError::InvalidResourceUriProvided(_))
    ));
}

#[test]
fn worker_outcomes() {
    assert_eq!(finish_processing(Some(Ok(VipsOutput::from(vec![1, 2, 3])))).unwrap(), vec![1, 2, 3]);
    assert!(matches!(finish_processing(None), Err(ImageProcessingError::ProcessingWorkerJoinError)));
    assert!(matches!(
        finish_processing(Some(Err(ProcessingFailure::Engine(EngineFailure::Initialization)))),
        Err(ImageProcessingError::LibvipsProcessingFailed(EngineFailure::Initialization))
    ));
    assert!(matches!(
        finish_processing(Some(Err(ProcessingFailure::Rejected))),
        Err(ImageProcessingError::InvalidRequest)
    ));
    assert_eq!(VipsOutput(None).into_bytes(), Vec::<u8>::new());
}

#[test]
fn extractor_accepts_parsed_query() {
    let ok = ProcessImageRequestExtractor::from_request(Some(5), Some(String::from("d"))).ok().unwrap();
    assert_eq!(ok.params, 5);
    assert_eq!(ok.if_modified, Some(String::from("d")));
    let err = ProcessImageRequestExtractor::<u8>::from_request(None, None).err().unwrap();
    assert_eq!(err, (400, String::from("the provided parameters within the query string aren't valid")));
}

#[test]
fn size_metrics_record() {
    let m = log_size_metrics(&ImageFormat::Heic, 10, 20);
    assert_eq!((m.series, m.input_size, m.output_size), (ImageFormat::Heic, 10, 20));
}
