use vstd::prelude::*;
use crate::errors::{ImageProcessingError, EngineFailure, BAD_REQUEST, invalid_params_message, msg_invalid_params};
use crate::fetch::{FileSource, resolve_source, source_matches, url_path_of};
use crate::output::{VipsOutput, output_bytes};
use crate::request::{ImageFormat, ProcessImageRequest, QualityRule, rule_matches, effective_quality};

verus! {

/// A request's parameters and its `If-Modified-Since` header.
pub struct ProcessImageRequestExtractor<T> {
    pub params: T,
    pub if_modified: Option<String>,
}

impl<T> ProcessImageRequestExtractor<T> {
    /// Accepts a request whose query string parsed (`params` is `Some`);
    /// rejects any other with 400.
    pub fn from_request(params: Option<T>, if_modified: Option<String>) -> (r: Result<Self, (u16, String)>)
        ensures
            params is Some <==> r is Ok,
            r is Ok ==> r->Ok_0.params == params->0 && r->Ok_0.if_modified == if_modified,
            r is Err ==> r->Err_0.0 == BAD_REQUEST && r->Err_0.1@ == msg_invalid_params(),
    {
        match params {
            Some(p) => Ok(ProcessImageRequestExtractor { params: p, if_modified }),
            None => Err((BAD_REQUEST, invalid_params_message())),
        }
    }
}

/// The successfully fetched watermarks among the first `n`, each with its
/// own spec, in list order.
pub open spec fn paired<S, E>(specs: Seq<S>, fetched: Seq<Result<Vec<u8>, E>>, n: nat) -> Seq<(S, Vec<u8>)>
    decreases n,
{
    if n == 0 {
        Seq::empty()
    } else {
        let prev = paired(specs, fetched, (n - 1) as nat);
        match fetched[n - 1] {
            Ok(b) => prev.push((specs[n - 1], b)),
            Err(_) => prev,
        }
    }
}

/// Keeps each watermark whose fetch succeeded together with its own spec;
/// a failed one is dropped with its spec, so no other is re-paired.
pub fn pair_watermarks<S, E>(specs: Vec<S>, fetched: Vec<Result<Vec<u8>, E>>) -> (r: Vec<(S, Vec<u8>)>)
    requires
        specs@.len() == fetched@.len(),
    ensures
        r@ == paired(specs@, fetched@, fetched@.len()),
{
    let ghost s0 = specs@;
    let ghost f0 = fetched@;
    let len = fetched.len();
    let ghost n = fetched@.len();
    let mut specs = specs;
    let mut fetched = fetched;
    let mut out: Vec<(S, Vec<u8>)> = Vec::new();
    let mut i: usize = 0;
    while fetched.len() > 0
        invariant
            n == f0.len(),
            n == len,
            s0.len() == n,
            i <= n,
            specs@ == s0.subrange(i as int, n as int),
            fetched@ == f0.subrange(i as int, n as int),
            i + fetched@.len() == n,
            out@ == paired(s0, f0, i as nat),
        decreases fetched@.len(),
    {
        let s = specs.remove(0);
        let f = fetched.remove(0);
        assert(s == s0[i as int]);
        assert(f == f0[i as int]);
        match f {
            Ok(b) => out.push((s, b)),
            Err(_) => {},
        }
        i = i + 1;
    }
    out
}

/// The IMF-fixdate form (`Fri, 15 May 2015 15:34:21 GMT`) of a time given
/// in seconds since the Unix epoch.
pub uninterp spec fn http_date_of(secs: u64) -> Seq<char>;

/// First second of the year 10000, which the date format cannot express.
pub const HTTP_DATE_LIMIT: u64 = 253402300800;

/// Relies on `httpdate::fmt_http_date`, which panics from `HTTP_DATE_LIMIT`
/// on: the text depends on the time alone.
#[verifier::external_body]
fn fmt_http_date(secs: u64) -> (r: String)
    requires
        secs < HTTP_DATE_LIMIT,
    ensures
        r@ == http_date_of(secs),
{
    httpdate::fmt_http_date(std::time::UNIX_EPOCH + std::time::Duration::from_secs(secs))
}

/// The `Last-Modified` value of a file modified at `secs`; `None` past the year 9999.
pub fn last_modified_value(secs: u64) -> (r: Option<String>)
    ensures
        secs < HTTP_DATE_LIMIT <==> r is Some,
        r is Some ==> r->0@ == http_date_of(secs),
{
    if secs < HTTP_DATE_LIMIT {
        Some(fmt_http_date(secs))
    } else {
        None
    }
}

pub open spec fn not_modified(if_modified: Option<String>, last_modified: Seq<char>) -> bool {
    if_modified is Some && if_modified->0@ == last_modified
}

/// Whether the client's copy is current: its `If-Modified-Since` value is
/// the file's `Last-Modified` value.
pub fn is_not_modified(if_modified: &Option<String>, last_modified: &String) -> (r: bool)
    ensures
        r == not_modified(*if_modified, last_modified@),
{
    match if_modified {
        Some(v) => *v == *last_modified,
        None => false,
    }
}

/// Whether a request for a file modified at `secs` is answered with
/// "not modified"; never for a time that the date format cannot express.
pub fn not_modified_since(if_modified: &Option<String>, secs: u64) -> (r: bool)
    ensures
        r == (secs < HTTP_DATE_LIMIT && not_modified(*if_modified, http_date_of(secs))),
{
    match last_modified_value(secs) {
        Some(lm) => is_not_modified(if_modified, &lm),
        None => false,
    }
}

/// A request ready for fetching: its quality after the rules, and its source.
pub struct PreparedRequest {
    pub request: ProcessImageRequest,
    pub source: FileSource,
}

/// Checks a request, resolves its source under `root`, and applies the
/// quality rules. Fails with `InvalidRequest` on an invalid request, and
/// with `InvalidResourceUriProvided` on a remote address that is not a URL.
pub fn prepare_request(req: ProcessImageRequest, root: &String, rules: &Vec<QualityRule>) -> (r: Result<
    PreparedRequest,
    ImageProcessingError,
>)
    ensures
        !req.valid() ==> r is Err && r->Err_0 is InvalidRequest,
        req.valid() ==> match r {
            Err(e) => source_matches(Err(e), root@, req.image_address@, url_path_of(req.image_address@)),
            Ok(p) => source_matches(Ok(p.source), root@, req.image_address@, url_path_of(req.image_address@))
                && p.request.image_address == req.image_address
                && p.request.size == req.size
                && p.request.crop == req.crop
                && p.request.rotation == req.rotation
                && p.request.format == req.format
                && p.request.watermarks == req.watermarks
                && p.request.square == req.square
                && ((forall|i: int| 0 <= i < rules@.len() ==> !rule_matches(req.image_address@, #[trigger] rules@[i]))
                    ==> p.request.quality == req.quality)
                && ((exists|i: int| 0 <= i < rules@.len() && rule_matches(req.image_address@, #[trigger] rules@[i]))
                    ==> exists|i: int|
                        0 <= i < rules@.len() && rule_matches(req.image_address@, #[trigger] rules@[i])
                            && p.request.quality == rules@[i].quality
                            && forall|j: int| 0 <= j < i ==> !rule_matches(req.image_address@, #[trigger] rules@[j])),
        },
{
    if !req.is_valid() {
        return Err(ImageProcessingError::InvalidRequest);
    }
    let source = match resolve_source(root, &req.image_address) {
        Ok(s) => s,
        Err(e) => {
            return Err(e);
        },
    };
    let quality = effective_quality(&req.image_address, req.quality, rules);
    let mut request = req;
    request.quality = quality;
    Ok(PreparedRequest { request, source })
}

/// Why a processing run produced no image.
#[derive(Clone, Copy, Debug, PartialEq, Eq)]
pub enum ProcessingFailure {
    /// The engine failed.
    Engine(EngineFailure),
    /// The request could not be planned.
    Rejected,
}

/// The result of a processing run as the awaiting task sees it: `None` when
/// the worker dropped its end of the channel.
pub open spec fn processing_result(outcome: Option<Result<VipsOutput, ProcessingFailure>>, r: Result<Vec<u8>, ImageProcessingError>) -> bool {
    match outcome {
        None => r is Err && r->Err_0 is ProcessingWorkerJoinError,
        Some(Err(ProcessingFailure::Engine(e))) => r is Err && r->Err_0 == ImageProcessingError::LibvipsProcessingFailed(e),
        Some(Err(ProcessingFailure::Rejected)) => r is Err && r->Err_0 is InvalidRequest,
        Some(Ok(o)) => r is Ok && r->Ok_0@ == output_bytes(o),
    }
}

/// Turns the worker's message into the body of the response or the failure.
pub fn finish_processing(outcome: Option<Result<VipsOutput, ProcessingFailure>>) -> (r: Result<Vec<u8>, ImageProcessingError>)
    ensures
        processing_result(outcome, r),
{
    match outcome {
        None => Err(ImageProcessingError::ProcessingWorkerJoinError),
        Some(Err(ProcessingFailure::Engine(e))) => Err(ImageProcessingError::LibvipsProcessingFailed(e)),
        Some(Err(ProcessingFailure::Rejected)) => Err(ImageProcessingError::InvalidRequest),
        Some(Ok(o)) => Ok(o.into_bytes()),
    }
}

/// One observation for the size histograms: the format's series, and the
/// input and output sizes in bytes.
#[derive(Clone, Copy, Debug, PartialEq, Eq)]
pub struct SizeMetrics {
    pub series: ImageFormat,
    pub input_size: usize,
    pub output_size: usize,
}

/// The observation to record for a response in `format`.
pub fn log_size_metrics(format: &ImageFormat, input_size: usize, response_length: usize) -> (r: SizeMetrics)
    ensures
        r.series == *format,
        r.input_size == input_size,
        r.output_size == response_length,
{
    SizeMetrics { series: *format, input_size, output_size: response_length }
}

} // verus!
