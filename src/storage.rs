use crate::catalog::ModelTier;
use crate::error::TranscribeError;
use vstd::prelude::*;

verus! {

/// What a look at one model file found: where it is, whether it is there, and
/// its length in bytes where its metadata could be read.
pub struct FileProbe {
    pub path: String,
    pub exists: bool,
    pub len: Option<u64>,
}

/// The size reported for a model file.
#[derive(Clone, Copy, Debug, PartialEq, Eq, Structural)]
pub enum ModelSize {
    /// The file's length in bytes, as its metadata gives it.
    Bytes(u64),
    /// The tier's nominal size in megabytes, where the length could not be read.
    NominalMb(u64),
}

/// Which model is installed, computed afresh from what is on disk.
pub struct ModelStatus {
    pub model_type: Option<ModelTier>,
    pub is_downloaded: bool,
    pub model_path: Option<String>,
    pub model_size: Option<ModelSize>,
}

/// The tier reported when the standard and compact files exist or not: the
/// standard one wins.
pub open spec fn reported_tier(standard_exists: bool, compact_exists: bool) -> Option<ModelTier> {
    if standard_exists {
        Some(ModelTier::Standard)
    } else if compact_exists {
        Some(ModelTier::Compact)
    } else {
        None
    }
}

/// The size reported for a tier's file: its length, or the tier's nominal size.
pub open spec fn reported_size(probe: &FileProbe, tier: ModelTier) -> ModelSize {
    match probe.len {
        Some(b) => ModelSize::Bytes(b),
        None => ModelSize::NominalMb(tier.nominal_mb_spec()),
    }
}

/// Whether a status names a model file to load.
pub open spec fn has_model(status: &ModelStatus) -> bool {
    status.is_downloaded && status.model_path is Some
}

/// Whether `r` reports `probe` as the installed file of `tier`.
pub open spec fn reports(r: &ModelStatus, probe: &FileProbe, tier: ModelTier) -> bool {
    &&& r.model_type == Some(tier)
    &&& r.is_downloaded
    &&& r.model_path is Some
    &&& r.model_path->0@ == probe.path@
    &&& r.model_size == Some(reported_size(probe, tier))
}

fn report(probe: &FileProbe, tier: ModelTier) -> (r: ModelStatus)
    ensures
        reports(&r, probe, tier),
{
    let size = match probe.len {
        Some(b) => ModelSize::Bytes(b),
        None => ModelSize::NominalMb(tier.nominal_mb()),
    };
    ModelStatus {
        model_type: Some(tier),
        is_downloaded: true,
        model_path: Some(probe.path.clone()),
        model_size: Some(size),
    }
}

/// The status given what was found of the standard and the compact model files.
/// The standard file wins when both exist; an unreadable length falls back to
/// the tier's nominal size.
pub fn compute_status(standard: &FileProbe, compact: &FileProbe) -> (r: ModelStatus)
    ensures
        r.model_type == reported_tier(standard.exists, compact.exists),
        r.is_downloaded == (standard.exists || compact.exists),
        has_model(&r) == r.is_downloaded,
        standard.exists ==> reports(&r, standard, ModelTier::Standard),
        !standard.exists && compact.exists ==> reports(&r, compact, ModelTier::Compact),
        !standard.exists && !compact.exists ==> r.model_path is None && r.model_size is None,
{
    if standard.exists {
        report(standard, ModelTier::Standard)
    } else if compact.exists {
        report(compact, ModelTier::Compact)
    } else {
        ModelStatus { model_type: None, is_downloaded: false, model_path: None, model_size: None }
    }
}

/// What a download request calls for.
pub enum DownloadPlan {
    /// The file is there already: nothing is fetched.
    AlreadyPresent,
    /// Fetch the model from `url` and write it to the tier's file.
    Fetch { url: String },
}

/// Decides a download of `tier` whose file exists or not: a present file is
/// kept and nothing is fetched.
pub fn plan_download(tier: ModelTier, exists: bool) -> (r: DownloadPlan)
    ensures
        exists ==> r is AlreadyPresent,
        !exists ==> r is Fetch && r->url@ == tier.url_spec(),
{
    if exists {
        DownloadPlan::AlreadyPresent
    } else {
        DownloadPlan::Fetch { url: tier.url() }
    }
}

/// Whether an HTTP status code counts as success: 200 to 299.
pub open spec fn http_success(code: u16) -> bool {
    200 <= code <= 299
}

/// Judges the status code of a download response: success, or a `NetworkError`.
pub fn check_response_status(code: u16) -> (r: Result<(), TranscribeError>)
    ensures
        http_success(code) <==> r is Ok,
        r is Err ==> r->Err_0 == TranscribeError::NetworkError,
{
    if 200 <= code && code <= 299 {
        Ok(())
    } else {
        Err(TranscribeError::NetworkError)
    }
}

} // verus!
