use crate::audio::{decodable, decode_wav, decodes_to, DecodedAudio};
use crate::error::TranscribeError;
use crate::storage::{has_model, ModelStatus};
use crate::text::{spaced, texts, trimmed, TranscriptionResult};
use vstd::prelude::*;

verus! {

/// The engine's state as contracts see it: whether a context is loaded, the
/// model path last recorded, and how many times a model load was started.
pub struct EngineView {
    pub loaded: bool,
    pub active_path: Option<Seq<char>>,
    pub loads: nat,
}

/// A single-slot cache for a recognition context of type `C`, and the path of
/// the model that status last reported. Callers hold it behind one lock, so
/// the context and the path change together.
pub struct WhisperState<C> {
    pub context: Option<C>,
    pub active_path: Option<String>,
    pub loads: Ghost<nat>,
}

/// The path that a status records, or the one recorded before.
pub open spec fn recorded_path(v: EngineView, status: &ModelStatus) -> EngineView {
    match status.model_path {
        Some(p) => EngineView { active_path: Some(p@), ..v },
        None => v,
    }
}

/// The state after a deletion cleared the cache.
pub open spec fn cleared(v: EngineView) -> EngineView {
    EngineView { loaded: false, active_path: None, ..v }
}

/// What a transcription's acquisition of the context returns: no model is an
/// error, a loaded context is reused, and otherwise the load decides.
pub open spec fn acquire_outcome(v: EngineView, model: bool, load_ok: bool) -> Result<
    (),
    TranscribeError,
> {
    if !model {
        Err(TranscribeError::NoModelError)
    } else if v.loaded || load_ok {
        Ok(())
    } else {
        Err(TranscribeError::ModelLoadError)
    }
}

/// The state after a transcription's acquisition of the context: a load is
/// started only where a model exists and no context is loaded.
pub open spec fn acquired(v: EngineView, model: bool, load_ok: bool) -> EngineView {
    if !model || v.loaded {
        v
    } else {
        EngineView { loaded: load_ok, loads: v.loads + 1, ..v }
    }
}

/// What a deletion request calls for.
#[derive(Clone, Copy, Debug, PartialEq, Eq, Structural)]
pub enum DeletePlan {
    /// The file is absent: nothing is removed, though the cache has been cleared.
    AlreadyAbsent,
    /// The cache has been cleared: remove the file.
    Remove,
}

/// Why a recognition run returned no segments.
#[derive(Clone, Copy, Debug, PartialEq, Eq, Structural)]
pub enum RecognitionFailure {
    /// The samples could not be read from the audio.
    UnreadableSamples,
    /// The recognition backend failed.
    Backend,
}

/// The error that a failed recognition run is reported as.
pub open spec fn failure_error(f: RecognitionFailure) -> TranscribeError {
    match f {
        RecognitionFailure::UnreadableSamples => TranscribeError::FormatError,
        RecognitionFailure::Backend => TranscribeError::TranscriptionError,
    }
}

impl<C> View for WhisperState<C> {
    type V = EngineView;

    open spec fn view(&self) -> EngineView {
        EngineView {
            loaded: self.context is Some,
            active_path: match self.active_path {
                Some(p) => Some(p@),
                None => None,
            },
            loads: self.loads@,
        }
    }
}

impl<C> WhisperState<C> {
    /// An engine with nothing loaded and no path recorded.
    pub fn new() -> (r: Self)
        ensures
            r@ == (EngineView { loaded: false, active_path: None, loads: 0 }),
    {
        WhisperState { context: None, active_path: None, loads: Ghost(0) }
    }

    /// Whether a context is loaded.
    pub fn is_loaded(&self) -> (r: bool)
        ensures
            r == self@.loaded,
    {
        self.context.is_some()
    }

    /// Records the model path that a status reports, if it reports one.
    pub fn record_status(&mut self, status: &ModelStatus)
        ensures
            final(self)@ == recorded_path(old(self)@, status),
            final(self).context == old(self).context,
    {
        match &status.model_path {
            Some(p) => {
                self.active_path = Some(p.clone());
            },
            None => {},
        }
    }

    /// Drops the loaded context and the recorded path together.
    pub fn invalidate(&mut self)
        ensures
            final(self)@ == cleared(old(self)@),
            final(self).context is None,
    {
        self.context = None;
        self.active_path = None;
    }

    /// Makes a context available for a transcription under the caller's lock.
    /// With no model in `status` it fails with `NoModelError`; a loaded context
    /// is reused; otherwise `load` is called once with the model's path and its
    /// result becomes the cached context, or the failure `ModelLoadError`
    /// leaves the engine without one.
    pub fn acquire<F: FnOnce(String) -> Option<C>>(&mut self, status: &ModelStatus, load: F) -> (r:
        Result<(), TranscribeError>)
        requires
            forall|p: String| load.requires((p,)),
        ensures
            r == acquire_outcome(old(self)@, has_model(status), final(self).context is Some),
            final(self)@ == acquired(old(self)@, has_model(status), final(self).context is Some),
            !has_model(status) || old(self)@.loaded ==> final(self).context == old(self).context,
            has_model(status) && !old(self)@.loaded ==> exists|p: String|
                p@ == status.model_path->0@ && load.ensures((p,), final(self).context),
    {
        if !status.is_downloaded {
            return Err(TranscribeError::NoModelError);
        }
        let path = match &status.model_path {
            Some(p) => p.clone(),
            None => {
                return Err(TranscribeError::NoModelError);
            },
        };
        if self.context.is_some() {
            return Ok(());
        }
        let loaded = load(path);
        self.loads = Ghost(self.loads@ + 1);
        self.context = loaded;
        if self.context.is_some() {
            Ok(())
        } else {
            Err(TranscribeError::ModelLoadError)
        }
    }

    /// Decides a deletion of a model file that exists or not. Either way the
    /// cached context and the recorded path are dropped first, whichever tier
    /// the context came from; only an existing file is then removed.
    pub fn plan_delete(&mut self, exists: bool) -> (r: DeletePlan)
        ensures
            final(self)@ == cleared(old(self)@),
            final(self).context is None,
            exists ==> r == DeletePlan::Remove,
            !exists ==> r == DeletePlan::AlreadyAbsent,
    {
        self.invalidate();
        if exists {
            DeletePlan::Remove
        } else {
            DeletePlan::AlreadyAbsent
        }
    }

    /// Transcribes a WAV byte stream under the caller's lock: acquires the
    /// context as `acquire` does, decodes the audio, hands context and samples
    /// to `recognize`, and joins the segments it returns. Samples that
    /// `recognize` cannot read are a `FormatError`; a failure of the backend is
    /// a `TranscriptionError`.
    pub fn transcribe<L: FnOnce(String) -> Option<C>, R: FnOnce(&C, DecodedAudio) -> Result<
        Vec<String>,
        RecognitionFailure,
    >>(&mut self, status: &ModelStatus, audio: &Vec<u8>, load: L, recognize: R) -> (r: Result<
        TranscriptionResult,
        TranscribeError,
    >)
        requires
            forall|p: String| load.requires((p,)),
            forall|c: &C, a: DecodedAudio| recognize.requires((c, a)),
        ensures
            final(self)@ == acquired(old(self)@, has_model(status), final(self).context is Some),
            !has_model(status) || old(self)@.loaded ==> final(self).context == old(self).context,
            has_model(status) && !old(self)@.loaded ==> exists|p: String|
                p@ == status.model_path->0@ && load.ensures((p,), final(self).context),
            ({
                let acq = acquire_outcome(
                    old(self)@,
                    has_model(status),
                    final(self).context is Some,
                );
                &&& acq is Err ==> r == Err::<TranscriptionResult, TranscribeError>(acq->Err_0)
                &&& acq is Ok && !decodable(audio@) ==> r == Err::<
                    TranscriptionResult,
                    TranscribeError,
                >(TranscribeError::FormatError)
                &&& acq is Ok && decodable(audio@) ==> exists|
                    c: C,
                    a: DecodedAudio,
                    o: Result<Vec<String>, RecognitionFailure>,
                |
                    {
                        &&& final(self).context == Some(c)
                        &&& decodes_to(audio@, a)
                        &&& recognize.ensures((&c, a), o)
                        &&& match o {
                            Ok(segments) => {
                                &&& r is Ok
                                &&& r->Ok_0.success
                                &&& r->Ok_0.text@ == trimmed(spaced(texts(segments@)))
                            },
                            Err(f) => r == Err::<TranscriptionResult, TranscribeError>(
                                failure_error(f),
                            ),
                        }
                    }
            }),
    {
        match self.acquire(status, load) {
            Ok(()) => {},
            Err(e) => {
                return Err(e);
            },
        }
        let decoded = match decode_wav(audio) {
            Ok(a) => a,
            Err(e) => {
                return Err(e);
            },
        };
        let ghost a = decoded;
        let segments = match &self.context {
            Some(c) => recognize(c, decoded),
            None => {
                return Err(TranscribeError::ModelLoadError);
            },
        };
        let ghost o = segments;
        match segments {
            Ok(s) => Ok(TranscriptionResult::from_segments(&s)),
            Err(RecognitionFailure::UnreadableSamples) => Err(TranscribeError::FormatError),
            Err(RecognitionFailure::Backend) => Err(TranscribeError::TranscriptionError),
        }
    }
}

/// Two transcriptions that the lock serialises, against an engine with no
/// context and a model on disk, start one model load between them: the first
/// loads, and the second reuses what the first loaded.
pub proof fn lemma_single_load(v: EngineView, first_ok: bool, second_ok: bool)
    requires
        !v.loaded,
        first_ok,
    ensures
        ({
            let after_first = acquired(v, true, first_ok);
            let after_second = acquired(after_first, true, second_ok);
            &&& acquire_outcome(v, true, first_ok) == Ok::<(), TranscribeError>(())
            &&& acquire_outcome(after_first, true, second_ok) == Ok::<(), TranscribeError>(())
            &&& after_second.loaded
            &&& after_second.loads == v.loads + 1
        }),
{
}

/// Once a deletion has cleared the cache and no model is left on disk, a
/// transcription fails with `NoModelError`, leaves the engine as it was and
/// starts no load, whatever was loaded before.
pub proof fn lemma_deletion_invalidates(v: EngineView, status: ModelStatus, load_ok: bool)
    requires
        !status.is_downloaded,
    ensures
        !cleared(v).loaded,
        acquire_outcome(cleared(v), has_model(&status), load_ok) == Err::<(), TranscribeError>(
            TranscribeError::NoModelError,
        ),
        acquired(cleared(v), has_model(&status), load_ok) == cleared(v),
        acquired(cleared(v), has_model(&status), load_ok).loads == v.loads,
{
}

} // verus!
