use std::sync::atomic::{AtomicUsize, Ordering};
use std::sync::Mutex;
use transcriber::audio::{DecodedAudio, MonoSamples};
use transcriber::engine::{DeletePlan, RecognitionFailure, WhisperState};
use transcriber::error::TranscribeError;
use transcriber::storage::{compute_status, FileProbe, ModelStatus};

struct FakeContext {
    path: String,
}

fn probe(path: &str, exists: bool) -> FileProbe {
    FileProbe { path: path.to_string(), exists, len: Some(10) }
}

fn standard_only() -> ModelStatus {
    compute_status(&probe("/m/ggml-base.en.bin", true), &probe("/m/ggml-tiny.en.bin", false))
}

fn nothing() -> ModelStatus {
    compute_status(&probe("/m/ggml-base.en.bin", false), &probe("/m/ggml-tiny.en.bin", false))
}

fn wav_mono(samples: &[i16]) -> Vec<u8> {
    let spec = hound::WavSpec {
        channels: 1,
        sample_rate: 16000,
        bits_per_sample: 16,
        sample_format: hound::SampleFormat::Int,
    };
    let mut cursor = std::io::Cursor::new(Vec::new());
    {
        let mut writer = hound::WavWriter::new(&mut cursor, spec).unwrap();
        for s in samples {
            writer.write_sample(*s).unwrap();
        }
        writer.finalize().unwrap();
    }
    cursor.into_inner()
}

fn words(words: &[&str]) -> Result<Vec<String>, RecognitionFailure> {
    Ok(words.iter().map(|w| w.to_string()).collect())
}

#[test]
fn new_engine_is_unloaded() {
    let engine: WhisperState<FakeContext> = WhisperState::new();
    assert!(!engine.is_loaded());
    assert!(engine.active_path.is_none());
}

#[test]
fn record_status_keeps_reported_path() {
    let mut engine: WhisperState<FakeContext> = WhisperState::new();
    engine.record_status(&standard_only());
    assert_eq!(engine.active_path.as_deref(), Some("/m/ggml-base.en.bin"));
    engine.record_status(&nothing());
    assert_eq!(engine.active_path.as_deref(), Some("/m/ggml-base.en.bin"));
}

#[test]
fn acquire_without_model_fails_and_loads_nothing() {
    let mut engine: WhisperState<FakeContext> = WhisperState::new();
    let loads = AtomicUsize::new(0);
    let r = engine.acquire(&nothing(), |p| {
        loads.fetch_add(1, Ordering::SeqCst);
        Some(FakeContext { path: p })
    });
    assert_eq!(r, Err(TranscribeError::NoModelError));
    assert_eq!(loads.load(Ordering::SeqCst), 0);
    assert!(!engine.is_loaded());
}

#[test]
fn acquire_loads_once_and_reuses() {
    let mut engine: WhisperState<FakeContext> = WhisperState::new();
    let loads = AtomicUsize::new(0);
    let load = |p: String| {
        loads.fetch_add(1, Ordering::SeqCst);
        Some(FakeContext { path: p })
    };
    assert_eq!(engine.acquire(&standard_only(), load), Ok(()));
    assert_eq!(engine.acquire(&standard_only(), load), Ok(()));
    assert_eq!(loads.load(Ordering::SeqCst), 1);
    assert_eq!(engine.context.as_ref().unwrap().path, "/m/ggml-base.en.bin");
}

#[test]
fn failed_load_leaves_engine_unloaded() {
    let mut engine: WhisperState<FakeContext> = WhisperState::new();
    let r = engine.acquire(&standard_only(), |_| None);
    assert_eq!(r, Err(TranscribeError::ModelLoadError));
    assert!(!engine.is_loaded());
    let r = engine.acquire(&standard_only(), |p| Some(FakeContext { path: p }));
    assert_eq!(r, Ok(()));
    assert!(engine.is_loaded());
}

#[test]
fn serialised_transcriptions_load_once() {
    let engine: Mutex<WhisperState<FakeContext>> = Mutex::new(WhisperState::new());
    let loads = AtomicUsize::new(0);
    let audio = wav_mono(&[0, 100, -100]);
    let status = standard_only();
    let run = || {
        let mut guard = engine.lock().unwrap();
        guard.transcribe(
            &status,
            &audio,
            |p| {
                loads.fetch_add(1, Ordering::SeqCst);
                Some(FakeContext { path: p })
            },
            |_c: &FakeContext, _a: DecodedAudio| words(&["hi"]),
        )
    };
    assert_eq!(run().unwrap().text, "hi");
    assert_eq!(run().unwrap().text, "hi");
    assert_eq!(loads.load(Ordering::SeqCst), 1);
}

#[test]
fn deletion_invalidates_cache() {
    let mut engine: WhisperState<FakeContext> = WhisperState::new();
    let status = standard_only();
    engine.record_status(&status);
    assert_eq!(engine.acquire(&status, |p| Some(FakeContext { path: p })), Ok(()));
    assert_eq!(engine.plan_delete(true), DeletePlan::Remove);
    assert!(!engine.is_loaded());
    assert!(engine.active_path.is_none());
    let loads = AtomicUsize::new(0);
    let r = engine.transcribe(
        &nothing(),
        &wav_mono(&[1, 2]),
        |p| {
            loads.fetch_add(1, Ordering::SeqCst);
            Some(FakeContext { path: p })
        },
        |_c: &FakeContext, _a: DecodedAudio| words(&["stale"]),
    );
    assert!(matches!(r, Err(TranscribeError::NoModelError)));
    assert_eq!(loads.load(Ordering::SeqCst), 0);
}

#[test]
fn deleting_absent_file_clears_cache() {
    let mut engine: WhisperState<FakeContext> = WhisperState::new();
    let status = standard_only();
    engine.record_status(&status);
    assert_eq!(engine.acquire(&status, |p| Some(FakeContext { path: p })), Ok(()));
    assert_eq!(engine.plan_delete(false), DeletePlan::AlreadyAbsent);
    assert!(!engine.is_loaded());
    assert!(engine.active_path.is_none());
}

#[test]
fn end_to_end_transcription() {
    let mut engine: WhisperState<FakeContext> = WhisperState::new();
    let audio = wav_mono(&[0, 16384, -16384, 32767]);
    let r = engine.transcribe(
        &standard_only(),
        &audio,
        |p| Some(FakeContext { path: p }),
        |c: &FakeContext, a: DecodedAudio| {
            assert_eq!(c.path, "/m/ggml-base.en.bin");
            assert_eq!(a.sample_rate, 16000);
            match a.mono {
                MonoSamples::Fixed { values, scale } => {
                    assert_eq!(values, vec![0, 16384, -16384, 32767]);
                    assert_eq!(scale, 32768);
                }
                MonoSamples::Float => panic!("expected integer samples"),
            }
            words(&["hello", "world", "today"])
        },
    )
    .unwrap();
    assert!(r.success);
    assert_eq!(r.text, "hello world today");
}

#[test]
fn malformed_audio_after_load_is_format_error() {
    let mut engine: WhisperState<FakeContext> = WhisperState::new();
    let r = engine.transcribe(
        &standard_only(),
        &vec![0, 1, 2],
        |p| Some(FakeContext { path: p }),
        |_c: &FakeContext, _a: DecodedAudio| words(&["x"]),
    );
    assert!(matches!(r, Err(TranscribeError::FormatError)));
    assert!(engine.is_loaded());
}

#[test]
fn recognition_failure_is_transcription_error() {
    let mut engine: WhisperState<FakeContext> = WhisperState::new();
    let r = engine.transcribe(
        &standard_only(),
        &wav_mono(&[5]),
        |p| Some(FakeContext { path: p }),
        |_c: &FakeContext, _a: DecodedAudio| Err(RecognitionFailure::Backend),
    );
    assert!(matches!(r, Err(TranscribeError::TranscriptionError)));
}

#[test]
fn unreadable_samples_are_format_error() {
    let mut engine: WhisperState<FakeContext> = WhisperState::new();
    let r = engine.transcribe(
        &standard_only(),
        &wav_mono(&[5]),
        |p| Some(FakeContext { path: p }),
        |_c: &FakeContext, _a: DecodedAudio| Err(RecognitionFailure::UnreadableSamples),
    );
    assert!(matches!(r, Err(TranscribeError::FormatError)));
    assert!(engine.is_loaded());
}
