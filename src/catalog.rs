use crate::error::TranscribeError;
use vstd::prelude::*;
use vstd::string::*;

verus! {

/// The two model sizes that can be installed.
#[derive(Clone, Copy, Debug, PartialEq, Eq, Structural)]
pub enum ModelTier {
    /// The small model, identified as "tiny".
    Compact,
    /// The larger model, identified as "base"; preferred when both are present.
    Standard,
}

/// Size reported for the compact model when its file size cannot be read.
pub const COMPACT_NOMINAL_MB: u64 = 75;

/// Size reported for the standard model when its file size cannot be read.
pub const STANDARD_NOMINAL_MB: u64 = 142;

/// The tier that an external identifier names, if any.
pub open spec fn tier_of(id: Seq<char>) -> Option<ModelTier> {
    if id == "tiny"@ {
        Some(ModelTier::Compact)
    } else if id == "base"@ {
        Some(ModelTier::Standard)
    } else {
        None
    }
}

impl ModelTier {
    /// The external identifier of the tier.
    pub open spec fn id_spec(self) -> Seq<char> {
        match self {
            ModelTier::Compact => "tiny"@,
            ModelTier::Standard => "base"@,
        }
    }

    /// The canonical file name of the tier's model.
    pub open spec fn file_name_spec(self) -> Seq<char> {
        match self {
            ModelTier::Compact => "ggml-tiny.en.bin"@,
            ModelTier::Standard => "ggml-base.en.bin"@,
        }
    }

    /// The remote source of the tier's model.
    pub open spec fn url_spec(self) -> Seq<char> {
        match self {
            ModelTier::Compact =>
                "https://huggingface.co/ggerganov/whisper.cpp/resolve/main/ggml-tiny.en.bin"@,
            ModelTier::Standard =>
                "https://huggingface.co/ggerganov/whisper.cpp/resolve/main/ggml-base.en.bin"@,
        }
    }

    /// The size in megabytes assumed for the tier's model when none can be measured.
    pub open spec fn nominal_mb_spec(self) -> u64 {
        match self {
            ModelTier::Compact => COMPACT_NOMINAL_MB,
            ModelTier::Standard => STANDARD_NOMINAL_MB,
        }
    }

    /// Reads an external identifier: "tiny" or "base"; anything else is refused.
    pub fn parse(id: &String) -> (r: Result<ModelTier, TranscribeError>)
        ensures
            match tier_of(id@) {
                Some(t) => r == Ok::<ModelTier, TranscribeError>(t),
                None => r == Err::<ModelTier, TranscribeError>(TranscribeError::InvalidArgument),
            },
    {
        proof {
            reveal_strlit("tiny");
            reveal_strlit("base");
        }
        let tiny = String::from_str("tiny");
        let base = String::from_str("base");
        if *id == tiny {
            Ok(ModelTier::Compact)
        } else if *id == base {
            Ok(ModelTier::Standard)
        } else {
            Err(TranscribeError::InvalidArgument)
        }
    }

    /// The external identifier of the tier.
    pub fn id(self) -> (r: String)
        ensures
            r@ == self.id_spec(),
            tier_of(r@) == Some(self),
    {
        proof {
            reveal_strlit("tiny");
            reveal_strlit("base");
        }
        let r = match self {
            ModelTier::Compact => String::from_str("tiny"),
            ModelTier::Standard => String::from_str("base"),
        };
        assert(r@ == self.id_spec());
        assert("base"@[0] != "tiny"@[0]);
        r
    }

    /// The canonical file name of the tier's model.
    pub fn file_name(self) -> (r: String)
        ensures
            r@ == self.file_name_spec(),
    {
        match self {
            ModelTier::Compact => String::from_str("ggml-tiny.en.bin"),
            ModelTier::Standard => String::from_str("ggml-base.en.bin"),
        }
    }

    /// The remote source of the tier's model.
    pub fn url(self) -> (r: String)
        ensures
            r@ == self.url_spec(),
    {
        match self {
            ModelTier::Compact => String::from_str(
                "https://huggingface.co/ggerganov/whisper.cpp/resolve/main/ggml-tiny.en.bin",
            ),
            ModelTier::Standard => String::from_str(
                "https://huggingface.co/ggerganov/whisper.cpp/resolve/main/ggml-base.en.bin",
            ),
        }
    }

    /// The size in megabytes assumed for the tier's model when none can be measured.
    pub fn nominal_mb(self) -> (r: u64)
        ensures
            r == self.nominal_mb_spec(),
    {
        match self {
            ModelTier::Compact => COMPACT_NOMINAL_MB,
            ModelTier::Standard => STANDARD_NOMINAL_MB,
        }
    }
}

} // verus!
