//! The closed enumerations of the driver: model identifiers, transcript
//! output formats, and the error taxonomy.

use vstd::prelude::*;

verus! {

/// The recognized whisper.cpp model identifiers. Each variant has one
/// canonical string token, consumed unchanged by the engine's model-download
/// helper and embedded into the model file name `ggml-<token>.bin` and the
/// per-model binary name `main-<token>`.
#[derive(Clone, Copy, Debug, PartialEq, Eq, Structural)]
pub enum ModelId {
    Tiny,
    TinyEn,
    Base,
    BaseEn,
    Small,
    SmallEn,
    SmallEnTdrz,
    Medium,
    MediumEn,
    LargeV1,
    LargeV2,
    LargeV2Q50,
    LargeV3,
    LargeV3Q50,
}

impl ModelId {
    /// The canonical token of this model identifier.
    pub open spec fn token_spec(self) -> Seq<char> {
        match self {
            ModelId::Tiny => "tiny"@,
            ModelId::TinyEn => "tiny.en"@,
            ModelId::Base => "base"@,
            ModelId::BaseEn => "base.en"@,
            ModelId::Small => "small"@,
            ModelId::SmallEn => "small.en"@,
            ModelId::SmallEnTdrz => "small.en-tdrz"@,
            ModelId::Medium => "medium"@,
            ModelId::MediumEn => "medium.en"@,
            ModelId::LargeV1 => "large-v1"@,
            ModelId::LargeV2 => "large-v2"@,
            ModelId::LargeV2Q50 => "large-v2-q5_0"@,
            ModelId::LargeV3 => "large-v3"@,
            ModelId::LargeV3Q50 => "large-v3-q5_0"@,
        }
    }

    /// Returns the canonical token.
    pub fn token(&self) -> (t: String)
        ensures
            t@ == self.token_spec(),
    {
        match self {
            ModelId::Tiny => String::from_str("tiny"),
            ModelId::TinyEn => String::from_str("tiny.en"),
            ModelId::Base => String::from_str("base"),
            ModelId::BaseEn => String::from_str("base.en"),
            ModelId::Small => String::from_str("small"),
            ModelId::SmallEn => String::from_str("small.en"),
            ModelId::SmallEnTdrz => String::from_str("small.en-tdrz"),
            ModelId::Medium => String::from_str("medium"),
            ModelId::MediumEn => String::from_str("medium.en"),
            ModelId::LargeV1 => String::from_str("large-v1"),
            ModelId::LargeV2 => String::from_str("large-v2"),
            ModelId::LargeV2Q50 => String::from_str("large-v2-q5_0"),
            ModelId::LargeV3 => String::from_str("large-v3"),
            ModelId::LargeV3Q50 => String::from_str("large-v3-q5_0"),
        }
    }

    /// Parses a token back into a model identifier: `Some(m)` exactly when
    /// the token is the canonical token of `m`, `None` for every other
    /// string.
    pub fn from_token(s: &str) -> (r: Option<ModelId>)
        ensures
            r matches Some(m) ==> s@ == m.token_spec(),
            r is None ==> forall|m: ModelId| s@ != #[trigger] m.token_spec(),
    {
        if str_eq(s, "tiny") {
            Some(ModelId::Tiny)
        } else if str_eq(s, "tiny.en") {
            Some(ModelId::TinyEn)
        } else if str_eq(s, "base") {
            Some(ModelId::Base)
        } else if str_eq(s, "base.en") {
            Some(ModelId::BaseEn)
        } else if str_eq(s, "small") {
            Some(ModelId::Small)
        } else if str_eq(s, "small.en") {
            Some(ModelId::SmallEn)
        } else if str_eq(s, "small.en-tdrz") {
            Some(ModelId::SmallEnTdrz)
        } else if str_eq(s, "medium") {
            Some(ModelId::Medium)
        } else if str_eq(s, "medium.en") {
            Some(ModelId::MediumEn)
        } else if str_eq(s, "large-v1") {
            Some(ModelId::LargeV1)
        } else if str_eq(s, "large-v2") {
            Some(ModelId::LargeV2)
        } else if str_eq(s, "large-v2-q5_0") {
            Some(ModelId::LargeV2Q50)
        } else if str_eq(s, "large-v3") {
            Some(ModelId::LargeV3)
        } else if str_eq(s, "large-v3-q5_0") {
            Some(ModelId::LargeV3Q50)
        } else {
            None
        }
    }
}

impl Default for ModelId {
    /// The default model identifier, token `large-v3-q5_0`.
    fn default() -> (r: Self)
        ensures
            r == ModelId::LargeV3Q50,
    {
        ModelId::LargeV3Q50
    }
}

/// The recognized transcript output formats. Each variant selects exactly
/// one engine output flag.
#[derive(Clone, Copy, Debug, PartialEq, Eq, Structural)]
pub enum OutputFormat {
    Srt,
    Txt,
    Vtt,
    Lrc,
}

impl OutputFormat {
    /// The engine output flag selected by this format.
    pub open spec fn flag_spec(self) -> Seq<char> {
        match self {
            OutputFormat::Srt => "-osrt"@,
            OutputFormat::Txt => "-otxt"@,
            OutputFormat::Vtt => "-ovtt"@,
            OutputFormat::Lrc => "-olrc"@,
        }
    }

    /// The token under which the format is selected on the command line.
    pub open spec fn token_spec(self) -> Seq<char> {
        match self {
            OutputFormat::Srt => "srt"@,
            OutputFormat::Txt => "txt"@,
            OutputFormat::Vtt => "vtt"@,
            OutputFormat::Lrc => "lrc"@,
        }
    }

    /// Returns the engine output flag.
    pub fn flag(&self) -> (t: String)
        ensures
            t@ == self.flag_spec(),
    {
        match self {
            OutputFormat::Srt => String::from_str("-osrt"),
            OutputFormat::Txt => String::from_str("-otxt"),
            OutputFormat::Vtt => String::from_str("-ovtt"),
            OutputFormat::Lrc => String::from_str("-olrc"),
        }
    }

    /// Parses a command-line token into a format: `Some(f)` exactly when the
    /// token is the canonical token of `f`, `None` for every other string.
    pub fn from_token(s: &str) -> (r: Option<OutputFormat>)
        ensures
            r matches Some(f) ==> s@ == f.token_spec(),
            r is None ==> forall|f: OutputFormat| s@ != #[trigger] f.token_spec(),
    {
        if str_eq(s, "srt") {
            Some(OutputFormat::Srt)
        } else if str_eq(s, "txt") {
            Some(OutputFormat::Txt)
        } else if str_eq(s, "vtt") {
            Some(OutputFormat::Vtt)
        } else if str_eq(s, "lrc") {
            Some(OutputFormat::Lrc)
        } else {
            None
        }
    }
}

impl Default for OutputFormat {
    /// The default output format, token `srt`.
    fn default() -> (r: Self)
        ensures
            r == OutputFormat::Srt,
    {
        OutputFormat::Srt
    }
}

/// The error taxonomy of the driver. Every failure of a run is classified
/// as exactly one of these kinds and surfaced as a single diagnostic line.
#[derive(Clone, Copy, Debug, PartialEq, Eq, Structural)]
pub enum Error {
    /// The application-data root cannot be resolved.
    EnvironmentError,
    /// The media transcoder is not callable.
    DependencyMissing,
    /// The engine source checkout could not be created.
    CloneFailed,
    /// The model-download helper failed.
    DownloadFailed,
    /// The native build or the post-build rename failed.
    BuildFailed,
    /// The transcoder rejected the input, or the input has no filename.
    NormalizationFailed,
    /// The engine did not run to success.
    TranscriptionFailed,
    /// An unexpected filesystem error.
    IoError,
}

impl Error {
    /// The diagnostic line of this error kind.
    pub open spec fn message_spec(self) -> Seq<char> {
        match self {
            Error::EnvironmentError => "EnvironmentError: cannot determine project directories"@,
            Error::DependencyMissing => "DependencyMissing: ffmpeg not found. use brew install ffmpeg"@,
            Error::CloneFailed => "CloneFailed: could not clone the whisper.cpp repository"@,
            Error::DownloadFailed => "DownloadFailed: the model download helper did not succeed"@,
            Error::BuildFailed => "BuildFailed: the engine build or the post-build rename did not succeed"@,
            Error::NormalizationFailed => "NormalizationFailed: could not produce a 16 kHz WAV from the input"@,
            Error::TranscriptionFailed => "TranscriptionFailed: the engine exited unsuccessfully"@,
            Error::IoError => "IoError: unexpected filesystem error"@,
        }
    }

    /// Returns the diagnostic line of this error kind.
    pub fn message(&self) -> (t: String)
        ensures
            t@ == self.message_spec(),
    {
        match self {
            Error::EnvironmentError => String::from_str(
                "EnvironmentError: cannot determine project directories",
            ),
            Error::DependencyMissing => String::from_str(
                "DependencyMissing: ffmpeg not found. use brew install ffmpeg",
            ),
            Error::CloneFailed => String::from_str(
                "CloneFailed: could not clone the whisper.cpp repository",
            ),
            Error::DownloadFailed => String::from_str(
                "DownloadFailed: the model download helper did not succeed",
            ),
            Error::BuildFailed => String::from_str(
                "BuildFailed: the engine build or the post-build rename did not succeed",
            ),
            Error::NormalizationFailed => String::from_str(
                "NormalizationFailed: could not produce a 16 kHz WAV from the input",
            ),
            Error::TranscriptionFailed => String::from_str(
                "TranscriptionFailed: the engine exited unsuccessfully",
            ),
            Error::IoError => String::from_str("IoError: unexpected filesystem error"),
        }
    }
}

/// Character-for-character string equality: true exactly when the two
/// views agree.
pub fn str_eq(a: &str, b: &str) -> (r: bool)
    ensures
        r == (a@ == b@),
{
    let an = a.unicode_len();
    let bn = b.unicode_len();
    if an != bn {
        return false;
    }
    let mut i: usize = 0;
    while i < an
        invariant
            an == a@.len(),
            an == b@.len(),
            i <= an,
            forall|j: int| 0 <= j < i ==> a@[j] == b@[j],
        decreases an - i,
    {
        if a.get_char(i) != b.get_char(i) {
            return false;
        }
        i = i + 1;
    }
    proof {
        assert(a@ =~= b@);
    }
    true
}

} // verus!
