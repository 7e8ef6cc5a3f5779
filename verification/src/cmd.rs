//! The subprocess contracts of the driver: one argument-vector
//! specification per external invocation, builders that meet them exactly,
//! and the laws that tie the model token and the format flag to them.

use crate::model::Error;
use crate::model::ModelId;
use crate::model::OutputFormat;
use crate::paths::file_name;
use crate::paths::file_name_spec;
use crate::paths::join;
use crate::paths::join_spec;
use crate::paths::wav_name;
use crate::paths::wav_name_spec;
use vstd::prelude::*;

verus! {

broadcast use vstd::string::group_string_axioms;

/// One subprocess invocation: a program name and its ordered arguments.
pub struct CommandLine {
    pub program: String,
    pub args: Vec<String>,
}

impl CommandLine {
    /// The argument vector as a sequence of character sequences.
    pub open spec fn argv(self) -> Seq<Seq<char>> {
        Seq::new(self.args@.len(), |i: int| self.args@[i]@)
    }

    /// The command invokes `prog` with exactly the arguments `args`.
    pub open spec fn is_cmd(self, prog: Seq<char>, args: Seq<Seq<char>>) -> bool {
        self.program@ == prog && self.argv() == args
    }
}

/// Arguments of the transcoder probe: `ffmpeg -version`.
pub open spec fn probe_args() -> Seq<Seq<char>> {
    seq!["-version"@]
}

/// Arguments of the checkout clone: `git clone <upstream-url> <checkout>`.
pub open spec fn clone_args(checkout: Seq<char>) -> Seq<Seq<char>> {
    seq!["clone"@, "git@github.com:ggerganov/whisper.cpp.git"@, checkout]
}

/// Arguments of the model download helper:
/// `bash <checkout>/models/download-ggml-model.sh <token>`.
pub open spec fn download_args(checkout: Seq<char>, m: ModelId) -> Seq<Seq<char>> {
    seq![checkout + "/models/download-ggml-model.sh"@, m.token_spec()]
}

/// Arguments of the native build: `make --directory=<checkout>`.
pub open spec fn build_args(checkout: Seq<char>) -> Seq<Seq<char>> {
    seq!["--directory="@ + checkout]
}

/// Arguments of the post-build rename:
/// `mv <checkout>/main <checkout>/main-<token>`.
pub open spec fn rename_args(checkout: Seq<char>, m: ModelId) -> Seq<Seq<char>> {
    seq![checkout + "/main"@, checkout + "/main-"@ + m.token_spec()]
}

/// Arguments of the normalization step:
/// `ffmpeg -i <input> -ar 16000 -f wav <wav>`.
pub open spec fn normalize_args(input: Seq<char>, wav: Seq<char>) -> Seq<Seq<char>> {
    seq!["-i"@, input, "-ar"@, "16000"@, "-f"@, "wav"@, wav]
}

/// The per-model engine binary: `<checkout>/main-<token>`.
pub open spec fn engine_program(checkout: Seq<char>, m: ModelId) -> Seq<char> {
    checkout + "/main-"@ + m.token_spec()
}

/// Arguments of the engine invocation:
/// `-m <checkout>/models/ggml-<token>.bin -f <wav> <format-flag> -of <out-base>`.
pub open spec fn engine_args(
    checkout: Seq<char>,
    m: ModelId,
    wav: Seq<char>,
    f: OutputFormat,
    out_base: Seq<char>,
) -> Seq<Seq<char>> {
    seq![
        "-m"@,
        checkout + "/models/ggml-"@ + m.token_spec() + ".bin"@,
        "-f"@,
        wav,
        f.flag_spec(),
        "-of"@,
        out_base,
    ]
}

/// Builds the transcoder probe command. Its spawn succeeding — with any
/// exit status — is what passes the dependency check.
pub fn check_dependencies() -> (c: CommandLine)
    ensures
        c.is_cmd("ffmpeg"@, probe_args()),
{
    let mut args: Vec<String> = Vec::new();
    args.push(String::from_str("-version"));
    let c = CommandLine { program: String::from_str("ffmpeg"), args };
    proof {
        assert(c.argv() =~= probe_args());
    }
    c
}

/// Builds the checkout clone command.
pub fn clone_command(checkout: &str) -> (c: CommandLine)
    ensures
        c.is_cmd("git"@, clone_args(checkout@)),
{
    let mut args: Vec<String> = Vec::new();
    args.push(String::from_str("clone"));
    args.push(String::from_str("git@github.com:ggerganov/whisper.cpp.git"));
    args.push(checkout.to_owned());
    let c = CommandLine { program: String::from_str("git"), args };
    proof {
        assert(c.argv() =~= clone_args(checkout@));
    }
    c
}

/// Builds the model download command.
pub fn download_command(checkout: &str, model: &ModelId) -> (c: CommandLine)
    ensures
        c.is_cmd("bash"@, download_args(checkout@, *model)),
{
    let mut script = checkout.to_owned();
    script.append("/models/download-ggml-model.sh");
    let mut args: Vec<String> = Vec::new();
    args.push(script);
    args.push(model.token());
    let c = CommandLine { program: String::from_str("bash"), args };
    proof {
        assert(c.argv() =~= download_args(checkout@, *model));
    }
    c
}

/// Builds the native build command.
pub fn build_command(checkout: &str) -> (c: CommandLine)
    ensures
        c.is_cmd("make"@, build_args(checkout@)),
{
    let mut dir_flag = String::from_str("--directory=");
    dir_flag.append(checkout);
    let mut args: Vec<String> = Vec::new();
    args.push(dir_flag);
    let c = CommandLine { program: String::from_str("make"), args };
    proof {
        assert(c.argv() =~= build_args(checkout@));
    }
    c
}

/// Builds the post-build rename command.
pub fn rename_command(checkout: &str, model: &ModelId) -> (c: CommandLine)
    ensures
        c.is_cmd("mv"@, rename_args(checkout@, *model)),
{
    let mut source = checkout.to_owned();
    source.append("/main");
    let mut target = checkout.to_owned();
    target.append("/main-");
    let token = model.token();
    target.append(token.as_str());
    let mut args: Vec<String> = Vec::new();
    args.push(source);
    args.push(target);
    let c = CommandLine { program: String::from_str("mv"), args };
    proof {
        assert(c.argv() =~= rename_args(checkout@, *model));
    }
    c
}

/// Builds the normalization command.
pub fn normalize_command(input: &str, wav: &str) -> (c: CommandLine)
    ensures
        c.is_cmd("ffmpeg"@, normalize_args(input@, wav@)),
{
    let mut args: Vec<String> = Vec::new();
    args.push(String::from_str("-i"));
    args.push(input.to_owned());
    args.push(String::from_str("-ar"));
    args.push(String::from_str("16000"));
    args.push(String::from_str("-f"));
    args.push(String::from_str("wav"));
    args.push(wav.to_owned());
    let c = CommandLine { program: String::from_str("ffmpeg"), args };
    proof {
        assert(c.argv() =~= normalize_args(input@, wav@));
    }
    c
}

/// Builds the engine invocation.
pub fn engine_command(
    checkout: &str,
    model: &ModelId,
    wav: &str,
    format: &OutputFormat,
    out_base: &str,
) -> (c: CommandLine)
    ensures
        c.is_cmd(
            engine_program(checkout@, *model),
            engine_args(checkout@, *model, wav@, *format, out_base@),
        ),
{
    let token = model.token();
    let mut program = checkout.to_owned();
    program.append("/main-");
    program.append(token.as_str());

    let mut model_path = checkout.to_owned();
    model_path.append("/models/ggml-");
    model_path.append(token.as_str());
    model_path.append(".bin");

    let mut args: Vec<String> = Vec::new();
    args.push(String::from_str("-m"));
    args.push(model_path);
    args.push(String::from_str("-f"));
    args.push(wav.to_owned());
    args.push(format.flag());
    args.push(String::from_str("-of"));
    args.push(out_base.to_owned());
    let c = CommandLine { program, args };
    proof {
        assert(c.argv() =~= engine_args(checkout@, *model, wav@, *format, out_base@));
    }
    c
}

/// The ordered provisioning commands for one model: a clone when the
/// checkout is not yet present, then the model download, the native build,
/// and the rename to the per-model binary name.
pub fn setup(model: &ModelId, checkout: &str, checkout_present: bool) -> (cmds: Vec<CommandLine>)
    ensures
        cmds@.len() == (if checkout_present { 3int } else { 4int }),
        !checkout_present ==> cmds@[0].is_cmd("git"@, clone_args(checkout@)),
        cmds@[cmds@.len() - 3].is_cmd("bash"@, download_args(checkout@, *model)),
        cmds@[cmds@.len() - 2].is_cmd("make"@, build_args(checkout@)),
        cmds@[cmds@.len() - 1].is_cmd("mv"@, rename_args(checkout@, *model)),
{
    let mut cmds: Vec<CommandLine> = Vec::new();
    if !checkout_present {
        cmds.push(clone_command(checkout));
    }
    cmds.push(download_command(checkout, model));
    cmds.push(build_command(checkout));
    cmds.push(rename_command(checkout, model));
    cmds
}

/// The two pipeline commands for one input: normalize the input into the
/// workspace, and invoke the engine on the normalized file.
/// `Err(NormalizationFailed)` exactly when the input has no filename
/// component.
pub fn transcribe(
    input: &str,
    output_dir: &str,
    workspace: &str,
    checkout: &str,
    model: &ModelId,
    format: &OutputFormat,
) -> (r: Result<Vec<CommandLine>, Error>)
    ensures
        r is Ok <==> file_name_spec(input@) is Some,
        r matches Err(e) ==> e == Error::NormalizationFailed,
        r matches Ok(cmds) ==> ({
            &&& file_name_spec(input@) matches Some(nm)
            &&& cmds@.len() == 2
            &&& cmds@[0].is_cmd(
                "ffmpeg"@,
                normalize_args(input@, join_spec(workspace@, wav_name_spec(nm))),
            )
            &&& cmds@[1].is_cmd(
                engine_program(checkout@, *model),
                engine_args(
                    checkout@,
                    *model,
                    join_spec(workspace@, wav_name_spec(nm)),
                    *format,
                    join_spec(output_dir@, wav_name_spec(nm)),
                ),
            )
        }),
{
    match file_name(input) {
        None => Err(Error::NormalizationFailed),
        Some(name) => {
            let wav = wav_name(name.as_str());
            let wav_path = join(workspace, wav.as_str());
            let out_base = join(output_dir, wav.as_str());
            let mut cmds: Vec<CommandLine> = Vec::new();
            cmds.push(normalize_command(input, wav_path.as_str()));
            cmds.push(engine_command(checkout, model, wav_path.as_str(), format, out_base.as_str()));
            Ok(cmds)
        },
    }
}

/// True of exactly the four engine output-flag tokens.
pub open spec fn is_format_flag(s: Seq<char>) -> bool {
    s == "-osrt"@ || s == "-otxt"@ || s == "-ovtt"@ || s == "-olrc"@
}

/// Law: for any model identifier, the token handed to the download helper,
/// the token embedded in the model file name `ggml-<m>.bin`, and the token
/// embedded in the per-model binary name `main-<m>` are one and the same
/// sequence — the canonical token of the model.
pub proof fn lemma_model_token_consistency(checkout: Seq<char>, m: ModelId)
    ensures
        download_args(checkout, m)[1] == m.token_spec(),
        rename_args(checkout, m)[1] == checkout + "/main-"@ + m.token_spec(),
        engine_program(checkout, m) == checkout + "/main-"@ + m.token_spec(),
        forall|wav: Seq<char>, f: OutputFormat, out_base: Seq<char>|
            (#[trigger] engine_args(checkout, m, wav, f, out_base))[1] == checkout
                + "/models/ggml-"@ + m.token_spec() + ".bin"@,
{
}

/// Law: exactly one output-flag token stands in the engine argument vector
/// — at the flag position — and which one is determined solely by the
/// format, whenever the wav and output base paths end in `.wav` (the
/// pipeline only ever hands such paths).
pub proof fn lemma_engine_format_flag(
    checkout: Seq<char>,
    m: ModelId,
    wav: Seq<char>,
    f: OutputFormat,
    out_base: Seq<char>,
)
    requires
        wav.len() >= 4,
        wav.subrange(wav.len() - 4, wav.len() as int) == ".wav"@,
        out_base.len() >= 4,
        out_base.subrange(out_base.len() - 4, out_base.len() as int) == ".wav"@,
    ensures
        engine_args(checkout, m, wav, f, out_base)[4] == f.flag_spec(),
        is_format_flag(f.flag_spec()),
        forall|i: int|
            0 <= i < engine_args(checkout, m, wav, f, out_base).len() ==> (is_format_flag(
                #[trigger] engine_args(checkout, m, wav, f, out_base)[i],
            ) <==> i == 4),
{
    reveal_strlit("-osrt");
    reveal_strlit("-otxt");
    reveal_strlit("-ovtt");
    reveal_strlit("-olrc");
    reveal_strlit("-m");
    reveal_strlit("-f");
    reveal_strlit("-of");
    reveal_strlit("/models/ggml-");
    reveal_strlit(".bin");
    reveal_strlit(".wav");
    assert("-m"@.len() == 2);
    assert("-f"@.len() == 2);
    assert("-of"@.len() == 3);
    assert("-osrt"@.len() == 5 && "-osrt"@[4] == 't');
    assert("-otxt"@.len() == 5 && "-otxt"@[4] == 't');
    assert("-ovtt"@.len() == 5 && "-ovtt"@[4] == 't');
    assert("-olrc"@.len() == 5 && "-olrc"@[4] == 'c');
    assert("/models/ggml-"@.len() == 13);
    assert(".bin"@.len() == 4);
    assert(".wav"@.len() == 4 && ".wav"@[3] == 'v');
    let a = engine_args(checkout, m, wav, f, out_base);
    assert(a.len() == 7);
    assert(wav[wav.len() - 1] == 'v') by {
        assert(wav.subrange(wav.len() - 4, wav.len() as int)[3] == wav[wav.len() - 1]);
    }
    assert(out_base[out_base.len() - 1] == 'v') by {
        assert(out_base.subrange(out_base.len() - 4, out_base.len() as int)[3] == out_base[out_base.len()
            - 1]);
    }
    assert(a[0] == "-m"@);
    assert(a[1] == checkout + "/models/ggml-"@ + m.token_spec() + ".bin"@);
    assert(a[2] == "-f"@);
    assert(a[3] == wav);
    assert(a[4] == f.flag_spec());
    assert(a[5] == "-of"@);
    assert(a[6] == out_base);
    assert(is_format_flag(f.flag_spec())) by {
        match f {
            OutputFormat::Srt => assert(f.flag_spec() == "-osrt"@),
            OutputFormat::Txt => assert(f.flag_spec() == "-otxt"@),
            OutputFormat::Vtt => assert(f.flag_spec() == "-ovtt"@),
            OutputFormat::Lrc => assert(f.flag_spec() == "-olrc"@),
        }
    }
    assert(!is_format_flag(a[1])) by {
        assert(a[1].len() == checkout.len() + 13 + m.token_spec().len() + 4);
    }
    assert(!is_format_flag(wav)) by {
        if wav == "-osrt"@ || wav == "-otxt"@ || wav == "-ovtt"@ || wav == "-olrc"@ {
            assert(wav.len() == 5);
            assert(wav[4] == 'v');
        }
    }
    assert(!is_format_flag(out_base)) by {
        if out_base == "-osrt"@ || out_base == "-otxt"@ || out_base == "-ovtt"@ || out_base
            == "-olrc"@ {
            assert(out_base.len() == 5);
            assert(out_base[4] == 'v');
        }
    }
    assert(!is_format_flag("-m"@));
    assert(!is_format_flag("-f"@));
    assert(!is_format_flag("-of"@));
    assert forall|i: int| 0 <= i < a.len() implies (is_format_flag(#[trigger] a[i]) <==> i == 4) by {
        assert(i == 0 || i == 1 || i == 2 || i == 3 || i == 4 || i == 5 || i == 6);
    }
}

/// Law: for the paths the pipeline itself builds — the normalized file in
/// the workspace and the output base in the output directory — exactly one
/// output-flag token appears in the engine argument vector, determined
/// solely by the requested format.
pub proof fn lemma_pipeline_format_flag(
    checkout: Seq<char>,
    m: ModelId,
    workspace: Seq<char>,
    name: Seq<char>,
    output_dir: Seq<char>,
    f: OutputFormat,
)
    ensures
        ({
            let wav = join_spec(workspace, wav_name_spec(name));
            let out_base = join_spec(output_dir, wav_name_spec(name));
            let a = engine_args(checkout, m, wav, f, out_base);
            &&& a[4] == f.flag_spec()
            &&& forall|i: int|
                0 <= i < a.len() ==> (is_format_flag(#[trigger] a[i]) <==> i == 4)
        }),
{
    crate::paths::lemma_wav_name_suffix(name);
    crate::paths::lemma_join_keeps_suffix(workspace, wav_name_spec(name), 4);
    crate::paths::lemma_join_keeps_suffix(output_dir, wav_name_spec(name), 4);
    lemma_engine_format_flag(
        checkout,
        m,
        join_spec(workspace, wav_name_spec(name)),
        f,
        join_spec(output_dir, wav_name_spec(name)),
    );
}

} // verus!
