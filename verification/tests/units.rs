use whisper_cli::cmd;
use whisper_cli::model::Error;
use whisper_cli::model::ModelId;
use whisper_cli::model::OutputFormat;
use whisper_cli::paths;

const ALL_MODELS: [ModelId; 14] = [
    ModelId::Tiny,
    ModelId::TinyEn,
    ModelId::Base,
    ModelId::BaseEn,
    ModelId::Small,
    ModelId::SmallEn,
    ModelId::SmallEnTdrz,
    ModelId::Medium,
    ModelId::MediumEn,
    ModelId::LargeV1,
    ModelId::LargeV2,
    ModelId::LargeV2Q50,
    ModelId::LargeV3,
    ModelId::LargeV3Q50,
];

#[test]
fn model_tokens_are_canonical() {
    let expected = [
        "tiny",
        "tiny.en",
        "base",
        "base.en",
        "small",
        "small.en",
        "small.en-tdrz",
        "medium",
        "medium.en",
        "large-v1",
        "large-v2",
        "large-v2-q5_0",
        "large-v3",
        "large-v3-q5_0",
    ];
    for (m, t) in ALL_MODELS.iter().zip(expected.iter()) {
        assert_eq!(m.token(), *t);
    }
}

#[test]
fn model_token_round_trip() {
    for m in ALL_MODELS.iter() {
        assert_eq!(ModelId::from_token(m.token().as_str()), Some(*m));
    }
    assert_eq!(ModelId::from_token("huge"), None);
    assert_eq!(ModelId::from_token(""), None);
    assert_eq!(ModelId::from_token("TINY"), None);
}

#[test]
fn model_default_is_largest_quantized() {
    assert_eq!(ModelId::default(), ModelId::LargeV3Q50);
    assert_eq!(ModelId::default().token(), "large-v3-q5_0");
}

#[test]
fn format_flags_are_canonical() {
    assert_eq!(OutputFormat::Srt.flag(), "-osrt");
    assert_eq!(OutputFormat::Txt.flag(), "-otxt");
    assert_eq!(OutputFormat::Vtt.flag(), "-ovtt");
    assert_eq!(OutputFormat::Lrc.flag(), "-olrc");
}

#[test]
fn format_token_round_trip() {
    let all = [OutputFormat::Srt, OutputFormat::Txt, OutputFormat::Vtt, OutputFormat::Lrc];
    let tokens = ["srt", "txt", "vtt", "lrc"];
    for (f, t) in all.iter().zip(tokens.iter()) {
        assert_eq!(OutputFormat::from_token(t), Some(*f));
    }
    assert_eq!(OutputFormat::from_token("-osrt"), None);
    assert_eq!(OutputFormat::from_token("mp3"), None);
    assert_eq!(OutputFormat::default(), OutputFormat::Srt);
}

#[test]
fn error_messages_name_their_kind() {
    let all = [
        (Error::EnvironmentError, "EnvironmentError"),
        (Error::DependencyMissing, "DependencyMissing"),
        (Error::CloneFailed, "CloneFailed"),
        (Error::DownloadFailed, "DownloadFailed"),
        (Error::BuildFailed, "BuildFailed"),
        (Error::NormalizationFailed, "NormalizationFailed"),
        (Error::TranscriptionFailed, "TranscriptionFailed"),
        (Error::IoError, "IoError"),
    ];
    for (e, name) in all.iter() {
        assert!(e.message().starts_with(name));
    }
    assert_eq!(Error::DependencyMissing.message(), "DependencyMissing: ffmpeg not found. use brew install ffmpeg");
}

#[test]
fn file_name_extracts_the_last_component() {
    assert_eq!(paths::file_name("/tmp/a.mp3"), Some("a.mp3".to_string()));
    assert_eq!(paths::file_name("clip.mov"), Some("clip.mov".to_string()));
    assert_eq!(paths::file_name("a/b/c"), Some("c".to_string()));
    assert_eq!(paths::file_name("a/"), Some("a".to_string()));
    assert_eq!(paths::file_name("a//"), Some("a".to_string()));
}

#[test]
fn file_name_rejects_paths_without_one() {
    assert_eq!(paths::file_name("/"), None);
    assert_eq!(paths::file_name("//"), None);
    assert_eq!(paths::file_name(""), None);
    assert_eq!(paths::file_name("."), None);
    assert_eq!(paths::file_name(".."), None);
    assert_eq!(paths::file_name("a/.."), None);
}

#[test]
fn wav_name_rewrites_the_extension() {
    assert_eq!(paths::wav_name("a.mp3"), "a.wav");
    assert_eq!(paths::wav_name("clip.mov"), "clip.wav");
    assert_eq!(paths::wav_name("a"), "a.wav");
    assert_eq!(paths::wav_name("a."), "a.wav");
    assert_eq!(paths::wav_name("a.tar.gz"), "a.tar.wav");
    assert_eq!(paths::wav_name(".bashrc"), ".bashrc.wav");
}

#[test]
fn join_uses_a_single_separator() {
    assert_eq!(paths::join("/tmp", "a.wav"), "/tmp/a.wav");
    assert_eq!(paths::repository_under("/data"), "/data/whisper.cpp");
}

#[test]
fn repository_resolves_under_the_data_root() {
    match paths::repository() {
        Ok(p) => assert!(p.ends_with("/whisper.cpp")),
        Err(e) => assert_eq!(e, Error::EnvironmentError),
    }
}

#[test]
fn info_report_has_two_lines() {
    let (first, second) = paths::info_lines("/data/whisper.cpp");
    assert_eq!(first, "Directories:");
    assert_eq!(second, "  whisper.cpp: /data/whisper.cpp");
    assert!(second.ends_with("/whisper.cpp"));
    assert!(!first.contains('\n') && !second.contains('\n'));
}

#[test]
fn probe_command_is_a_version_query() {
    let c = cmd::check_dependencies();
    assert_eq!(c.program, "ffmpeg");
    assert_eq!(c.args, vec!["-version".to_string()]);
}

#[test]
fn setup_clones_only_when_the_checkout_is_absent() {
    let with = cmd::setup(&ModelId::Tiny, "/data/whisper.cpp", true);
    assert_eq!(with.len(), 3);
    assert_eq!(with[0].program, "bash");
    assert_eq!(with[1].program, "make");
    assert_eq!(with[2].program, "mv");

    let without = cmd::setup(&ModelId::Tiny, "/data/whisper.cpp", false);
    assert_eq!(without.len(), 4);
    assert_eq!(without[0].program, "git");
    assert_eq!(
        without[0].args,
        vec![
            "clone".to_string(),
            "git@github.com:ggerganov/whisper.cpp.git".to_string(),
            "/data/whisper.cpp".to_string(),
        ]
    );
    assert_eq!(
        without[1].args,
        vec!["/data/whisper.cpp/models/download-ggml-model.sh".to_string(), "tiny".to_string()]
    );
    assert_eq!(without[2].args, vec!["--directory=/data/whisper.cpp".to_string()]);
    assert_eq!(
        without[3].args,
        vec!["/data/whisper.cpp/main".to_string(), "/data/whisper.cpp/main-tiny".to_string()]
    );
}

#[test]
fn setup_token_is_byte_identical_everywhere() {
    for m in ALL_MODELS.iter() {
        let token = m.token();
        let cmds = cmd::setup(m, "/c", false);
        assert_eq!(cmds[1].args[1], token);
        assert_eq!(cmds[3].args[1], format!("/c/main-{}", token));
        let engine = cmd::engine_command("/c", m, "/w/a.wav", &OutputFormat::Srt, "/o/a.wav");
        assert_eq!(engine.program, format!("/c/main-{}", token));
        assert_eq!(engine.args[1], format!("/c/models/ggml-{}.bin", token));
    }
}

#[test]
fn transcribe_plans_normalize_then_engine() {
    let cmds = cmd::transcribe(
        "/tmp/a.mp3",
        "/out",
        "/ws",
        "/data/whisper.cpp",
        &ModelId::LargeV3Q50,
        &OutputFormat::Srt,
    )
    .unwrap();
    assert_eq!(cmds.len(), 2);
    assert_eq!(cmds[0].program, "ffmpeg");
    assert_eq!(
        cmds[0].args,
        vec![
            "-i".to_string(),
            "/tmp/a.mp3".to_string(),
            "-ar".to_string(),
            "16000".to_string(),
            "-f".to_string(),
            "wav".to_string(),
            "/ws/a.wav".to_string(),
        ]
    );
    assert_eq!(cmds[1].program, "/data/whisper.cpp/main-large-v3-q5_0");
    assert_eq!(cmds[1].args[6], "/out/a.wav");
}

#[test]
fn transcribe_rejects_an_input_without_filename() {
    let r = cmd::transcribe("/", "/out", "/ws", "/c", &ModelId::Base, &OutputFormat::Srt);
    assert!(matches!(r, Err(Error::NormalizationFailed)));
}

#[test]
fn normalization_pins_rate_and_container() {
    let c = cmd::normalize_command("/tmp/a.mp3", "/ws/a.wav");
    let pos_ar = c.args.iter().position(|x| x == "-ar").unwrap();
    assert_eq!(c.args[pos_ar + 1], "16000");
    let pos_f = c.args.iter().position(|x| x == "-f").unwrap();
    assert_eq!(c.args[pos_f + 1], "wav");
}

#[test]
fn each_format_selects_exactly_one_flag() {
    let flags = ["-osrt", "-otxt", "-ovtt", "-olrc"];
    let all = [
        (OutputFormat::Srt, "-osrt"),
        (OutputFormat::Txt, "-otxt"),
        (OutputFormat::Vtt, "-ovtt"),
        (OutputFormat::Lrc, "-olrc"),
    ];
    for (f, expected) in all.iter() {
        let c = cmd::engine_command("/c", &ModelId::Base, "/w/a.wav", f, "/o/a.wav");
        let found: Vec<&String> =
            c.args.iter().filter(|x| flags.contains(&x.as_str())).collect();
        assert_eq!(found.len(), 1);
        assert_eq!(found[0], expected);
        assert_eq!(&c.args[4], expected);
    }
}
