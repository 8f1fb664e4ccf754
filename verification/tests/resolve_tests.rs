use moss_weights::release::{release_asset_url, BACKUP_PREFIX, GH_RELEASE_TAG, GH_REPO, HF_REPO};
use moss_weights::resolve::{
    current_source, model_files, newest_backup, resolve_start, resolve_step, source_mode, DirEntry,
    ModelFile, ResolveError, ResolveState, Source, SourceMode,
};

fn chain(mode: SourceMode) -> Vec<Source> {
    let mut out = Vec::new();
    let mut s = resolve_start();
    while let Some(src) = current_source(mode, s) {
        out.push(src);
        s = resolve_step(mode, s, false);
    }
    out
}

fn run(mode: SourceMode, outcomes: &[bool]) -> ResolveState {
    let mut s = resolve_start();
    for &o in outcomes {
        s = resolve_step(mode, s, o);
    }
    s
}

#[test]
fn default_mode_tries_hub_release_local_backup() {
    assert_eq!(
        chain(SourceMode::Auto),
        vec![Source::Hub, Source::Release, Source::Local, Source::Backup]
    );
}

#[test]
fn github_only_skips_the_hub() {
    assert_eq!(chain(SourceMode::GithubOnly), vec![Source::Release, Source::Local]);
}

#[test]
fn local_only_never_downloads() {
    assert_eq!(chain(SourceMode::LocalOnly), vec![Source::Local]);
}

#[test]
fn first_success_wins() {
    assert_eq!(run(SourceMode::Auto, &[true]), ResolveState::Found(Source::Hub));
    assert_eq!(run(SourceMode::Auto, &[false, false, true]), ResolveState::Found(Source::Local));
    assert_eq!(run(SourceMode::Auto, &[false, false, false, true]), ResolveState::Found(Source::Backup));
    assert_eq!(run(SourceMode::GithubOnly, &[false, true]), ResolveState::Found(Source::Local));
    assert_eq!(run(SourceMode::Auto, &[false, true, true]), ResolveState::Found(Source::Release));
}

#[test]
fn errors_when_every_source_fails() {
    assert_eq!(
        run(SourceMode::Auto, &[false, false, false, false]),
        ResolveState::Failed(ResolveError::NotFound)
    );
    assert_eq!(run(SourceMode::GithubOnly, &[false, false]), ResolveState::Failed(ResolveError::Release));
    assert_eq!(run(SourceMode::LocalOnly, &[false]), ResolveState::Failed(ResolveError::LocalMissing));
}

#[test]
fn finished_resolution_stays_finished() {
    let done = ResolveState::Found(Source::Local);
    assert_eq!(resolve_step(SourceMode::Auto, done, false), done);
    assert_eq!(current_source(SourceMode::Auto, done), None);
}

#[test]
fn local_only_flag_wins() {
    assert_eq!(source_mode(true, true), SourceMode::LocalOnly);
    assert_eq!(source_mode(true, false), SourceMode::LocalOnly);
    assert_eq!(source_mode(false, true), SourceMode::GithubOnly);
    assert_eq!(source_mode(false, false), SourceMode::Auto);
}

fn entry(name: &str, is_dir: bool) -> DirEntry {
    DirEntry { name: name.to_string(), is_dir }
}

#[test]
fn newest_backup_is_the_greatest_name() {
    let entries = vec![
        entry("models_backup_20240101000000", true),
        entry("models", true),
        entry("models_backup_20250301120000", true),
        entry("models_backup_20241231235959", true),
    ];
    assert_eq!(newest_backup(&entries), Some(2));
}

#[test]
fn newest_backup_ignores_files_and_other_names() {
    let entries = vec![
        entry("models_backup_20990101000000", false),
        entry("backup_models_20990101000000", true),
        entry("models_backup_20200101000000", true),
        entry("Models_backup_20990101000000", true),
    ];
    assert_eq!(newest_backup(&entries), Some(2));
    assert_eq!(newest_backup(&vec![entry("models", true), entry("x", false)]), None);
    assert_eq!(newest_backup(&Vec::new()), None);
}

#[test]
fn newest_backup_keeps_the_first_of_equal_names() {
    let entries = vec![
        entry("models_backup_1", true),
        entry("models_backup_2", true),
        entry("models_backup_2", true),
    ];
    assert_eq!(newest_backup(&entries), Some(1));
}

#[test]
fn longer_name_with_same_prefix_is_newer() {
    let entries = vec![entry("models_backup_2024", true), entry("models_backup_20240", true)];
    assert_eq!(newest_backup(&entries), Some(1));
    let entries = vec![entry("models_backup_", true)];
    assert_eq!(newest_backup(&entries), Some(0));
}

#[test]
fn model_file_table() {
    let files = model_files();
    let names: Vec<&str> = files.iter().map(|f| f.repo_name()).collect();
    assert_eq!(
        names,
        vec![
            "tokenizer.model",
            "config.json",
            "moss_tts_nano_lm.safetensors",
            "moss_audio_tokenizer_config.json",
            "moss_audio_tokenizer.safetensors"
        ]
    );
    assert_eq!(ModelFile::Tokenizer.default_dir(), "models/MOSS-TTS-Nano");
    assert_eq!(ModelFile::LmWeights.default_dir(), "models/MOSS-TTS-Nano");
    assert_eq!(ModelFile::CodecWeights.default_dir(), "models/MOSS-Audio-Tokenizer-Nano");
    assert_eq!(ModelFile::CodecConfig.label(), "Codec config");
    assert_eq!(ModelFile::LmConfig.label(), "LM config");
}

#[test]
fn release_url_and_names() {
    assert_eq!(
        release_asset_url("config.json"),
        "https://github.com/ramishi/moss-tts-nano-rust-candle/releases/download/v0.1.0-models/config.json"
    );
    assert_eq!(HF_REPO, "ramishi/moss-tts-nano-candle");
    assert_eq!(GH_REPO, "ramishi/moss-tts-nano-rust-candle");
    assert_eq!(GH_RELEASE_TAG, "v0.1.0-models");
    assert_eq!(BACKUP_PREFIX, "models_backup_");
}
