//! Where each model file is looked for, and in which order.
//!
//! By default a file is taken from the Hugging Face cache (downloading it
//! if needed), else from the GitHub release, else from its local path, else
//! from the newest `models_backup_*` directory.  `--github-only` skips
//! Hugging Face; `--local-only` skips every download.
use vstd::prelude::*;
use crate::release::BACKUP_PREFIX;
use crate::text::{lex_less, starts_with, str_greater};

verus! {

/// The five files a model needs.
#[derive(Clone, Copy, PartialEq, Eq, Structural, Debug)]
pub enum ModelFile {
    Tokenizer,
    LmConfig,
    LmWeights,
    CodecConfig,
    CodecWeights,
}

/// The model files, in the order in which they are resolved.
pub open spec fn spec_model_files() -> Seq<ModelFile> {
    seq![ModelFile::Tokenizer, ModelFile::LmConfig, ModelFile::LmWeights, ModelFile::CodecConfig, ModelFile::CodecWeights]
}

/// The model files, in the order in which they are resolved.
pub fn model_files() -> (v: Vec<ModelFile>)
    ensures
        v@ == spec_model_files(),
{
    let v = vec![ModelFile::Tokenizer, ModelFile::LmConfig, ModelFile::LmWeights, ModelFile::CodecConfig, ModelFile::CodecWeights];
    assert(v@ =~= spec_model_files());
    v
}

/// Default directory of the language-model files.
pub const LM_DIR: &'static str = "models/MOSS-TTS-Nano";

/// Default directory of the audio-codec files.
pub const CODEC_DIR: &'static str = "models/MOSS-Audio-Tokenizer-Nano";

pub open spec fn spec_repo_name(f: ModelFile) -> Seq<char> {
    match f {
        ModelFile::Tokenizer => "tokenizer.model"@,
        ModelFile::LmConfig => "config.json"@,
        ModelFile::LmWeights => "moss_tts_nano_lm.safetensors"@,
        ModelFile::CodecConfig => "moss_audio_tokenizer_config.json"@,
        ModelFile::CodecWeights => "moss_audio_tokenizer.safetensors"@,
    }
}

pub open spec fn spec_default_dir(f: ModelFile) -> Seq<char> {
    match f {
        ModelFile::Tokenizer | ModelFile::LmConfig | ModelFile::LmWeights => LM_DIR@,
        ModelFile::CodecConfig | ModelFile::CodecWeights => CODEC_DIR@,
    }
}

pub open spec fn spec_label(f: ModelFile) -> Seq<char> {
    match f {
        ModelFile::Tokenizer => "Tokenizer"@,
        ModelFile::LmConfig => "LM config"@,
        ModelFile::LmWeights => "LM weights"@,
        ModelFile::CodecConfig => "Codec config"@,
        ModelFile::CodecWeights => "Codec weights"@,
    }
}

impl ModelFile {
    /// The file's name in the Hugging Face repository, in the GitHub
    /// release and in the manifest; also its default local file name.
    pub fn repo_name(self) -> (s: &'static str)
        ensures
            s@ == spec_repo_name(self),
    {
        match self {
            ModelFile::Tokenizer => "tokenizer.model",
            ModelFile::LmConfig => "config.json",
            ModelFile::LmWeights => "moss_tts_nano_lm.safetensors",
            ModelFile::CodecConfig => "moss_audio_tokenizer_config.json",
            ModelFile::CodecWeights => "moss_audio_tokenizer.safetensors",
        }
    }

    /// The directory in which the file is looked for when no path is given.
    pub fn default_dir(self) -> (s: &'static str)
        ensures
            s@ == spec_default_dir(self),
            self == ModelFile::CodecConfig || self == ModelFile::CodecWeights ==> s@ == "models/MOSS-Audio-Tokenizer-Nano"@,
            self == ModelFile::Tokenizer || self == ModelFile::LmConfig || self == ModelFile::LmWeights ==> s@ == "models/MOSS-TTS-Nano"@,
    {
        match self {
            ModelFile::Tokenizer | ModelFile::LmConfig | ModelFile::LmWeights => LM_DIR,
            ModelFile::CodecConfig | ModelFile::CodecWeights => CODEC_DIR,
        }
    }

    /// The name used for the file in messages about missing local files.
    pub fn label(self) -> (s: &'static str)
        ensures
            s@ == spec_label(self),
    {
        match self {
            ModelFile::Tokenizer => "Tokenizer",
            ModelFile::LmConfig => "LM config",
            ModelFile::LmWeights => "LM weights",
            ModelFile::CodecConfig => "Codec config",
            ModelFile::CodecWeights => "Codec weights",
        }
    }
}

/// How files may be obtained.
#[derive(Clone, Copy, PartialEq, Eq, Structural, Debug)]
pub enum SourceMode {
    /// Hugging Face, then the GitHub release, then local files.
    Auto,
    /// The GitHub release, then the local path.
    GithubOnly,
    /// Local paths only.
    LocalOnly,
}

/// `--local-only` wins over `--github-only`.
pub open spec fn spec_source_mode(local_only: bool, github_only: bool) -> SourceMode {
    if local_only {
        SourceMode::LocalOnly
    } else if github_only {
        SourceMode::GithubOnly
    } else {
        SourceMode::Auto
    }
}

/// The source mode that the command-line flags select.
pub fn source_mode(local_only: bool, github_only: bool) -> (m: SourceMode)
    ensures
        m == spec_source_mode(local_only, github_only),
{
    if local_only {
        SourceMode::LocalOnly
    } else if github_only {
        SourceMode::GithubOnly
    } else {
        SourceMode::Auto
    }
}

/// One place a file can come from.
#[derive(Clone, Copy, PartialEq, Eq, Structural, Debug)]
pub enum Source {
    /// The Hugging Face repository, through its local cache.
    Hub,
    /// The GitHub release, checked against the manifest.
    Release,
    /// The path given on the command line, or the default path.
    Local,
    /// The same file in the newest backup directory.
    Backup,
}

/// The sources tried for each file, in order.
pub open spec fn spec_chain(mode: SourceMode) -> Seq<Source> {
    match mode {
        SourceMode::Auto => seq![Source::Hub, Source::Release, Source::Local, Source::Backup],
        SourceMode::GithubOnly => seq![Source::Release, Source::Local],
        SourceMode::LocalOnly => seq![Source::Local],
    }
}

/// Why no source gave the file.
#[derive(Clone, Copy, PartialEq, Eq, Structural, Debug)]
pub enum ResolveError {
    /// Every source failed: the file was found nowhere.
    NotFound,
    /// The release download failed and there is no local copy: the error
    /// is the release's.
    Release,
    /// The local file does not exist.
    LocalMissing,
}

/// The error reported when every source of `mode` failed.
pub open spec fn spec_final_error(mode: SourceMode) -> ResolveError {
    match mode {
        SourceMode::Auto => ResolveError::NotFound,
        SourceMode::GithubOnly => ResolveError::Release,
        SourceMode::LocalOnly => ResolveError::LocalMissing,
    }
}

/// Progress of resolving one file.
#[derive(Clone, Copy, PartialEq, Eq, Structural, Debug)]
pub enum ResolveState {
    /// Try the source at this position of the chain.
    Trying(usize),
    /// The file comes from this source.
    Found(Source),
    /// No source gave the file.
    Failed(ResolveError),
}

/// The state after the current attempt succeeded or failed.
pub open spec fn spec_resolve_step(mode: SourceMode, state: ResolveState, found: bool) -> ResolveState {
    match state {
        ResolveState::Trying(i) => if i >= spec_chain(mode).len() {
            ResolveState::Failed(spec_final_error(mode))
        } else if found {
            ResolveState::Found(spec_chain(mode)[i as int])
        } else if i + 1 < spec_chain(mode).len() {
            ResolveState::Trying((i + 1) as usize)
        } else {
            ResolveState::Failed(spec_final_error(mode))
        },
        _ => state,
    }
}

/// The source to try in `state`, if any.
pub open spec fn spec_current(mode: SourceMode, state: ResolveState) -> Option<Source> {
    match state {
        ResolveState::Trying(i) => if i < spec_chain(mode).len() {
            Some(spec_chain(mode)[i as int])
        } else {
            None
        },
        _ => None,
    }
}

fn chain_len(mode: SourceMode) -> (n: usize)
    ensures
        n == spec_chain(mode).len(),
{
    match mode {
        SourceMode::Auto => 4,
        SourceMode::GithubOnly => 2,
        SourceMode::LocalOnly => 1,
    }
}

fn chain_at(mode: SourceMode, i: usize) -> (s: Source)
    requires
        i < spec_chain(mode).len(),
    ensures
        s == spec_chain(mode)[i as int],
{
    match mode {
        SourceMode::Auto => if i == 0 {
            Source::Hub
        } else if i == 1 {
            Source::Release
        } else if i == 2 {
            Source::Local
        } else {
            Source::Backup
        },
        SourceMode::GithubOnly => if i == 0 {
            Source::Release
        } else {
            Source::Local
        },
        SourceMode::LocalOnly => Source::Local,
    }
}

fn final_error(mode: SourceMode) -> (e: ResolveError)
    ensures
        e == spec_final_error(mode),
{
    match mode {
        SourceMode::Auto => ResolveError::NotFound,
        SourceMode::GithubOnly => ResolveError::Release,
        SourceMode::LocalOnly => ResolveError::LocalMissing,
    }
}

/// The state in which resolving a file starts.
pub fn resolve_start() -> (s: ResolveState)
    ensures
        s == ResolveState::Trying(0),
{
    ResolveState::Trying(0)
}

/// The source to try next, if resolving is not over.
pub fn current_source(mode: SourceMode, state: ResolveState) -> (r: Option<Source>)
    ensures
        r == spec_current(mode, state),
{
    match state {
        ResolveState::Trying(i) => if i < chain_len(mode) {
            Some(chain_at(mode, i))
        } else {
            None
        },
        _ => None,
    }
}

/// Moves on after the current source gave the file (`found`) or not.
pub fn resolve_step(mode: SourceMode, state: ResolveState, found: bool) -> (r: ResolveState)
    ensures
        r == spec_resolve_step(mode, state, found),
{
    match state {
        ResolveState::Trying(i) => {
            let n = chain_len(mode);
            if i >= n {
                ResolveState::Failed(final_error(mode))
            } else if found {
                ResolveState::Found(chain_at(mode, i))
            } else if i + 1 < n {
                ResolveState::Trying(i + 1)
            } else {
                ResolveState::Failed(final_error(mode))
            }
        },
        _ => state,
    }
}

/// The state after trying sources in order, with `outcomes[k]` telling
/// whether the `k`-th attempt gave the file.
pub open spec fn resolve_run(mode: SourceMode, outcomes: Seq<bool>) -> ResolveState
    decreases outcomes.len(),
{
    if outcomes.len() == 0 {
        ResolveState::Trying(0)
    } else {
        spec_resolve_step(mode, resolve_run(mode, outcomes.drop_last()), outcomes.last())
    }
}

/// Position of the first `true`, if any.
pub open spec fn first_true(outcomes: Seq<bool>) -> Option<int> {
    if exists|k: int| 0 <= k < outcomes.len() && outcomes[k] {
        Some(choose|k: int| 0 <= k < outcomes.len() && outcomes[k] && forall|j: int| 0 <= j < k ==> !outcomes[j])
    } else {
        None
    }
}

proof fn lemma_run_prefix(mode: SourceMode, outcomes: Seq<bool>)
    requires
        outcomes.len() <= spec_chain(mode).len(),
    ensures
        (forall|j: int| 0 <= j < outcomes.len() ==> !outcomes[j]) ==> (
            if outcomes.len() < spec_chain(mode).len() {
                resolve_run(mode, outcomes) == ResolveState::Trying(outcomes.len() as usize)
            } else {
                resolve_run(mode, outcomes) == ResolveState::Failed(spec_final_error(mode))
            }),
        forall|k: int|
            0 <= k < outcomes.len() && outcomes[k] && (forall|j: int| 0 <= j < k ==> !outcomes[j])
                ==> resolve_run(mode, outcomes) == ResolveState::Found(spec_chain(mode)[k]),
    decreases outcomes.len(),
{
    if outcomes.len() > 0 {
        let pre = outcomes.drop_last();
        lemma_run_prefix(mode, pre);
        assert forall|k: int|
            0 <= k < outcomes.len() && outcomes[k] && (forall|j: int| 0 <= j < k ==> !outcomes[j])
            implies resolve_run(mode, outcomes) == ResolveState::Found(spec_chain(mode)[k]) by {
            if k < pre.len() {
                assert(pre[k]);
                assert forall|j: int| 0 <= j < k implies !pre[j] by {
                    assert(pre[j] == outcomes[j]);
                }
            } else {
                assert forall|j: int| 0 <= j < pre.len() implies !pre[j] by {
                    assert(pre[j] == outcomes[j]);
                }
            }
        }
        if forall|j: int| 0 <= j < outcomes.len() ==> !outcomes[j] {
            assert forall|j: int| 0 <= j < pre.len() implies !pre[j] by {
                assert(pre[j] == outcomes[j]);
            }
            assert(!outcomes.last());
        }
    }
}

/// Sources are tried in the order of the chain and the first one that gives
/// the file wins; the file is missing only when every source failed, and
/// the error then depends only on the mode.
pub proof fn lemma_first_success_wins(mode: SourceMode, outcomes: Seq<bool>)
    requires
        outcomes.len() == spec_chain(mode).len(),
    ensures
        resolve_run(mode, outcomes) == match first_true(outcomes) {
            Some(k) => ResolveState::Found(spec_chain(mode)[k]),
            None => ResolveState::Failed(spec_final_error(mode)),
        },
{
    lemma_run_prefix(mode, outcomes);
    if exists|k: int| 0 <= k < outcomes.len() && outcomes[k] {
        let w = choose|k: int| 0 <= k < outcomes.len() && outcomes[k];
        lemma_first_index(outcomes, w);
    }
}

proof fn lemma_first_index(outcomes: Seq<bool>, w: int)
    requires
        0 <= w < outcomes.len(),
        outcomes[w],
    ensures
        exists|k: int| 0 <= k < outcomes.len() && outcomes[k] && forall|j: int| 0 <= j < k ==> !outcomes[j],
    decreases w,
{
    if exists|j: int| 0 <= j < w && outcomes[j] {
        let j = choose|j: int| 0 <= j < w && outcomes[j];
        lemma_first_index(outcomes, j);
    }
}

/// `--local-only` never downloads, and `--github-only` never contacts
/// Hugging Face.
pub proof fn lemma_offline_modes(i: int)
    ensures
        0 <= i < spec_chain(SourceMode::LocalOnly).len() ==> spec_chain(SourceMode::LocalOnly)[i] == Source::Local,
        0 <= i < spec_chain(SourceMode::GithubOnly).len() ==> spec_chain(SourceMode::GithubOnly)[i] != Source::Hub,
{
}

/// A directory entry seen while looking for backups.
pub struct DirEntry {
    pub name: String,
    pub is_dir: bool,
}

/// The entry is a backup directory: a directory named `models_backup_*`.
pub open spec fn is_backup(e: DirEntry) -> bool {
    e.is_dir && BACKUP_PREFIX@.is_prefix_of(e.name@)
}

/// The newest backup directory: the backup whose name is greatest; among
/// equal names, the first.  `None` when there is no backup.
pub fn newest_backup(entries: &Vec<DirEntry>) -> (r: Option<usize>)
    ensures
        match r {
            Some(b) => b < entries@.len() && is_backup(entries@[b as int])
                && (forall|j: int| 0 <= j < entries@.len() && is_backup(entries@[j])
                    ==> !lex_less(entries@[b as int].name@, entries@[j].name@))
                && (forall|j: int| 0 <= j < b && is_backup(entries@[j])
                    ==> lex_less(entries@[j].name@, entries@[b as int].name@)),
            None => forall|j: int| 0 <= j < entries@.len() ==> !is_backup(entries@[j]),
        },
{
    let mut best: Option<usize> = None;
    let mut i: usize = 0;
    while i < entries.len()
        invariant
            i <= entries@.len(),
            match best {
                Some(b) => b < i && is_backup(entries@[b as int])
                    && (forall|j: int| 0 <= j < i && is_backup(entries@[j])
                        ==> !lex_less(entries@[b as int].name@, entries@[j].name@))
                    && (forall|j: int| 0 <= j < b && is_backup(entries@[j])
                        ==> lex_less(entries@[j].name@, entries@[b as int].name@)),
                None => forall|j: int| 0 <= j < i ==> !is_backup(entries@[j]),
            },
        decreases entries@.len() - i,
    {
        let e = &entries[i];
        if e.is_dir && starts_with(e.name.as_str(), BACKUP_PREFIX) {
            match best {
                None => {
                    proof {
                        crate::text::lemma_lex_irreflexive(e.name@);
                    }
                    best = Some(i);
                },
                Some(b) => {
                    if str_greater(e.name.as_str(), entries[b].name.as_str()) {
                        proof {
                            let bn = entries@[b as int].name@;
                            let nn = e.name@;
                            assert forall|j: int| 0 <= j < i + 1 && is_backup(entries@[j])
                                implies !lex_less(nn, entries@[j].name@) by {
                                let jn = entries@[j].name@;
                                if j == i {
                                    crate::text::lemma_lex_irreflexive(nn);
                                } else {
                                    crate::text::lemma_lex_total(jn, bn);
                                    if lex_less(jn, bn) {
                                        crate::text::lemma_lex_transitive(jn, bn, nn);
                                        crate::text::lemma_lex_asymmetric(jn, nn);
                                    } else {
                                        crate::text::lemma_lex_asymmetric(bn, nn);
                                    }
                                }
                            }
                            assert forall|j: int| 0 <= j < i && is_backup(entries@[j])
                                implies lex_less(entries@[j].name@, nn) by {
                                let jn = entries@[j].name@;
                                crate::text::lemma_lex_total(jn, bn);
                                if lex_less(jn, bn) {
                                    crate::text::lemma_lex_transitive(jn, bn, nn);
                                }
                            }
                        }
                        best = Some(i);
                    }
                },
            }
        }
        i = i + 1;
    }
    best
}

/// The audio-codec files default to `models/MOSS-Audio-Tokenizer-Nano` and
/// the language-model files to `models/MOSS-TTS-Nano`; the two directories
/// differ, so no codec file is looked for among the language-model files.
pub proof fn lemma_default_dirs(f: ModelFile)
    ensures
        (f == ModelFile::CodecConfig || f == ModelFile::CodecWeights) ==> spec_default_dir(f) == "models/MOSS-Audio-Tokenizer-Nano"@,
        (f == ModelFile::Tokenizer || f == ModelFile::LmConfig || f == ModelFile::LmWeights) ==> spec_default_dir(f) == "models/MOSS-TTS-Nano"@,
        "models/MOSS-Audio-Tokenizer-Nano"@ != "models/MOSS-TTS-Nano"@,
{
    reveal_strlit("models/MOSS-Audio-Tokenizer-Nano");
    reveal_strlit("models/MOSS-TTS-Nano");
    assert("models/MOSS-Audio-Tokenizer-Nano"@.len() != "models/MOSS-TTS-Nano"@.len());
}

} // verus!
