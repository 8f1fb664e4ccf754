//! Where the model files live: the Hugging Face repository, the GitHub
//! release that mirrors it, and the names used on disk.
use vstd::prelude::*;

verus! {

/// Hugging Face model repository holding the weights.
pub const HF_REPO: &'static str = "ramishi/moss-tts-nano-candle";

/// GitHub repository whose release mirrors the weights.
pub const GH_REPO: &'static str = "ramishi/moss-tts-nano-rust-candle";

/// Tag of the GitHub release that holds the weights.
pub const GH_RELEASE_TAG: &'static str = "v0.1.0-models";

/// Name of the directory, under the platform cache directory, that holds
/// files fetched from the GitHub release.
pub const CACHE_DIR_NAME: &'static str = "moss-tts-nano-rust-candle";

/// Extension given to a download while it is being checked.
pub const TEMP_EXTENSION: &'static str = "safetensors.tmp";

/// Prefix of the names of backup directories of models.
pub const BACKUP_PREFIX: &'static str = "models_backup_";

/// The download URL of a release asset.
pub open spec fn spec_asset_url(filename: Seq<char>) -> Seq<char> {
    "https://github.com/"@ + GH_REPO@ + "/releases/download/"@ + GH_RELEASE_TAG@ + "/"@ + filename
}

/// `https://github.com/{GH_REPO}/releases/download/{GH_RELEASE_TAG}/{filename}`.
pub fn release_asset_url(filename: &str) -> (url: String)
    ensures
        url@ == spec_asset_url(filename@),
{
    let mut url = String::new();
    url.append("https://github.com/");
    url.append(GH_REPO);
    url.append("/releases/download/");
    url.append(GH_RELEASE_TAG);
    url.append("/");
    url.append(filename);
    url
}

} // verus!
