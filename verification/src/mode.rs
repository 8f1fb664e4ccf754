//! The synthesis mode chosen on the command line.
use vstd::prelude::*;
use crate::text::str_eq;

verus! {

/// `str::to_lowercase`: the Unicode lower-case mapping of a string.
pub uninterp spec fn lowercase(s: Seq<char>) -> Seq<char>;

/// The string holds only ASCII characters.
pub open spec fn all_ascii(s: Seq<char>) -> bool {
    forall|i: int| 0 <= i < s.len() ==> (#[trigger] s[i] as u32) < 128
}

/// ASCII lower-casing of one character: 'A'..='Z' become 'a'..='z', every
/// other character is kept.
pub open spec fn ascii_lower_char(c: char) -> char {
    if 'A' <= c && c <= 'Z' {
        ((c as u32) + 32) as char
    } else {
        c
    }
}

/// ASCII lower-casing of a string, character by character.
pub open spec fn ascii_lower(s: Seq<char>) -> Seq<char> {
    Seq::new(s.len(), |i: int| ascii_lower_char(s[i]))
}

/// Calls `str::to_lowercase`.  Its result is a function of the string
/// alone, named `lowercase`; the Unicode case tables are not restated.  On
/// an ASCII string it is the ASCII mapping: 'A'..='Z' to 'a'..='z', all
/// else unchanged (the Unicode lower-case mapping of every ASCII character).
#[verifier::external_body]
fn to_lowercase(s: &str) -> (r: String)
    ensures
        r@ == lowercase(s@),
        all_ascii(s@) ==> r@ == ascii_lower(s@),
{
    s.to_lowercase()
}

/// How speech is produced.
#[derive(Clone, Copy, PartialEq, Eq, Structural, Debug)]
pub enum SynthesisMode {
    /// Speak in the voice of a reference recording.
    VoiceClone,
    /// Plain text-to-speech.
    Continuation,
}

/// Why the mode was refused.
#[derive(Clone, Copy, PartialEq, Eq, Structural, Debug)]
pub enum ModeError {
    /// Neither `voice_clone` nor `continuation`.
    Unsupported,
    /// `voice_clone` without a reference recording.
    MissingPromptAudio,
}

/// The mode named by an already lower-cased string.
pub open spec fn spec_classify_mode(lowered: Seq<char>, has_prompt_audio: bool) -> Result<SynthesisMode, ModeError> {
    if lowered == "voice_clone"@ {
        if has_prompt_audio {
            Ok(SynthesisMode::VoiceClone)
        } else {
            Err(ModeError::MissingPromptAudio)
        }
    } else if lowered == "continuation"@ {
        Ok(SynthesisMode::Continuation)
    } else {
        Err(ModeError::Unsupported)
    }
}

/// Decides the mode from its lower-cased name and whether a reference
/// recording was given.
pub fn classify_mode(lowered: &str, has_prompt_audio: bool) -> (r: Result<SynthesisMode, ModeError>)
    ensures
        r == spec_classify_mode(lowered@, has_prompt_audio),
{
    if str_eq(lowered, "voice_clone") {
        if has_prompt_audio {
            Ok(SynthesisMode::VoiceClone)
        } else {
            Err(ModeError::MissingPromptAudio)
        }
    } else if str_eq(lowered, "continuation") {
        Ok(SynthesisMode::Continuation)
    } else {
        Err(ModeError::Unsupported)
    }
}

/// Decides the mode from the `--mode` argument as typed, in any case.
pub fn parse_mode(raw: &str, has_prompt_audio: bool) -> (r: Result<SynthesisMode, ModeError>)
    ensures
        r == spec_classify_mode(lowercase(raw@), has_prompt_audio),
        all_ascii(raw@) ==> r == spec_classify_mode(ascii_lower(raw@), has_prompt_audio),
{
    let lowered = to_lowercase(raw);
    classify_mode(lowered.as_str(), has_prompt_audio)
}

/// `--print-chunks` only previews the text chunks of voice cloning.
pub fn previews_chunks(print_chunks: bool, mode: SynthesisMode) -> (r: bool)
    ensures
        r == (print_chunks && mode == SynthesisMode::VoiceClone),
{
    print_chunks && match mode {
        SynthesisMode::VoiceClone => true,
        SynthesisMode::Continuation => false,
    }
}

} // verus!
