use moss_weights::paths::{backup_plan, temp_file_name, PathPart};
use moss_weights::wav::wav_header;

fn normal(s: &str) -> PathPart {
    PathPart::Normal(s.to_string())
}

fn names(parts: &[PathPart]) -> Vec<String> {
    parts
        .iter()
        .map(|p| match p {
            PathPart::Root(t) => format!("<{}>", t),
            PathPart::CurDir => ".".to_string(),
            PathPart::ParentDir => "..".to_string(),
            PathPart::Normal(n) => n.clone(),
        })
        .collect()
}

#[test]
fn temp_name_replaces_the_extension() {
    assert_eq!(temp_file_name("moss_tts_nano_lm.safetensors"), "moss_tts_nano_lm.safetensors.tmp");
    assert_eq!(temp_file_name("config.json"), "config.safetensors.tmp");
    assert_eq!(temp_file_name("tokenizer.model"), "tokenizer.safetensors.tmp");
    assert_eq!(temp_file_name("a.b.c"), "a.b.safetensors.tmp");
}

#[test]
fn temp_name_of_names_without_extension() {
    assert_eq!(temp_file_name("weights"), "weights.safetensors.tmp");
    assert_eq!(temp_file_name(".hidden"), ".hidden.safetensors.tmp");
    assert_eq!(temp_file_name("x."), "x.safetensors.tmp");
}

#[test]
fn backup_plan_of_a_default_path() {
    let path = vec![normal("models"), normal("MOSS-TTS-Nano"), normal("tokenizer.model")];
    let plan = backup_plan(&path);
    assert_eq!(names(&plan.scan_dir), vec!["models"]);
    assert_eq!(plan.subdir, "MOSS-TTS-Nano");
    assert_eq!(plan.file, "tokenizer.model");
}

#[test]
fn backup_plan_of_an_absolute_path() {
    let path = vec![
        PathPart::Root("/".to_string()),
        normal("data"),
        normal("lm"),
        normal("w.safetensors"),
    ];
    let plan = backup_plan(&path);
    assert_eq!(names(&plan.scan_dir), vec!["</>", "data"]);
    assert_eq!(plan.subdir, "lm");
    assert_eq!(plan.file, "w.safetensors");
}

#[test]
fn backup_plan_of_short_paths() {
    let plan = backup_plan(&vec![normal("lm"), normal("w")]);
    assert!(plan.scan_dir.is_empty());
    assert_eq!(plan.subdir, "lm");
    assert_eq!(plan.file, "w");

    let plan = backup_plan(&vec![normal("w")]);
    assert!(plan.scan_dir.is_empty());
    assert_eq!(plan.subdir, "");
    assert_eq!(plan.file, "w");

    let plan = backup_plan(&Vec::new());
    assert!(plan.scan_dir.is_empty());
    assert_eq!(plan.subdir, "");
    assert_eq!(plan.file, "");

    let plan = backup_plan(&vec![PathPart::Root("/".to_string()), normal("w")]);
    assert_eq!(names(&plan.scan_dir), vec!["</>"]);
    assert_eq!(plan.subdir, "");
    assert_eq!(plan.file, "w");
}

#[test]
fn wav_header_is_32_bit_float() {
    let h = wav_header(2, 48000);
    assert_eq!((h.channels, h.sample_rate, h.bits_per_sample, h.float_samples), (2, 48000, 32, true));
    assert_eq!(wav_header(65538, 24000).channels, 2);
}
