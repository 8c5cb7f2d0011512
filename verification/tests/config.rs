use poing::config::{required_model_files, validate_model_dir, PoingConfig};

fn names(list: &[&str]) -> Vec<String> {
    list.iter().map(|s| String::from(*s)).collect()
}

#[test]
fn required_files_are_the_four_model_artifacts() {
    let required = required_model_files();
    assert_eq!(
        required,
        names(&[
            "text_encoder.onnx",
            "decoder_model_merged.onnx",
            "encodec_decode.onnx",
            "tokenizer.json",
        ])
    );
}

#[test]
fn complete_directory_is_valid() {
    let present = names(&[
        "tokenizer.json",
        "decoder_model_merged.onnx",
        "notes.txt",
        "encodec_decode.onnx",
        "text_encoder.onnx",
    ]);
    assert!(validate_model_dir(&present));
}

#[test]
fn missing_file_invalidates_directory() {
    let present = names(&[
        "tokenizer.json",
        "decoder_model_merged.onnx",
        "text_encoder.onnx",
    ]);
    assert!(!validate_model_dir(&present));
    assert!(!validate_model_dir(&Vec::new()));
}

#[test]
fn config_holds_model_paths() {
    let config = PoingConfig {
        model_paths: names(&["/models/musicgen-small"]),
    };
    let copy = config.clone();
    assert_eq!(copy.model_paths.len(), 1);
    assert_eq!(PoingConfig::default().model_paths.len(), 0);
}
