//! Configuration data and validation of a model directory.
//!
//! Reading and writing the configuration file, and asking the file system
//! which files exist, are the application's business; the decision of
//! whether a directory listing amounts to a usable model directory is made
//! here.

use vstd::prelude::*;

verus! {

/// Persisted configuration: the model directories the user has registered.
#[derive(Debug, Clone, Default)]
pub struct PoingConfig {
    pub model_paths: Vec<String>,
}

/// Whether some string in `s` reads exactly `t`.
pub open spec fn seq_contains_str(s: Seq<String>, t: Seq<char>) -> bool {
    exists|j: int| 0 <= j < s.len() && s[j]@ == t
}

/// Whether a directory holding exactly the file names `present` has every
/// file a model directory needs.
pub open spec fn spec_valid_model_dir(present: Seq<String>) -> bool {
    &&& seq_contains_str(present, "text_encoder.onnx"@)
    &&& seq_contains_str(present, "decoder_model_merged.onnx"@)
    &&& seq_contains_str(present, "encodec_decode.onnx"@)
    &&& seq_contains_str(present, "tokenizer.json"@)
}

/// The file names a model directory must contain to be usable.
pub fn required_model_files() -> (r: Vec<String>)
    ensures
        r@.len() == 4,
        r@[0]@ == "text_encoder.onnx"@,
        r@[1]@ == "decoder_model_merged.onnx"@,
        r@[2]@ == "encodec_decode.onnx"@,
        r@[3]@ == "tokenizer.json"@,
{
    let mut v: Vec<String> = Vec::new();
    v.push("text_encoder.onnx".to_owned());
    v.push("decoder_model_merged.onnx".to_owned());
    v.push("encodec_decode.onnx".to_owned());
    v.push("tokenizer.json".to_owned());
    v
}

/// Whether `v` holds a string equal to `name`.
fn contains_string(v: &Vec<String>, name: &String) -> (r: bool)
    ensures
        r == seq_contains_str(v@, name@),
{
    let mut i: usize = 0;
    while i < v.len()
        invariant
            0 <= i <= v@.len(),
            forall|j: int| 0 <= j < i ==> v@[j]@ != name@,
        decreases v@.len() - i,
    {
        if v[i] == *name {
            return true;
        }
        i = i + 1;
    }
    false
}

/// Decides whether a model directory is usable, from the names of the
/// files it contains: it must hold all four required model files.
pub fn validate_model_dir(present_files: &Vec<String>) -> (r: bool)
    ensures
        r == spec_valid_model_dir(present_files@),
{
    let required = required_model_files();
    let mut i: usize = 0;
    let mut all_found = true;
    while i < required.len()
        invariant
            0 <= i <= required@.len(),
            all_found == forall|j: int| 0 <= j < i ==> seq_contains_str(present_files@, required@[j]@),
        decreases required@.len() - i,
    {
        if !contains_string(present_files, &required[i]) {
            all_found = false;
        }
        i = i + 1;
    }
    all_found
}

} // verus!
