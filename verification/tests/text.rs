use poing::text::{build_prompt_encoding, encode_prompt, prompt_is_blank};
use poing::GenError;

fn word_level_tokenizer() -> tokenizers::Tokenizer {
    let json = "{\"version\":\"1.0\",\
        \"pre_tokenizer\":{\"type\":\"Whitespace\"},\
        \"model\":{\"type\":\"WordLevel\",\
        \"vocab\":{\"<unk>\":0,\"music\":3,\"test\":5,\"drums\":9},\
        \"unk_token\":\"<unk>\"}}";
    tokenizers::Tokenizer::from_bytes(json.as_bytes()).unwrap()
}

#[test]
fn blank_prompt_detection() {
    assert!(prompt_is_blank(""));
    assert!(prompt_is_blank("   \t\r\n"));
    assert!(!prompt_is_blank("test"));
    assert!(!prompt_is_blank("  a  "));
}

#[test]
fn blank_prompt_is_rejected_before_tokenizing() {
    let tokenizer = word_level_tokenizer();
    match encode_prompt(&tokenizer, " \t ") {
        Err(GenError::Tokenization(_)) => {}
        other => panic!("expected a tokenization error, got {:?}", other),
    }
}

#[test]
fn prompt_is_tokenized_with_matching_mask() {
    let tokenizer = word_level_tokenizer();
    let encoding = encode_prompt(&tokenizer, "test drums music").unwrap();
    assert_eq!(encoding.ids, vec![5, 9, 3]);
    assert_eq!(encoding.attention_mask.len(), 3);
    assert!(encoding.attention_mask.iter().all(|&m| m == 1));
    assert_eq!(encoding.len(), 3);
}

#[test]
fn unknown_words_fall_back_to_unk() {
    let tokenizer = word_level_tokenizer();
    let encoding = encode_prompt(&tokenizer, "test waffles").unwrap();
    assert_eq!(encoding.ids, vec![5, 0]);
}

#[test]
fn raw_output_must_be_parallel_and_nonempty() {
    let ids: Vec<u32> = vec![4, 7];
    let mask: Vec<u32> = vec![1];
    match build_prompt_encoding(&ids, &mask) {
        Err(GenError::Shape(_)) => {}
        other => panic!("expected a shape fault, got {:?}", other),
    }
    match build_prompt_encoding(&Vec::new(), &Vec::new()) {
        Err(GenError::Shape(_)) => {}
        other => panic!("expected a shape fault, got {:?}", other),
    }
    let good = build_prompt_encoding(&vec![4, 7], &vec![1, 1]).unwrap();
    assert_eq!(good.ids, vec![4, 7]);
    assert_eq!(good.attention_mask, vec![1, 1]);
}

#[test]
fn error_messages_carry_their_cause() {
    let error = GenError::ModelInvocation(String::from("missing output tensor"));
    assert_eq!(error.message(), String::from("missing output tensor"));
    assert_eq!(
        GenError::Cancelled.message(),
        String::from("generation was cancelled")
    );
}
