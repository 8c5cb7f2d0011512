//! Prompt validation and the tokenizer adapter.
//!
//! A prompt is tokenized once per generation, with the end-of-sequence
//! marker appended, and the resulting token ids and attention mask are
//! immutable afterwards.  The tokenizer itself is a loaded artifact whose
//! output depends on its vocabulary files, so nothing is assumed about
//! the ids it returns; everything that follows the call — rejecting an
//! empty or whitespace-only prompt before any model runs, holding the two
//! returned sequences to equal length, and widening the ids — is decided
//! and verified here.

use vstd::prelude::*;
use vstd::string::StringSliceAdditionalSpecFns;

use crate::GenError;

verus! {

/// The ASCII whitespace bytes.  A prompt made of nothing else carries no
/// text: any other character, ASCII or not, contributes at least one
/// byte outside this set to the UTF-8 encoding.
pub open spec fn is_space_byte(b: u8) -> bool {
    b == 32 || b == 9 || b == 10 || b == 13 || b == 11 || b == 12
}

/// Whether a UTF-8 byte sequence spells an empty or whitespace-only
/// prompt.
pub open spec fn spec_blank(bytes: Seq<u8>) -> bool {
    forall|i: int| 0 <= i < bytes.len() ==> is_space_byte(#[trigger] bytes[i])
}

/// The ASCII whitespace characters.
pub open spec fn is_space_char(c: char) -> bool {
    c == ' ' || c == '\t' || c == '\n' || c == '\r' || c == '\u{b}' || c == '\u{c}'
}

/// For an ASCII prompt, blankness of the UTF-8 bytes is blankness of the
/// characters themselves: the encoding is byte-for-character.
proof fn lemma_blank_ascii(s: &str)
    ensures
        vstd::string::is_ascii(s) ==> (spec_blank(s.spec_bytes()) == (forall|i: int|
            0 <= i < s@.len() ==> is_space_char(#[trigger] s@[i]))),
{
    if vstd::string::is_ascii(s) {
        vstd::utf8::is_ascii_chars_encode_utf8(s@);
        let bytes = s.spec_bytes();
        assert forall|i: int| 0 <= i < s@.len() implies (is_space_byte(#[trigger] bytes[i])
            == is_space_char(s@[i])) by {
            assert('\0' <= s@[i] <= '\u{7f}');
            assert(bytes[i] == s@[i] as u8);
        }
        if spec_blank(bytes) {
            assert forall|i: int| 0 <= i < s@.len() implies is_space_char(#[trigger] s@[i]) by {
                assert(is_space_byte(bytes[i]));
            }
        } else {
            let i = choose|i: int| 0 <= i < bytes.len() && !is_space_byte(bytes[i]);
            assert(!is_space_char(s@[i]));
        }
    }
}

/// Whether the prompt is empty or whitespace-only.  Such a prompt is
/// rejected before any model is invoked.
pub fn prompt_is_blank(prompt: &str) -> (r: bool)
    ensures
        r == spec_blank(prompt.spec_bytes()),
        vstd::string::is_ascii(prompt) ==> r == (forall|i: int|
            0 <= i < prompt@.len() ==> is_space_char(#[trigger] prompt@[i])),
{
    proof {
        lemma_blank_ascii(prompt);
    }
    let bytes = prompt.as_bytes();
    let mut i: usize = 0;
    while i < bytes.len()
        invariant
            i <= bytes@.len(),
            forall|j: int| 0 <= j < i ==> is_space_byte(#[trigger] bytes@[j]),
        decreases bytes@.len() - i,
    {
        let b = bytes[i];
        if !(b == 32 || b == 9 || b == 10 || b == 13 || b == 11 || b == 12) {
            return false;
        }
        i = i + 1;
    }
    true
}

/// A tokenized prompt: token ids and the matching attention mask, as the
/// sequence model consumes them.
#[derive(Debug)]
pub struct PromptEncoding {
    pub ids: Vec<i64>,
    pub attention_mask: Vec<i64>,
}

impl PromptEncoding {
    /// The two sequences have the same positive length, and every entry
    /// fits the tokenizer's unsigned 32-bit output range.
    pub open spec fn wf(&self) -> bool {
        &&& self.ids@.len() == self.attention_mask@.len()
        &&& self.ids@.len() >= 1
        &&& forall|i: int| 0 <= i < self.ids@.len() ==> 0 <= #[trigger] self.ids@[i] < 0x1_0000_0000
        &&& forall|i: int|
            0 <= i < self.attention_mask@.len() ==> 0 <= #[trigger] self.attention_mask@[i]
                < 0x1_0000_0000
    }

    /// Number of prompt tokens.
    pub fn len(&self) -> (r: usize)
        ensures
            r == self.ids@.len(),
    {
        self.ids.len()
    }
}

/// Relies on `tokenizers::Tokenizer::encode` with `add_special_tokens`
/// set, which tokenizes the text and appends the end-of-sequence marker.
/// The ids depend on the loaded vocabulary artifact, so nothing is
/// assumed about them; a failure is carried over as its message.
#[verifier::external_body]
fn tokenizer_encode(tokenizer: &tokenizers::Tokenizer, text: &str) -> (r: Result<
    tokenizers::Encoding,
    String,
>) {
    match tokenizer.encode(text, true) {
        Ok(encoding) => Ok(encoding),
        Err(e) => Err(e.to_string()),
    }
}

/// Relies on `tokenizers::Encoding::get_ids`: the encoding's token ids.
#[verifier::external_body]
fn encoding_ids(encoding: &tokenizers::Encoding) -> (r: Vec<u32>) {
    encoding.get_ids().to_vec()
}

/// Relies on `tokenizers::Encoding::get_attention_mask`: the encoding's
/// attention mask.
#[verifier::external_body]
fn encoding_attention_mask(encoding: &tokenizers::Encoding) -> (r: Vec<u32>) {
    encoding.get_attention_mask().to_vec()
}

#[verifier::external_type_specification]
#[verifier::external_body]
pub struct ExTokenizer(tokenizers::Tokenizer);

#[verifier::external_type_specification]
#[verifier::external_body]
pub struct ExEncoding(tokenizers::Encoding);

/// Holds a tokenizer's raw output to account: the ids and the mask must
/// be parallel sequences of at least one token, else the output is a
/// shape fault; a well-formed pair is widened to the signed 64-bit ids
/// the sequence model takes.
pub fn build_prompt_encoding(ids: &Vec<u32>, attention_mask: &Vec<u32>) -> (r: Result<
    PromptEncoding,
    GenError,
>)
    ensures
        match r {
            Ok(pe) => {
                &&& ids@.len() == attention_mask@.len()
                &&& ids@.len() >= 1
                &&& pe.wf()
                &&& pe.ids@.len() == ids@.len()
                &&& forall|i: int| 0 <= i < ids@.len() ==> #[trigger] pe.ids@[i] == ids@[i]
                &&& forall|i: int|
                    0 <= i < attention_mask@.len() ==> #[trigger] pe.attention_mask@[i]
                        == attention_mask@[i]
            },
            Err(e) => {
                &&& (ids@.len() != attention_mask@.len() || ids@.len() == 0)
                &&& (e matches GenError::Shape(_))
            },
        },
        r is Ok <==> (ids@.len() == attention_mask@.len() && ids@.len() >= 1),
{
    if ids.len() != attention_mask.len() {
        return Err(
            GenError::Shape("token ids and attention mask differ in length".to_owned()),
        );
    }
    if ids.len() == 0 {
        return Err(GenError::Shape("tokenizer returned no tokens".to_owned()));
    }
    let mut wide_ids: Vec<i64> = Vec::new();
    let mut i: usize = 0;
    while i < ids.len()
        invariant
            i <= ids@.len(),
            wide_ids@.len() == i,
            forall|j: int| 0 <= j < i ==> #[trigger] wide_ids@[j] == ids@[j],
        decreases ids@.len() - i,
    {
        wide_ids.push(ids[i] as i64);
        i = i + 1;
    }
    let mut wide_mask: Vec<i64> = Vec::new();
    let mut m: usize = 0;
    while m < attention_mask.len()
        invariant
            m <= attention_mask@.len(),
            wide_mask@.len() == m,
            forall|j: int| 0 <= j < m ==> #[trigger] wide_mask@[j] == attention_mask@[j],
        decreases attention_mask@.len() - m,
    {
        wide_mask.push(attention_mask[m] as i64);
        m = m + 1;
    }
    Ok(PromptEncoding { ids: wide_ids, attention_mask: wide_mask })
}

/// Tokenizes a prompt for one generation run.  A blank prompt is rejected
/// here, before the tokenizer or any model runs; a tokenizer failure is a
/// tokenization error; and the tokenizer's output is accepted only where
/// `build_prompt_encoding` accepts it.
pub fn encode_prompt(tokenizer: &tokenizers::Tokenizer, prompt: &str) -> (r: Result<
    PromptEncoding,
    GenError,
>)
    ensures
        spec_blank(prompt.spec_bytes()) ==> (r matches Err(GenError::Tokenization(_))),
        vstd::string::is_ascii(prompt) && (forall|i: int|
            0 <= i < prompt@.len() ==> is_space_char(#[trigger] prompt@[i])) ==> (r matches Err(
            GenError::Tokenization(_),
        )),
        match r {
            Ok(pe) => !spec_blank(prompt.spec_bytes()) && pe.wf(),
            Err(e) => (e matches GenError::Tokenization(_)) || (e matches GenError::Shape(_)),
        },
{
    proof {
        lemma_blank_ascii(prompt);
    }
    if prompt_is_blank(prompt) {
        return Err(GenError::Tokenization("prompt is empty".to_owned()));
    }
    let encoding = match tokenizer_encode(tokenizer, prompt) {
        Ok(encoding) => encoding,
        Err(message) => {
            return Err(GenError::Tokenization(message));
        },
    };
    let ids = encoding_ids(&encoding);
    let attention_mask = encoding_attention_mask(&encoding);
    build_prompt_encoding(&ids, &attention_mask)
}

} // verus!
