//! Cleaning of raw model answers.
use crate::text::{chars_of, lemma_trim_margins, remove_all, remove_all_chars, string_of, trim, trim_chars, is_ws};
use vstd::prelude::*;

verus! {

/// The cleaned form of a raw answer: trimmed, with every "<|im_end|>" and then
/// every "<|end|>" removed, and trimmed again.
pub open spec fn spec_clean(answer: Seq<char>) -> Seq<char> {
    trim(remove_all(remove_all(trim(answer), "<|im_end|>"@), "<|end|>"@))
}

/// Post-processing of model answers.
pub struct ResponsePipeline;

impl ResponsePipeline {
    /// The answer with surrounding whitespace and end-of-turn markers removed.
    pub fn clean(answer: &str) -> (r: String)
        ensures
            r@ == spec_clean(answer@),
    {
        let v = chars_of(answer);
        let t = trim_chars(&v);
        let im_end = chars_of("<|im_end|>");
        let end = chars_of("<|end|>");
        proof {
            reveal_strlit("<|im_end|>");
            reveal_strlit("<|end|>");
        }
        let a = remove_all_chars(&t, &im_end);
        let b = remove_all_chars(&a, &end);
        let c = trim_chars(&b);
        string_of(&c)
    }
}

/// A cleaned answer has no whitespace at either end, and cleaning it again
/// leaves its margins alone.
pub proof fn lemma_clean_is_trimmed(answer: Seq<char>)
    ensures
        spec_clean(answer).len() > 0 ==> !is_ws(spec_clean(answer)[0]) && !is_ws(
            spec_clean(answer).last(),
        ),
        trim(spec_clean(answer)) == spec_clean(answer),
{
    lemma_trim_margins(remove_all(remove_all(trim(answer), "<|im_end|>"@), "<|end|>"@));
}

} // verus!
