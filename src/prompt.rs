//! Building the prompt sent upstream from the base instruction and the
//! caller's optional extra text.
use vstd::prelude::*;
use crate::text::{is_blank, lemma_trimmed_empty_iff_blank, trim_str, trimmed};

verus! {

/// The label that introduces the caller's extra text.
pub const EXTRA_LABEL: &'static str = "\nExtra vibe: ";

/// The prompt for base instruction `base` and extra text `extra`: `base`
/// alone when `extra` trims to nothing, else `base`, a newline, the label
/// and the trimmed extra text.
pub open spec fn composed_prompt(base: Seq<char>, extra: Seq<char>) -> Seq<char> {
    if trimmed(extra).len() == 0 {
        base
    } else {
        base + EXTRA_LABEL@ + trimmed(extra)
    }
}

/// Builds the prompt from the base instruction and the extra text.
pub fn compose_prompt(base: &str, extra: &str) -> (r: String)
    ensures
        r@ == composed_prompt(base@, extra@),
{
    let extra = trim_str(extra);
    let mut prompt = String::from_str(base);
    if !extra.is_empty() {
        prompt.append(EXTRA_LABEL);
        prompt.append(extra);
    }
    prompt
}

/// Extra text that is empty or only whitespace leaves the base instruction
/// exactly as it is, with no separator added.
pub proof fn lemma_blank_extra_keeps_base(base: Seq<char>, extra: Seq<char>)
    requires
        is_blank(extra),
    ensures
        composed_prompt(base, extra) == base,
{
    lemma_trimmed_empty_iff_blank(extra);
}

/// Extra text with any non-whitespace character is appended, trimmed, after
/// the base instruction and the label.
pub proof fn lemma_extra_is_appended(base: Seq<char>, extra: Seq<char>)
    requires
        !is_blank(extra),
    ensures
        composed_prompt(base, extra) == base + EXTRA_LABEL@ + trimmed(extra),
        trimmed(extra).len() > 0,
{
    lemma_trimmed_empty_iff_blank(extra);
}

} // verus!
