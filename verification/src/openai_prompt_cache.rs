//! Keys of the provider's prompt cache.
use crate::text::{first_chars, take_chars};
use vstd::prelude::*;

verus! {

/// The number of characters that a key may have.
pub const OPENAI_PROMPT_CACHE_KEY_MAX_LENGTH: usize = 64;

/// A key cut to the length that the provider takes.
pub open spec fn cache_key(key: Option<Seq<char>>) -> Option<Seq<char>> {
    match key {
        Some(key) => Some(first_chars(key, OPENAI_PROMPT_CACHE_KEY_MAX_LENGTH as nat)),
        None => None,
    }
}

/// Cuts a key to the length that the provider takes; no character is split.
pub fn clamp_open_ai_prompt_cache_key(key: Option<&str>) -> (r: Option<String>)
    ensures
        r.deep_view() == cache_key(
            match key {
                Some(key) => Some(key@),
                None => None,
            },
        ),
{
    match key {
        Some(key) => Some(take_chars(key, OPENAI_PROMPT_CACHE_KEY_MAX_LENGTH)),
        None => None,
    }
}

/// A key that is sent is a beginning of the one that was given, fits, and is the whole of it where
/// that fits. Cutting it again changes nothing.
pub proof fn law_cache_key(key: Seq<char>)
    ensures
        cache_key(Some(key)) matches Some(cut) && {
            &&& cut.len() <= OPENAI_PROMPT_CACHE_KEY_MAX_LENGTH
            &&& cut == key.take(cut.len() as int)
            &&& key.len() <= OPENAI_PROMPT_CACHE_KEY_MAX_LENGTH ==> cut == key
            &&& cache_key(Some(cut)) == Some(cut)
        },
{
    let cut = cache_key(Some(key))->Some_0;
    assert(cut =~= key.take(cut.len() as int));
    assert(cut.take(cut.len() as int) =~= cut);
}

} // verus!
