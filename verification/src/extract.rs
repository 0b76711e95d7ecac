//! Best-effort extraction of the JSON that a model embeds in its answer.
//!
//! The answer is free text. The verdict is expected inside fenced code
//! blocks that are tagged as JSON. All such blocks are found with the regex
//! engine and their contents joined, in order of appearance and with nothing
//! between them. This does not validate anything: with more than one block in
//! the answer the joined text need not be JSON.

use vstd::prelude::*;
use vstd::string::*;
use crate::error::InferError;
use crate::outside::{capture_group_texts, regex_accepts, regex_group_texts};

verus! {

/// The pattern of one fenced JSON block: an opening fence tagged `json`, the
/// rest of that line if it is blank, the shortest content that is followed
/// by a line break, optional blank space and a closing fence. The dot also
/// matches line breaks. Group 1 is the content.
pub const JSON_FENCE: &'static str = "(?s)```json\\s*\\n(.*?)\\n\\s*```";

/// The capture group of the content in [`JSON_FENCE`].
pub const JSON_FENCE_CONTENT: usize = 1;

/// The text that a block contributes: its content, and nothing where the
/// content group took no part in the match.
pub open spec fn block_text(block: Option<Seq<char>>) -> Seq<char> {
    match block {
        Some(text) => text,
        None => Seq::empty(),
    }
}

/// The texts of `blocks`, joined in order with nothing between them.
pub open spec fn joined(blocks: Seq<Option<Seq<char>>>) -> Seq<char> {
    blocks.map_values(|block: Option<Seq<char>>| block_text(block)).flatten()
}

/// The blocks that the regex engine finds in `markdown`: the content of
/// each fenced JSON block, in order of appearance.
pub open spec fn fenced_blocks(markdown: Seq<char>) -> Seq<Option<Seq<char>>> {
    regex_group_texts(JSON_FENCE@, JSON_FENCE_CONTENT as nat, markdown)
}

/// The JSON text embedded in `markdown`: the joined contents of its fenced
/// JSON blocks.
pub open spec fn fenced_json(markdown: Seq<char>) -> Seq<char> {
    joined(fenced_blocks(markdown))
}

/// What extracting from `markdown` gives: the embedded JSON text, or
/// `PatternRejected` where the regex engine refuses [`JSON_FENCE`], which
/// does not depend on `markdown`.
pub open spec fn extraction(markdown: Seq<char>) -> Result<Seq<char>, InferError> {
    if regex_accepts(JSON_FENCE@) {
        Ok(fenced_json(markdown))
    } else {
        Err(InferError::PatternRejected)
    }
}

/// Whether `outcome` is what `expected` says: the same error, or a string
/// of the expected characters.
pub open spec fn text_is(
    outcome: Result<String, InferError>,
    expected: Result<Seq<char>, InferError>,
) -> bool {
    match outcome {
        Ok(text) => expected == Ok::<Seq<char>, InferError>(text@),
        Err(e) => expected == Err::<Seq<char>, InferError>(e),
    }
}

/// Joins the captured contents in order, skipping the absent ones.
pub fn join_blocks(blocks: &Vec<Option<String>>) -> (text: String)
    ensures
        text@ == joined(blocks.deep_view()),
{
    let mut text = String::new();
    let mut i: usize = 0;
    assert(joined(blocks.deep_view().take(0)) =~= Seq::<char>::empty());
    while i < blocks.len()
        invariant
            i <= blocks.len(),
            text@ == joined(blocks.deep_view().take(i as int)),
        decreases blocks.len() - i,
    {
        proof {
            lemma_joined_push(blocks.deep_view().take(i as int), blocks@[i as int].deep_view());
            assert(blocks.deep_view().take(i + 1) =~= blocks.deep_view().take(i as int).push(
                blocks@[i as int].deep_view(),
            ));
        }
        match &blocks[i] {
            Some(block) => {
                text.append(block.as_str());
            },
            None => {
                assert(text@ + Seq::<char>::empty() =~= text@);
            },
        }
        i = i + 1;
    }
    assert(blocks.deep_view().take(i as int) =~= blocks.deep_view());
    text
}

/// Extracts the JSON text embedded in `markdown`.
///
/// Fails with `PatternRejected`, and only so, where the regex engine
/// refuses [`JSON_FENCE`]. An answer without a fenced JSON block gives the
/// empty string.
pub fn extract_fenced_json(markdown: &str) -> (extracted: Result<String, InferError>)
    ensures
        text_is(extracted, extraction(markdown@)),
{
    match capture_group_texts(JSON_FENCE, JSON_FENCE_CONTENT, markdown) {
        Some(blocks) => Ok(join_blocks(&blocks)),
        None => Err(InferError::PatternRejected),
    }
}

/// One more block adds its text at the end.
pub proof fn lemma_joined_push(blocks: Seq<Option<Seq<char>>>, block: Option<Seq<char>>)
    ensures
        joined(blocks.push(block)) == joined(blocks) + block_text(block),
{
    let text_of = |block: Option<Seq<char>>| block_text(block);
    assert(blocks.push(block).map_values(text_of) =~= blocks.map_values(text_of).push(
        block_text(block),
    ));
    blocks.map_values(text_of).lemma_flatten_push(block_text(block));
}

/// Joining is additive: the join of two runs of blocks is the join of the
/// first followed by the join of the second.
pub proof fn lemma_joined_concat(first: Seq<Option<Seq<char>>>, second: Seq<Option<Seq<char>>>)
    ensures
        joined(first + second) == joined(first) + joined(second),
{
    let text_of = |block: Option<Seq<char>>| block_text(block);
    assert((first + second).map_values(text_of) =~= first.map_values(text_of) + second.map_values(
        text_of,
    ));
    vstd::seq_lib::lemma_flatten_concat(first.map_values(text_of), second.map_values(text_of));
}

/// An answer in which the engine finds no fenced JSON block yields the empty
/// text.
pub proof fn lemma_no_block_yields_empty(markdown: Seq<char>)
    requires
        fenced_blocks(markdown).len() == 0,
    ensures
        fenced_json(markdown) == Seq::<char>::empty(),
        regex_accepts(JSON_FENCE@) ==> extraction(markdown) == Ok::<Seq<char>, InferError>(
            Seq::<char>::empty(),
        ),
{
}

/// An answer in which the engine finds exactly one fenced JSON block yields
/// the content of that block, unchanged.
pub proof fn lemma_one_block_yields_content(markdown: Seq<char>, content: Seq<char>)
    requires
        fenced_blocks(markdown) == seq![Some(content)],
    ensures
        fenced_json(markdown) == content,
        regex_accepts(JSON_FENCE@) ==> extraction(markdown) == Ok::<Seq<char>, InferError>(content),
{
    let none = Seq::<Option<Seq<char>>>::empty();
    assert(seq![Some(content)] =~= none.push(Some(content)));
    lemma_joined_push(none, Some(content));
    assert(joined(none) =~= Seq::<char>::empty());
    assert(joined(none) + content =~= content);
}

/// An answer in which the engine finds exactly two fenced JSON blocks yields
/// the content of the first directly followed by the content of the second.
pub proof fn lemma_two_blocks_yield_concatenation(
    markdown: Seq<char>,
    first: Seq<char>,
    second: Seq<char>,
)
    requires
        fenced_blocks(markdown) == seq![Some(first), Some(second)],
    ensures
        fenced_json(markdown) == first + second,
        regex_accepts(JSON_FENCE@) ==> extraction(markdown) == Ok::<Seq<char>, InferError>(
            first + second,
        ),
{
    let none = Seq::<Option<Seq<char>>>::empty();
    let one = seq![Some(first)];
    assert(one =~= none.push(Some(first)));
    assert(seq![Some(first), Some(second)] =~= one.push(Some(second)));
    lemma_joined_push(none, Some(first));
    lemma_joined_push(one, Some(second));
    assert(joined(none) =~= Seq::<char>::empty());
    assert(joined(none) + first =~= first);
}

} // verus!
