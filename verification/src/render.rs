//! The pipeline from segments to the finished prompt: compute each block,
//! drop the empty ones, and join the rest with their colour transitions.

use vstd::prelude::*;
use vstd::string::*;
use crate::prompt::Prompt;
use crate::segments::{is_shown, ResultSet, ResultView, Segment};
use crate::themes::painter::{bg_text, bgcolor, fg_text, fgcolor, reset, reset_text};
use crate::themes::RESET;

verus! {

/// The blocks that a chain of segments computes, in the chain's order.
pub open spec fn computed_blocks<S: Segment>(chain: Seq<S>, prompt: &Prompt) -> Seq<ResultView> {
    chain.map_values(|s: S| s.outcome(prompt))
}

/// The blocks of a chain that have a text to show, in the chain's order.
pub open spec fn shown_blocks<S: Segment>(chain: Seq<S>, prompt: &Prompt) -> Seq<ResultView> {
    computed_blocks(chain, prompt).filter(|b: ResultView| is_shown(b))
}

/// Computes every segment of the chain in order and keeps the blocks whose
/// text is not empty.
pub fn compute_chain<S: Segment>(segment_chain: Vec<S>, prompt: &Prompt) -> (result_set: Vec<
    ResultSet,
>)
    ensures
        result_set.deep_view() == shown_blocks(segment_chain@, prompt),
{
    let mut result_set: Vec<ResultSet> = Vec::new();
    let ghost shown = |b: ResultView| is_shown(b);
    let ghost blocks = computed_blocks(segment_chain@, prompt);
    let mut idx: usize = 0;
    assert(blocks.take(0) =~= Seq::<ResultView>::empty());
    assert(result_set.deep_view() =~= blocks.take(0).filter(shown));
    while idx < segment_chain.len()
        invariant
            idx <= segment_chain.len(),
            blocks == computed_blocks(segment_chain@, prompt),
            shown == (|b: ResultView| is_shown(b)),
            result_set.deep_view() == blocks.take(idx as int).filter(shown),
        decreases segment_chain.len() - idx,
    {
        let compute_result = segment_chain[idx].compute(prompt);
        proof {
            broadcast use Seq::lemma_filter_push;

            assert(blocks.take(idx + 1) =~= blocks.take(idx as int).push(compute_result@));
        }
        if !compute_result.0.as_str().is_empty() {
            let ghost before = result_set.deep_view();
            result_set.push(compute_result);
            assert(result_set.deep_view() =~= before.push(compute_result@));
        }
        idx += 1;
    }
    assert(blocks.take(idx as int) =~= blocks);
    result_set
}

/// The colour of the separator glyph after a block: the block's own
/// separator colour, or its background where that is `reset_color`.
pub open spec fn separator_color(block: ResultView, reset_color: i32) -> i32 {
    if block.4 != reset_color {
        block.4
    } else {
        block.2
    }
}

/// The rendering of block `i` of `chain`: its colours and text, then the
/// background of the block that follows (a full reset after the last
/// block), then the separator glyph in its colour. `glyph` is the separator
/// of a block that names none.
pub open spec fn block_text(
    chain: Seq<ResultView>,
    i: int,
    reset_color: i32,
    glyph: Seq<char>,
) -> Seq<char> {
    let block = chain[i];
    fg_text(block.1) + bg_text(block.2) + block.0 + (if i + 1 < chain.len() {
        bg_text(chain[i + 1].2)
    } else {
        reset_text()
    }) + fg_text(separator_color(block, reset_color)) + (if block.3.len() == 0 {
        glyph
    } else {
        block.3
    })
}

/// The renderings of all blocks of `chain`, one entry for each block.
pub open spec fn rendered_blocks(chain: Seq<ResultView>, reset_color: i32, glyph: Seq<char>) -> Seq<
    Seq<char>,
> {
    Seq::new(chain.len(), |i: int| block_text(chain, i, reset_color, glyph))
}

/// The finished prompt: the rendered blocks one after the other, a full
/// reset and a single space.
pub open spec fn prompt_text(chain: Seq<ResultView>, reset_color: i32, glyph: Seq<char>) -> Seq<
    char,
> {
    rendered_blocks(chain, reset_color, glyph).flatten() + reset_text() + seq![' ']
}

/// Renders block `idx` of the chain.
fn render_block(segment_chain: &Vec<ResultSet>, idx: usize, prompt: &Prompt) -> (out: String)
    requires
        idx < segment_chain.len(),
    ensures
        out@ == block_text(
            segment_chain.deep_view(),
            idx as int,
            prompt.theme[RESET as int],
            prompt.symbols.separator@,
        ),
{
    let ghost chain = segment_chain.deep_view();
    let seg = &segment_chain[idx];
    assert(chain[idx as int] == seg@);

    let mut out = fgcolor(seg.1);
    out.append(bgcolor(seg.2).as_str());
    out.append(seg.0.as_str());

    if idx + 1 != segment_chain.len() {
        let next_bg = segment_chain[idx + 1].2;
        assert(chain[idx + 1].2 == next_bg);
        out.append(bgcolor(next_bg).as_str());
    } else {
        out.append(reset().as_str());
    }

    if seg.4 != prompt.theme[RESET] {
        out.append(fgcolor(seg.4).as_str());
    } else {
        out.append(fgcolor(seg.2).as_str());
    }

    if seg.3.as_str().is_empty() {
        out.append(prompt.symbols.separator);
    } else {
        out.append(seg.3.as_str());
    }
    out
}

/// Joins the blocks into the prompt string.
pub fn render_prompt(segment_chain: Vec<ResultSet>, prompt: &Prompt) -> (ps1: String)
    ensures
        ps1@ == prompt_text(
            segment_chain.deep_view(),
            prompt.theme[RESET as int],
            prompt.symbols.separator@,
        ),
{
    let mut ps1: String = String::new();
    let length = segment_chain.len();
    let mut idx: usize = 0;
    let ghost blocks = rendered_blocks(
        segment_chain.deep_view(),
        prompt.theme[RESET as int],
        prompt.symbols.separator@,
    );
    assert(blocks.take(0) =~= Seq::<Seq<char>>::empty());
    assert(ps1@ =~= blocks.take(0).flatten());
    while idx < length
        invariant
            idx <= length,
            length == segment_chain.len(),
            blocks == rendered_blocks(
                segment_chain.deep_view(),
                prompt.theme[RESET as int],
                prompt.symbols.separator@,
            ),
            ps1@ == blocks.take(idx as int).flatten(),
        decreases length - idx,
    {
        let block = render_block(&segment_chain, idx, prompt);
        ps1.append(block.as_str());
        proof {
            broadcast use Seq::lemma_flatten_push;

            assert(blocks.take(idx + 1) =~= blocks.take(idx as int).push(block@));
        }
        idx += 1;
    }
    assert(blocks.take(idx as int) =~= blocks);

    ps1.append(reset().as_str());
    proof {
        reveal_strlit(" ");
        assert(" "@ =~= seq![' ']);
    }
    ps1.append(" ");
    ps1
}

/// The prompt that a chain of segments gives: its shown blocks, rendered.
pub open spec fn chain_text<S: Segment>(chain: Seq<S>, prompt: &Prompt) -> Seq<char> {
    prompt_text(shown_blocks(chain, prompt), prompt.theme[RESET as int], prompt.symbols.separator@)
}

/// Computes the segments in their order and renders the prompt.
pub fn render<S: Segment>(segment_chain: Vec<S>, prompt: &Prompt) -> (ps1: String)
    ensures
        ps1@ == chain_text(segment_chain@, prompt),
{
    let result_set = compute_chain(segment_chain, prompt);
    render_prompt(result_set, prompt)
}

/// The number of segments of `chain` whose text is not empty.
pub open spec fn shown_count<S: Segment>(chain: Seq<S>, prompt: &Prompt) -> nat
    decreases chain.len(),
{
    if chain.len() == 0 {
        0
    } else {
        shown_count(chain.drop_last(), prompt) + if is_shown(chain.last().outcome(prompt)) {
            1nat
        } else {
            0nat
        }
    }
}

/// As many blocks are rendered as there are segments with a text that is
/// not empty.
pub proof fn lemma_one_block_for_each_shown_segment<S: Segment>(chain: Seq<S>, prompt: &Prompt)
    ensures
        shown_blocks(chain, prompt).len() == shown_count(chain, prompt),
        rendered_blocks(
            shown_blocks(chain, prompt),
            prompt.theme[RESET as int],
            prompt.symbols.separator@,
        ).len() == shown_count(chain, prompt),
    decreases chain.len(),
{
    let shown = |b: ResultView| is_shown(b);
    if chain.len() == 0 {
        assert(computed_blocks(chain, prompt) =~= Seq::<ResultView>::empty());
    } else {
        broadcast use Seq::lemma_filter_push;

        let front = chain.drop_last();
        lemma_one_block_for_each_shown_segment(front, prompt);
        assert(computed_blocks(chain, prompt) =~= computed_blocks(front, prompt).push(
            chain.last().outcome(prompt),
        ));
    }
}

/// A segment with an empty text leaves no trace: the prompt is the same
/// with it and without it, wherever in the chain it stands.
pub proof fn lemma_empty_segment_shows_nothing<S: Segment>(
    before: Seq<S>,
    segment: S,
    after: Seq<S>,
    prompt: &Prompt,
)
    requires
        !is_shown(segment.outcome(prompt)),
    ensures
        shown_blocks(before.push(segment) + after, prompt) == shown_blocks(before + after, prompt),
        chain_text(before.push(segment) + after, prompt) == chain_text(before + after, prompt),
{
    broadcast use Seq::lemma_filter_push;

    let shown = |b: ResultView| is_shown(b);
    let front = computed_blocks(before, prompt);
    let back = computed_blocks(after, prompt);
    let block = segment.outcome(prompt);
    assert(computed_blocks(before.push(segment) + after, prompt) =~= front.push(block) + back);
    assert(computed_blocks(before + after, prompt) =~= front + back);
    Seq::filter_distributes_over_add(front.push(block), back, shown);
    Seq::filter_distributes_over_add(front, back, shown);
}

/// The blocks of a chain in two parts are the blocks of the first part,
/// then those of the second: the order of the segments is the order of
/// their blocks, and no segment changes the block of another.
pub proof fn lemma_blocks_keep_the_order_of_the_chain<S: Segment>(
    first: Seq<S>,
    second: Seq<S>,
    prompt: &Prompt,
)
    ensures
        shown_blocks(first + second, prompt) == shown_blocks(first, prompt) + shown_blocks(
            second,
            prompt,
        ),
{
    let shown = |b: ResultView| is_shown(b);
    assert(computed_blocks(first + second, prompt) =~= computed_blocks(first, prompt)
        + computed_blocks(second, prompt));
    Seq::filter_distributes_over_add(
        computed_blocks(first, prompt),
        computed_blocks(second, prompt),
        shown,
    );
}

/// The prompt depends on nothing but the blocks, the palette's reset value
/// and the default separator glyph: two lists that read the same render to
/// the same text.
pub proof fn lemma_equal_input_renders_equal_text(
    first: Vec<ResultSet>,
    second: Vec<ResultSet>,
    prompt: &Prompt,
    other: &Prompt,
)
    requires
        first.deep_view() == second.deep_view(),
        prompt.theme[RESET as int] == other.theme[RESET as int],
        prompt.symbols.separator@ == other.symbols.separator@,
    ensures
        prompt_text(first.deep_view(), prompt.theme[RESET as int], prompt.symbols.separator@)
            == prompt_text(
            second.deep_view(),
            other.theme[RESET as int],
            other.symbols.separator@,
        ),
{
}

/// The prompt ends with a full reset and exactly one space: the character
/// before that space is the reset's closing bracket. After the text of the
/// last block no colour is set but that of its separator glyph.
pub proof fn lemma_prompt_ends_with_reset_and_space(
    chain: Seq<ResultView>,
    reset_color: i32,
    glyph: Seq<char>,
)
    ensures
        ({
            let text = prompt_text(chain, reset_color, glyph);
            let n = text.len() as int;
            &&& n >= reset_text().len() + 1
            &&& text.subrange(n - 1 - reset_text().len(), n - 1) == reset_text()
            &&& text[n - 1] == ' '
            &&& text[n - 2] == ']'
        }),
        chain.len() > 0 ==> ({
            let last = chain.last();
            block_text(chain, chain.len() - 1, reset_color, glyph) == fg_text(last.1) + bg_text(
                last.2,
            ) + last.0 + reset_text() + fg_text(separator_color(last, reset_color)) + (if last.3.len()
                == 0 {
                glyph
            } else {
                last.3
            })
        }),
{
    reveal_strlit("\\[\\e[0m\\]");
    let text = prompt_text(chain, reset_color, glyph);
    let n = text.len() as int;
    assert(reset_text().len() == 9);
    assert(reset_text()[8] == ']');
    assert(text.subrange(n - 1 - reset_text().len(), n - 1) =~= reset_text());
}

} // verus!
