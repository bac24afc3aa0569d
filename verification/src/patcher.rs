//! Putting the generated block into the text of a configuration file.
//!
//! The block stands between two marker lines. Text that already holds a block
//! has it replaced and everything around it kept; text without one has the
//! block appended; text that opens a block and never closes it has the block
//! from the opening on. The text is a sequence of characters and nothing
//! more: no configuration syntax is read.

use vstd::prelude::*;
use vstd::string::*;
use crate::search::{
    find_from, first_occurrence, is_first_occurrence, lemma_first_occurrence,
    lemma_first_occurrence_is, occurs_at,
};
use crate::text::{chars_of, join, join_strings, texts};

verus! {

/// The line that opens the generated block.
pub const MARKER_START: &'static str = "# === AUTO-GENERATED EXEC-ONCE START ===";

/// The line that closes the generated block.
pub const MARKER_END: &'static str = "# === AUTO-GENERATED EXEC-ONCE END ===";

/// The characters of [`MARKER_START`].
pub open spec fn start_marker() -> Seq<char> {
    MARKER_START@
}

/// The characters of [`MARKER_END`].
pub open spec fn end_marker() -> Seq<char> {
    MARKER_END@
}

/// Why text was left as it is.
#[derive(Debug, Clone, Copy, PartialEq, Eq, Structural)]
pub enum PatchError {
    /// The new lines hold an end marker: the block could not be found again.
    MarkerInBlock,
}

/// What the user is told about a refusal.
pub open spec fn refusal_message(reason: PatchError) -> Seq<char> {
    match reason {
        PatchError::MarkerInBlock => "a line of the new block holds the end marker"@,
    }
}

impl PatchError {
    /// What the user is told about the refusal.
    pub fn message(&self) -> (text: &'static str)
        ensures
            text@ == refusal_message(*self),
    {
        match self {
            PatchError::MarkerInBlock => "a line of the new block holds the end marker",
        }
    }
}

/// The lines, one per row.
pub open spec fn block_body(lines: Seq<Seq<char>>) -> Seq<char> {
    join(lines, "\n"@)
}

/// The block: start marker, the lines, end marker, each on a row of its own.
pub open spec fn block(lines: Seq<Seq<char>>) -> Seq<char> {
    start_marker() + "\n"@ + block_body(lines) + "\n"@ + end_marker()
}

/// `content` with `block` in the place of its generated block.
///
/// - Where `content` holds a start marker and an end marker after it, the
///   range from the first start marker through the first end marker after it
///   is replaced and the rest kept.
/// - Where it holds a start marker and no end marker after it, all from the
///   first start marker on is replaced, and a line break follows the block.
/// - Where it holds no start marker, two line breaks, the block and a line
///   break are appended.
///
/// What stands before the first start marker is kept in each case.
pub open spec fn placed(content: Seq<char>, block: Seq<char>) -> Seq<char> {
    match first_occurrence(content, start_marker(), 0) {
        None => content + "\n\n"@ + block + "\n"@,
        Some(start) => match first_occurrence(
            content,
            end_marker(),
            start + start_marker().len(),
        ) {
            None => content.subrange(0, start) + block + "\n"@,
            Some(end) => content.subrange(0, start) + block + content.subrange(
                end + end_marker().len(),
                content.len() as int,
            ),
        },
    }
}

/// `content` with the block for `lines` in it: see [`placed`].
pub open spec fn patched(content: Seq<char>, lines: Seq<Seq<char>>) -> Seq<char> {
    placed(content, block(lines))
}

/// `content` with the block for `lines` in it, unless the lines hold an end
/// marker: such a block would not be found again as a whole.
pub open spec fn spliced(content: Seq<char>, lines: Seq<Seq<char>>) -> Result<
    Seq<char>,
    PatchError,
> {
    if first_occurrence(block_body(lines), end_marker(), 0).is_some() {
        Err(PatchError::MarkerInBlock)
    } else {
        Ok(patched(content, lines))
    }
}

/// The block for `lines` as text.
pub fn render_block(lines: &Vec<String>) -> (rendered: String)
    ensures
        rendered@ == block(texts(lines@)),
{
    let body = join_strings(lines, "\n");
    let mut rendered = MARKER_START.to_owned();
    rendered.append("\n");
    rendered.append(body.as_str());
    rendered.append("\n");
    rendered.append(MARKER_END);
    rendered
}

/// Puts `block` into `content` in the place of its generated block: see
/// [`placed`].
pub fn place_block(content: &str, block: &str) -> (text: String)
    ensures
        text@ == placed(content@, block@),
{
    let start_chars = chars_of(MARKER_START);
    let end_chars = chars_of(MARKER_END);
    let hay = chars_of(content);
    let total: usize = hay.len();
    match find_from(&hay, &start_chars, 0) {
        None => {
            let mut text = content.to_owned();
            text.append("\n\n");
            text.append(block);
            text.append("\n");
            text
        },
        Some(start) => {
            proof {
                lemma_first_occurrence(hay@, start_chars@, 0);
            }
            let mut text = content.substring_char(0, start).to_owned();
            text.append(block);
            match find_from(&hay, &end_chars, start + start_chars.len()) {
                None => {
                    text.append("\n");
                },
                Some(end) => {
                    proof {
                        lemma_first_occurrence(
                            hay@,
                            end_chars@,
                            start as int + start_chars@.len(),
                        );
                    }
                    text.append(content.substring_char(end + end_chars.len(), total));
                },
            }
            text
        },
    }
}

/// Puts the block for `lines` into `content`: see [`spliced`].
pub fn splice_block(content: &str, lines: &Vec<String>) -> (patched: Result<String, PatchError>)
    ensures
        match patched {
            Ok(text) => spliced(content@, texts(lines@)) == Ok::<Seq<char>, PatchError>(text@),
            Err(e) => spliced(content@, texts(lines@)) == Err::<Seq<char>, PatchError>(e),
        },
{
    let body = join_strings(lines, "\n");
    let body_chars = chars_of(body.as_str());
    let end_chars = chars_of(MARKER_END);
    if find_from(&body_chars, &end_chars, 0).is_some() {
        return Err(PatchError::MarkerInBlock);
    }
    let rendered = render_block(lines);
    Ok(place_block(content, rendered.as_str()))
}

/// Neither marker is empty or holds a line break.
proof fn lemma_markers_are_single_lines()
    ensures
        start_marker().len() > 0,
        end_marker().len() > 0,
        forall|i: int| 0 <= i < start_marker().len() ==> start_marker()[i] != '\n',
        forall|i: int| 0 <= i < end_marker().len() ==> end_marker()[i] != '\n',
        "\n"@ =~= seq!['\n'],
        "\n\n"@ =~= seq!['\n', '\n'],
{
    reveal_strlit("# === AUTO-GENERATED EXEC-ONCE START ===");
    reveal_strlit("# === AUTO-GENERATED EXEC-ONCE END ===");
    reveal_strlit("\n");
    reveal_strlit("\n\n");
}

/// A block whose lines hold no end marker, placed behind text in which no
/// start marker begins, is the block that a second pass finds and replaces
/// by itself.
proof fn lemma_block_found_again(prefix: Seq<char>, lines: Seq<Seq<char>>, suffix: Seq<char>)
    requires
        first_occurrence(block_body(lines), end_marker(), 0).is_none(),
        forall|k: int|
            0 <= k < prefix.len() ==> !occurs_at(prefix + start_marker(), start_marker(), k),
    ensures
        spliced(prefix + block(lines) + suffix, lines) == Ok::<Seq<char>, PatchError>(
            prefix + block(lines) + suffix,
        ),
{
    let opening = start_marker();
    let closing = end_marker();
    let body = block_body(lines);
    let out = prefix + block(lines) + suffix;
    lemma_markers_are_single_lines();
    lemma_first_occurrence(body, closing, 0);

    let start = prefix.len() as int;
    let body_at = start + opening.len() + 1;
    let end = body_at + body.len() + 1;
    assert(out.len() == end + closing.len() + suffix.len());
    assert(out.subrange(start, start + opening.len()) =~= opening);
    assert forall|k: int| 0 <= k < start implies !occurs_at(out, opening, k) by {
        if occurs_at(out, opening, k) {
            assert((prefix + opening).subrange(k, k + opening.len()) =~= out.subrange(
                k,
                k + opening.len(),
            ));
            assert(occurs_at(prefix + opening, opening, k));
        }
    }
    assert(is_first_occurrence(out, opening, 0, start));
    lemma_first_occurrence_is(out, opening, 0, start);

    assert(out.subrange(end, end + closing.len()) =~= closing);
    assert(out[body_at - 1] == '\n');
    assert(out[end - 1] == '\n');
    assert forall|k: int| start + opening.len() <= k < end implies !occurs_at(out, closing, k) by {
        if occurs_at(out, closing, k) {
            let window = out.subrange(k, k + closing.len());
            if k == body_at - 1 {
                assert(window[0] == out[k]);
            } else if k + closing.len() <= end - 1 {
                assert(body.subrange(k - body_at, k - body_at + closing.len()) =~= window);
                assert(occurs_at(body, closing, k - body_at));
            } else {
                assert(window[end - 1 - k] == out[end - 1]);
            }
        }
    }
    assert(is_first_occurrence(out, closing, start + opening.len(), end));
    lemma_first_occurrence_is(out, closing, start + opening.len(), end);

    assert(out.subrange(0, start) =~= prefix);
    assert(out.subrange(end + closing.len(), out.len() as int) =~= suffix);
}

/// Behind text without a start marker and two line breaks, the first start
/// marker is the one that is put there.
proof fn lemma_appended_marker_is_first(content: Seq<char>)
    requires
        first_occurrence(content, start_marker(), 0).is_none(),
    ensures
        forall|k: int|
            0 <= k < (content + "\n\n"@).len() ==> !occurs_at(
                content + "\n\n"@ + start_marker(),
                start_marker(),
                k,
            ),
{
    let opening = start_marker();
    let whole = content + "\n\n"@ + opening;
    lemma_markers_are_single_lines();
    lemma_first_occurrence(content, opening, 0);
    assert(whole[content.len() as int] == '\n');
    assert(whole[content.len() as int + 1] == '\n');
    assert forall|k: int| 0 <= k < content.len() + 2 implies !occurs_at(whole, opening, k) by {
        if occurs_at(whole, opening, k) {
            let window = whole.subrange(k, k + opening.len());
            if k + opening.len() <= content.len() {
                assert(content.subrange(k, k + opening.len()) =~= window);
                assert(occurs_at(content, opening, k));
            } else if k <= content.len() {
                assert(window[content.len() - k] == whole[content.len() as int]);
            } else {
                assert(window[0] == whole[k]);
            }
        }
    }
}

/// Two texts that agree on their first `len` characters hold the same
/// occurrences within them.
proof fn lemma_same_occurrences(a: Seq<char>, b: Seq<char>, len: int, needle: Seq<char>, at: int)
    requires
        0 <= len <= a.len(),
        len <= b.len(),
        forall|i: int| 0 <= i < len ==> a[i] == b[i],
        0 <= at,
        at + needle.len() <= len,
    ensures
        occurs_at(a, needle, at) == occurs_at(b, needle, at),
{
    assert(a.subrange(at, at + needle.len()) =~= b.subrange(at, at + needle.len()));
}

/// In the text up to and including its first start marker, no start marker
/// begins earlier.
proof fn lemma_kept_marker_is_first(content: Seq<char>, start: int)
    requires
        is_first_occurrence(content, start_marker(), 0, start),
    ensures
        forall|k: int|
            0 <= k < start ==> !occurs_at(
                content.subrange(0, start) + start_marker(),
                start_marker(),
                k,
            ),
{
    let opening = start_marker();
    let head = content.subrange(0, start) + opening;
    let len = start + opening.len();
    assert(content.subrange(start, len) == opening);
    assert forall|i: int| 0 <= i < len implies head[i] == content[i] by {
        if i >= start {
            assert(content.subrange(start, len)[i - start] == content[i]);
        }
    }
    assert forall|k: int| 0 <= k < start implies !occurs_at(head, opening, k) by {
        lemma_same_occurrences(head, content, len, opening, k);
    }
}

/// Patching is idempotent: text that came out of [`spliced`] is given back
/// unchanged when it is patched again with the same lines. The block and all
/// that surrounds it stay as they are.
pub proof fn lemma_splice_twice(content: Seq<char>, lines: Seq<Seq<char>>)
    ensures
        spliced(content, lines) matches Ok(once) ==> spliced(once, lines) == Ok::<
            Seq<char>,
            PatchError,
        >(once),
{
    let opening = start_marker();
    let closing = end_marker();
    if spliced(content, lines).is_ok() {
        lemma_first_occurrence(content, opening, 0);
        match first_occurrence(content, opening, 0) {
            None => {
                lemma_appended_marker_is_first(content);
                lemma_block_found_again(content + "\n\n"@, lines, "\n"@);
            },
            Some(start) => {
                lemma_kept_marker_is_first(content, start);
                match first_occurrence(content, closing, start + opening.len()) {
                    None => {
                        lemma_block_found_again(content.subrange(0, start), lines, "\n"@);
                    },
                    Some(end) => {
                        lemma_block_found_again(
                            content.subrange(0, start),
                            lines,
                            content.subrange(end + closing.len(), content.len() as int),
                        );
                    },
                }
            },
        }
    }
}

/// Whatever the text holds, what stands before its first start marker is
/// kept, and the block stands in the result as a whole.
pub proof fn lemma_placed_keeps_head_and_holds_block(content: Seq<char>, block: Seq<char>)
    ensures
        match first_occurrence(content, start_marker(), 0) {
            Some(start) => placed(content, block).subrange(0, start) == content.subrange(
                0,
                start,
            ) && occurs_at(placed(content, block), block, start),
            None => placed(content, block).subrange(0, content.len() as int) == content
                && occurs_at(placed(content, block), block, content.len() as int + 2),
        },
{
    reveal_strlit("\n\n");
    lemma_first_occurrence(content, start_marker(), 0);
    let out = placed(content, block);
    match first_occurrence(content, start_marker(), 0) {
        Some(start) => {
            assert(out.subrange(0, start) =~= content.subrange(0, start));
            assert(out.subrange(start, start + block.len()) =~= block);
        },
        None => {
            assert(out.subrange(0, content.len() as int) =~= content);
            let at = content.len() as int + 2;
            assert(out.subrange(at, at + block.len()) =~= block);
        },
    }
}

/// No two `=` stand side by side in the text. Both markers hold three in a
/// row, so text of this kind holds no marker.
pub open spec fn no_rule(text: Seq<char>) -> bool {
    forall|i: int| 0 <= i < text.len() - 1 ==> !(#[trigger] text[i] == '=' && text[i + 1] == '=')
}

/// Every line is without a rule: see [`no_rule`].
pub open spec fn no_rules(lines: Seq<Seq<char>>) -> bool {
    forall|j: int| 0 <= j < lines.len() ==> no_rule(#[trigger] lines[j])
}

/// Lines without a rule, put on rows of their own, make text without a rule.
pub proof fn lemma_rows_without_rule(lines: Seq<Seq<char>>)
    requires
        no_rules(lines),
    ensures
        no_rule(block_body(lines)),
    decreases lines.len(),
{
    reveal_strlit("\n");
    if lines.len() >= 2 {
        let before = join(lines.drop_last(), "\n"@);
        assert(no_rules(lines.drop_last())) by {
            assert forall|j: int| 0 <= j < lines.drop_last().len() implies no_rule(
                #[trigger] lines.drop_last()[j],
            ) by {
                assert(lines.drop_last()[j] == lines[j]);
            }
        }
        lemma_rows_without_rule(lines.drop_last());
        let last = lines.last();
        assert(no_rule(last));
        let whole = before + "\n"@ + last;
        assert forall|i: int| 0 <= i < whole.len() - 1 implies !(#[trigger] whole[i] == '='
            && whole[i + 1] == '=') by {
            if i + 1 < before.len() {
                assert(whole[i] == before[i] && whole[i + 1] == before[i + 1]);
            } else if i > before.len() {
                assert(whole[i] == last[i - before.len() - 1]);
                assert(whole[i + 1] == last[i - before.len()]);
            } else {
                assert(whole[before.len() as int] == '\n');
            }
        }
    } else if lines.len() == 1 {
        assert(no_rule(lines[0]));
    }
}

/// Text without a rule holds no end marker.
pub proof fn lemma_no_rule_no_marker(text: Seq<char>)
    requires
        no_rule(text),
    ensures
        first_occurrence(text, end_marker(), 0).is_none(),
{
    reveal_strlit("# === AUTO-GENERATED EXEC-ONCE END ===");
    assert forall|at: int| !occurs_at(text, end_marker(), at) by {
        if occurs_at(text, end_marker(), at) {
            let window = text.subrange(at, at + end_marker().len());
            assert(window[2] == text[at + 2]);
            assert(window[3] == text[at + 3]);
        }
    }
}

} // verus!
