//! What holds of the filter that the environment asks for.

use vstd::prelude::*;

use crate::init_tracing::{
    is_white_space, log_filter, strip, strip_end, strip_start, ConsoleConfig,
};

verus! {

/// Whether `out` holds of every character of a text.
pub open spec fn all_out(text: Seq<char>, out: spec_fn(char) -> bool) -> bool {
    forall|i: int| 0 <= i < text.len() ==> out(#[trigger] text[i])
}

proof fn lemma_strip_start_skips(before: Seq<char>, text: Seq<char>, out: spec_fn(char) -> bool)
    requires
        all_out(before, out),
    ensures
        strip_start(before + text, out) == strip_start(text, out),
    decreases before.len(),
{
    if before.len() == 0 {
        assert(before + text =~= text);
    } else {
        assert(out(before[0]));
        assert((before + text).drop_first() =~= before.drop_first() + text);
        assert forall|i: int| 0 <= i < before.drop_first().len() implies out(
            #[trigger] before.drop_first()[i],
        ) by {
            assert(before.drop_first()[i] == before[i + 1]);
        }
        lemma_strip_start_skips(before.drop_first(), text, out);
    }
}

proof fn lemma_strip_end_skips(text: Seq<char>, after: Seq<char>, out: spec_fn(char) -> bool)
    requires
        all_out(after, out),
    ensures
        strip_end(text + after, out) == strip_end(text, out),
    decreases after.len(),
{
    if after.len() == 0 {
        assert(text + after =~= text);
    } else {
        assert(out(after[after.len() - 1]));
        assert((text + after).drop_last() =~= text + after.drop_last());
        assert forall|i: int| 0 <= i < after.drop_last().len() implies out(
            #[trigger] after.drop_last()[i],
        ) by {
            assert(after.drop_last()[i] == after[i]);
        }
        lemma_strip_end_skips(text, after.drop_last(), out);
    }
}

/// What stands behind a text goes with it when its start is stripped, unless nothing of
/// the text is left.
proof fn lemma_strip_start_keeps(text: Seq<char>, after: Seq<char>, out: spec_fn(char) -> bool)
    requires
        !all_out(text, out),
    ensures
        strip_start(text + after, out) == strip_start(text, out) + after,
    decreases text.len(),
{
    assert((text + after).first() == text.first());
    if out(text.first()) {
        let rest = text.drop_first();
        assert((text + after).drop_first() =~= rest + after);
        if all_out(rest, out) {
            assert forall|i: int| 0 <= i < text.len() implies out(#[trigger] text[i]) by {
                if i > 0 {
                    assert(text[i] == rest[i - 1]);
                }
            }
        }
        lemma_strip_start_keeps(rest, after, out);
    }
}

proof fn lemma_strip_start_of_all_out(text: Seq<char>, out: spec_fn(char) -> bool)
    requires
        all_out(text, out),
    ensures
        strip_start(text, out) == Seq::<char>::empty(),
{
    lemma_strip_start_skips(text, Seq::empty(), out);
    assert(text + Seq::<char>::empty() =~= text);
}

/// Characters that are stripped anyway make no difference around a text.
pub proof fn stripped_characters_mean_nothing(
    before: Seq<char>,
    text: Seq<char>,
    after: Seq<char>,
    out: spec_fn(char) -> bool,
)
    requires
        all_out(before, out),
        all_out(after, out),
    ensures
        strip(before + text + after, out) == strip(text, out),
{
    assert(before + text + after =~= before + (text + after));
    lemma_strip_start_skips(before, text + after, out);
    if all_out(text, out) {
        lemma_strip_start_skips(text, after, out);
        lemma_strip_start_of_all_out(after, out);
        lemma_strip_start_of_all_out(text, out);
    } else {
        lemma_strip_start_keeps(text, after, out);
        lemma_strip_end_skips(strip_start(text, out), after, out);
    }
}

/// White space around the text of `RUST_LOG` makes no difference.
pub proof fn white_space_means_nothing(before: Seq<char>, text: Seq<char>, after: Seq<char>)
    requires
        all_out(before, |c: char| is_white_space(c)),
        all_out(after, |c: char| is_white_space(c)),
    ensures
        log_filter(Some(before + text + after)) == log_filter(Some(text)),
{
    stripped_characters_mean_nothing(before, text, after, |c: char| is_white_space(c));
}

/// Quotes around a text of `RUST_LOG` that neither starts nor ends with white space make no
/// difference.
pub proof fn quotes_mean_nothing(before: Seq<char>, text: Seq<char>, after: Seq<char>)
    requires
        all_out(before, |c: char| c == '"'),
        all_out(after, |c: char| c == '"'),
        text.len() > 0 ==> !is_white_space(text.first()) && !is_white_space(text.last()),
    ensures
        log_filter(Some(before + text + after)) == log_filter(Some(text)),
{
    let whole = before + text + after;
    let white = |c: char| is_white_space(c);
    if whole.len() > 0 {
        assert(!is_white_space(whole.first())) by {
            if before.len() > 0 {
                assert(whole.first() == before[0]);
            } else if text.len() > 0 {
                assert(whole.first() == text.first());
            } else {
                assert(whole.first() == after[0]);
            }
        }
        assert(!is_white_space(whole.last())) by {
            if after.len() > 0 {
                assert(whole.last() == after[after.len() - 1]);
            } else if text.len() > 0 {
                assert(whole.last() == text.last());
            } else {
                assert(whole.last() == before[before.len() - 1]);
            }
        }
    }
    assert(strip(whole, white) == whole);
    assert(strip(text, white) == text);
    stripped_characters_mean_nothing(before, text, after, |c: char| c == '"');
}

/// A text of `RUST_LOG` that neither starts nor ends with white space or a quote is the filter as
/// it stands, however long it is and whatever it holds.
pub proof fn clean_texts_are_filters(text: Seq<char>)
    requires
        text.len() > 0 ==> {
            &&& !is_white_space(text.first())
            &&& !is_white_space(text.last())
            &&& text.first() != '"'
            &&& text.last() != '"'
        },
    ensures
        log_filter(Some(text)) == text,
{
}

/// Without `RUST_LOG` the filter is `info`.
pub proof fn info_is_the_default()
    ensures
        log_filter(None) == "info"@,
{
    reveal_strlit("info");
    assert("info"@ =~= seq!['i', 'n', 'f', 'o']);
}

/// What is left of a text once it is stripped is a part of it. Everything before and behind that
/// part is stripped, and the part itself neither starts nor ends with anything that is.
/// `res` is where the part starts and ends.
pub proof fn stripping_leaves_the_middle(text: Seq<char>, out: spec_fn(char) -> bool) -> (res: (
    int,
    int,
))
    ensures
        0 <= res.0 <= res.1 <= text.len(),
        strip(text, out) == text.subrange(res.0, res.1),
        forall|i: int| 0 <= i < res.0 ==> out(#[trigger] text[i]),
        forall|i: int| res.1 <= i < text.len() ==> out(#[trigger] text[i]),
        res.0 < res.1 ==> !out(text[res.0]) && !out(text[res.1 - 1]),
{
    let from = lemma_strip_start_at(text, out);
    let rest = strip_start(text, out);
    let len = lemma_strip_end_at(rest, out);
    assert(strip(text, out) =~= text.subrange(from, from + len));
    assert forall|i: int| from + len <= i < text.len() implies out(#[trigger] text[i]) by {
        assert(text[i] == rest[i - from]);
    }
    (from, from + len)
}

proof fn lemma_strip_start_at(text: Seq<char>, out: spec_fn(char) -> bool) -> (from: int)
    ensures
        0 <= from <= text.len(),
        strip_start(text, out) == text.subrange(from, text.len() as int),
        forall|i: int| 0 <= i < from ==> out(#[trigger] text[i]),
        from < text.len() ==> !out(text[from]),
    decreases text.len(),
{
    if text.len() > 0 && out(text.first()) {
        let rest = text.drop_first();
        let from = lemma_strip_start_at(rest, out);
        assert(strip_start(text, out) =~= text.subrange(from + 1, text.len() as int));
        assert forall|i: int| 0 <= i < from + 1 implies out(#[trigger] text[i]) by {
            if i > 0 {
                assert(text[i] == rest[i - 1]);
            }
        }
        from + 1
    } else {
        assert(text =~= text.subrange(0, text.len() as int));
        0
    }
}

proof fn lemma_strip_end_at(text: Seq<char>, out: spec_fn(char) -> bool) -> (len: int)
    ensures
        0 <= len <= text.len(),
        strip_end(text, out) == text.subrange(0, len),
        forall|i: int| len <= i < text.len() ==> out(#[trigger] text[i]),
        len > 0 ==> !out(text[len - 1]),
    decreases text.len(),
{
    if text.len() > 0 && out(text.last()) {
        let rest = text.drop_last();
        let len = lemma_strip_end_at(rest, out);
        assert(strip_end(text, out) =~= text.subrange(0, len));
        assert forall|i: int| len <= i < text.len() implies out(#[trigger] text[i]) by {
            if i < text.len() - 1 {
                assert(text[i] == rest[i]);
            }
        }
        len
    } else {
        assert(text =~= text.subrange(0, text.len() as int));
        text.len() as int
    }
}

/// The filter is the middle of `RUST_LOG`: around it stand quotes alone, and around those white
/// space alone. It neither starts nor ends with a quote, and what stands in the quotes and
/// they themselves neither start nor end with white space.
/// `res` is where the text without white space starts and ends, and where the filter does.
pub proof fn filters_stand_in_quotes_and_white_space(text: Seq<char>) -> (res: (
    int,
    int,
    int,
    int,
))
    ensures
        0 <= res.0 <= res.2 <= res.3 <= res.1 <= text.len(),
        log_filter(Some(text)) == text.subrange(res.2, res.3),
        forall|i: int| 0 <= i < res.0 ==> is_white_space(#[trigger] text[i]),
        forall|i: int| res.1 <= i < text.len() ==> is_white_space(#[trigger] text[i]),
        res.0 < res.1 ==> !is_white_space(text[res.0]) && !is_white_space(text[res.1 - 1]),
        forall|i: int| res.0 <= i < res.2 ==> #[trigger] text[i] == '"',
        forall|i: int| res.3 <= i < res.1 ==> #[trigger] text[i] == '"',
        res.2 < res.3 ==> text[res.2] != '"' && text[res.3 - 1] != '"',
{
    let white = |c: char| is_white_space(c);
    let quote = |c: char| c == '"';
    let (a, d) = stripping_leaves_the_middle(text, white);
    let middle = strip(text, white);
    let (b, c) = stripping_leaves_the_middle(middle, quote);
    assert(strip(middle, quote) =~= text.subrange(a + b, a + c));
    assert forall|i: int| 0 <= i < a implies is_white_space(#[trigger] text[i]) by {
        assert(white(text[i]));
    }
    assert forall|i: int| d <= i < text.len() implies is_white_space(#[trigger] text[i]) by {
        assert(white(text[i]));
    }
    assert forall|i: int| a <= i < a + b implies #[trigger] text[i] == '"' by {
        assert(quote(middle[i - a]));
    }
    assert forall|i: int| a + c <= i < d implies #[trigger] text[i] == '"' by {
        assert(quote(middle[i - a]));
    }
    (a, d, a + b, a + c)
}

/// White space is what Unicode calls so: the tab and its neighbours, the space, the next line, the
/// no-break spaces, the spaces of typography, and the separators of lines and paragraphs.
pub proof fn white_space_is_that_of_unicode(c: char)
    ensures
        is_white_space(c) <==> {
            ||| c == '\t' || c == '\n' || c == '\u{b}' || c == '\u{c}' || c == '\r'
            ||| c == ' ' || c == '\u{85}' || c == '\u{a0}' || c == '\u{1680}'
            ||| '\u{2000}' as u32 <= c as u32 <= '\u{200a}' as u32
            ||| c == '\u{2028}' || c == '\u{2029}' || c == '\u{202f}' || c == '\u{205f}'
            ||| c == '\u{3000}'
        },
{
}

/// The console listens at every address of the machine, on port 6669, and keeps up to 1,048,576
/// events.
pub proof fn the_console_is_the_same_for_all(console: ConsoleConfig)
    ensures
        console.is_default() <==> {
            &&& console.ip@ == seq![0u8, 0u8, 0u8, 0u8]
            &&& console.port == 6669
            &&& console.event_buffer_capacity == 1024 * 1024
        },
{
}

} // verus!
