//! Text utilities: boolean words and display strings of bounded length.

use std::str::Chars;
use vstd::prelude::*;
use vstd::std_specs::iter::IteratorSpec;
use crate::text::{lowercase, lowercased, same_text};

verus! {

broadcast use vstd::string::group_string_axioms;

/// Whether `word` is one of the four words that stand for "true".
pub open spec fn is_true_word_spec(word: Seq<char>) -> bool {
    word == "true"@ || word == "1"@ || word == "yes"@ || word == "ok"@
}

/// Tests a word, taken as it is written, against the four words for "true".
pub fn is_true_word(word: &str) -> (r: bool)
    ensures
        r == is_true_word_spec(word@),
{
    same_text(word, "true") || same_text(word, "1") || same_text(word, "yes") || same_text(
        word,
        "ok",
    )
}

/// Reads a flag: true exactly for the strings whose lowercase equivalent is
/// `true`, `1`, `yes` or `ok`, so in whatever case they are written.
pub fn is_bool_true(s: &str) -> (r: bool)
    ensures
        r == is_true_word_spec(lowercase(s@)),
{
    let lowered = lowercased(s);
    is_true_word(lowered.as_str())
}

/// The opposite of [`is_bool_true`]: a string that is not a word for "true"
/// counts as false.
pub fn is_bool_false(s: &str) -> (r: bool)
    ensures
        r == !is_true_word_spec(lowercase(s@)),
{
    !is_bool_true(s)
}

/// Why a display string could not be cut to length.
#[derive(Clone, Copy, Debug, PartialEq, Eq, Structural)]
pub enum TruncateError {
    /// The ellipsis alone is longer than the length allowed.
    InvalidArgument,
}

/// `input` cut to at most `max_n` scalar values: unchanged where it fits,
/// else its beginning with `ellipsis` in place of what was cut off.
pub open spec fn truncated(input: Seq<char>, max_n: nat, ellipsis: Seq<char>) -> Seq<char>
    recommends
        ellipsis.len() <= max_n,
{
    if input.len() <= max_n {
        input
    } else {
        input.take(max_n - ellipsis.len()) + ellipsis
    }
}

/// What [`max_n_chars`] returns: an ellipsis longer than `max_n` is refused,
/// whatever the input; every other call gives [`truncated`].
pub open spec fn max_n_chars_spec(input: Seq<char>, max_n: nat, ellipsis: Seq<char>) -> Result<
    Seq<char>,
    TruncateError,
> {
    if ellipsis.len() > max_n {
        Err(TruncateError::InvalidArgument)
    } else {
        Ok(truncated(input, max_n, ellipsis))
    }
}

/// The view of what [`max_n_chars`] hands back.
pub open spec fn shown(r: Result<String, TruncateError>) -> Result<Seq<char>, TruncateError> {
    match r {
        Ok(s) => Ok(s@),
        Err(e) => Err(e),
    }
}

/// The number of scalar values that are taken from an input of `len` scalar
/// values: none for a call that is refused, else all of a short input and one
/// more than `max_n` of a long one.
pub open spec fn taken_from(len: nat, max_n: nat, ellipsis: Seq<char>) -> nat {
    if ellipsis.len() > max_n {
        0
    } else if len <= max_n {
        len
    } else {
        max_n + 1
    }
}

/// Shows at most `max_n` scalar values of what `input` has left, and leaves in
/// `input` what was not needed to decide: an input that is longer than
/// `max_n` loses `max_n + 1` scalar values, however long it is.
pub fn max_n_chars_from(input: &mut Chars, max_n: usize, ellipsis: &str) -> (r: Result<
    String,
    TruncateError,
>)
    ensures
        shown(r) == max_n_chars_spec((*old(input)).remaining(), max_n as nat, ellipsis@),
        (*final(input)).remaining() == (*old(input)).remaining().skip(
            taken_from((*old(input)).remaining().len(), max_n as nat, ellipsis@) as int,
        ),
{
    let ellipsis_len = ellipsis.unicode_len();
    if ellipsis_len > max_n {
        assert((*input).remaining().skip(0) == (*input).remaining());
        return Err(TruncateError::InvalidArgument);
    }
    let keep = max_n - ellipsis_len;
    let ghost all = (*input).remaining();
    let mut head = String::new();
    let mut tail = String::new();
    let mut taken: usize = 0;
    while taken < max_n
        invariant
            all == (*old(input)).remaining(),
            keep + ellipsis@.len() == max_n,
            taken <= max_n,
            taken <= all.len(),
            (*input).remaining() == all.skip(taken as int),
            head@ + tail@ == all.take(taken as int),
            head@.len() == if taken <= keep {
                taken
            } else {
                keep
            },
        decreases max_n - taken,
    {
        match input.next() {
            None => {
                head.append(tail.as_str());
                assert(all.take(taken as int) == all);
                return Ok(head);
            },
            Some(c) => {
                assert(all.take(taken + 1) == all.take(taken as int).push(c));
                assert(all.skip(taken as int).drop_first() == all.skip(taken + 1));
                if taken < keep {
                    assert(tail@ == Seq::<char>::empty());
                    head.push(c);
                } else {
                    tail.push(c);
                }
                assert(head@ + tail@ == all.take(taken + 1));
                taken = taken + 1;
            },
        }
    }
    match input.next() {
        None => {
            head.append(tail.as_str());
            assert(all.take(taken as int) == all);
            Ok(head)
        },
        Some(_) => {
            assert(all.skip(taken as int).drop_first() == all.skip(taken + 1));
            assert(head@ == all.take(keep as int)) by {
                assert((head@ + tail@).take(keep as int) == head@);
                assert(all.take(max_n as int).take(keep as int) == all.take(keep as int));
            }
            head.append(ellipsis);
            Ok(head)
        },
    }
}

/// Shows at most `max_n` scalar values of `input`. An input that fits comes
/// back unchanged. A longer one keeps its first `max_n` less the length of
/// `ellipsis` scalar values and ends in `ellipsis`, so that it is `max_n`
/// long. An `ellipsis` that is itself longer than `max_n` is refused.
///
/// Lengths count scalar values, so a glyph made of several of them may be cut
/// in two.
pub fn max_n_chars(input: Chars, max_n: usize, ellipsis: &str) -> (r: Result<String, TruncateError>)
    ensures
        shown(r) == max_n_chars_spec(input.remaining(), max_n as nat, ellipsis@),
        r is Err <==> ellipsis@.len() > max_n,
        ellipsis@.len() <= max_n && input.remaining().len() <= max_n ==> shown(r) == Ok::<
            Seq<char>,
            TruncateError,
        >(input.remaining()),
        ellipsis@.len() <= max_n && input.remaining().len() > max_n ==> r is Ok && r->Ok_0@.len()
            == max_n && ellipsis@.is_suffix_of(r->Ok_0@) && input.remaining().take(
            max_n - ellipsis@.len(),
        ).is_prefix_of(r->Ok_0@),
{
    let ghost all = input.remaining();
    let mut rest = input;
    let r = max_n_chars_from(&mut rest, max_n, ellipsis);
    assert(ellipsis@.len() <= max_n && all.len() > max_n ==> truncated(
        all,
        max_n as nat,
        ellipsis@,
    ).len() == max_n && ellipsis@.is_suffix_of(truncated(all, max_n as nat, ellipsis@))
        && all.take(max_n - ellipsis@.len()).is_prefix_of(
        truncated(all, max_n as nat, ellipsis@),
    )) by {
        if ellipsis@.len() <= max_n && all.len() > max_n {
            lemma_cut_has_length_and_ending(all, max_n as nat, ellipsis@);
        }
    }
    r
}

/// An input that is longer than `max_n` is cut to exactly `max_n` scalar
/// values: the beginning of the input, then the whole of `ellipsis`.
pub proof fn lemma_cut_has_length_and_ending(input: Seq<char>, max_n: nat, ellipsis: Seq<char>)
    requires
        ellipsis.len() <= max_n,
        input.len() > max_n,
    ensures
        truncated(input, max_n, ellipsis).len() == max_n,
        ellipsis.is_suffix_of(truncated(input, max_n, ellipsis)),
        input.take(max_n - ellipsis.len()).is_prefix_of(truncated(input, max_n, ellipsis)),
{
    let out = truncated(input, max_n, ellipsis);
    let keep = max_n - ellipsis.len();
    assert(out.subrange(out.len() - ellipsis.len(), out.len() as int) == ellipsis);
    assert(out.subrange(0, keep) == input.take(keep));
}

/// An input that is no longer than `max_n` comes back as it is, with no
/// ellipsis added.
pub proof fn lemma_short_input_is_unchanged(input: Seq<char>, max_n: nat, ellipsis: Seq<char>)
    requires
        ellipsis.len() <= max_n,
        input.len() <= max_n,
    ensures
        max_n_chars_spec(input, max_n, ellipsis) == Ok::<Seq<char>, TruncateError>(input),
{
}

/// Cutting twice is cutting once: a result that is no longer than `max_n`
/// comes back unchanged from a second call with the same `max_n` and
/// `ellipsis`.
pub proof fn lemma_truncation_idempotent(input: Seq<char>, max_n: nat, ellipsis: Seq<char>)
    requires
        max_n_chars_spec(input, max_n, ellipsis) is Ok,
        max_n_chars_spec(input, max_n, ellipsis)->Ok_0.len() <= max_n,
    ensures
        max_n_chars_spec(max_n_chars_spec(input, max_n, ellipsis)->Ok_0, max_n, ellipsis)
            == max_n_chars_spec(input, max_n, ellipsis),
{
}

/// Every accepted call gives a string of at most `max_n` scalar values.
pub proof fn lemma_truncation_bounded(input: Seq<char>, max_n: nat, ellipsis: Seq<char>)
    requires
        ellipsis.len() <= max_n,
    ensures
        truncated(input, max_n, ellipsis).len() <= max_n,
{
}

} // verus!
