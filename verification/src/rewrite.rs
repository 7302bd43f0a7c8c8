//! Rewriting the size that a vector document declares.
//!
//! The root tag of a drawing may say how wide and how high the drawing is,
//! as in ` width="512px" height="512px"`. To render the drawing at another
//! size these two values are replaced, and nothing else in the text is
//! touched.

use vstd::prelude::*;
use vstd::utf8::{
    is_char_boundary_iff_not_is_continuation_byte, partial_valid_utf8,
    partial_valid_utf8_extend_ascii_block, valid_utf8, valid_utf8_concat, valid_utf8_split,
};

use crate::markup::{
    attribute_value, find_attribute_value, find_root_span, find_value_start, is_unquoted,
    lemma_attribute_value_is_quoted, lemma_find_value_start_opens,
    lemma_find_value_start_reads_before, lemma_one_value_has_one_name,
    lemma_root_span_is_delimited, root_span, same_before, value_start_at,
};

verus! {

/// The decimal digits of `n`, without leading zeros.
pub open spec fn decimal(n: nat) -> Seq<u8>
    decreases n,
{
    if n < 10 {
        seq![(0x30 + n) as u8]
    } else {
        decimal(n / 10).push((0x30 + n % 10) as u8)
    }
}

/// A length of `n` pixels as an attribute value: the digits of `n` and `px`.
pub open spec fn pixel_length(n: u16) -> Seq<u8> {
    decimal(n as nat).push(0x70).push(0x78)
}

/// The attribute name `width`.
pub open spec fn width_name() -> Seq<u8> {
    seq![0x77, 0x69, 0x64, 0x74, 0x68]
}

/// The attribute name `height`.
pub open spec fn height_name() -> Seq<u8> {
    seq![0x68, 0x65, 0x69, 0x67, 0x68, 0x74]
}

/// `text` with the bytes from `start` up to `end` replaced by `value`.
pub open spec fn splice(text: Seq<u8>, start: int, end: int, value: Seq<u8>) -> Seq<u8> {
    text.subrange(0, start) + value + text.subrange(end, text.len() as int)
}

/// `text` with `value` given to the first attribute `name` between `start`
/// and `end`; the position to which `end` has moved; and whether anything
/// was changed. Nothing is changed where there is no such attribute or where
/// it has that value already.
pub open spec fn with_attribute(
    text: Seq<u8>,
    start: int,
    end: int,
    name: Seq<u8>,
    value: Seq<u8>,
) -> (Seq<u8>, int, bool) {
    match attribute_value(text.subrange(start, end), name) {
        Some((from, to)) => if text.subrange(start + from, start + to) == value {
            (text, end, false)
        } else {
            (splice(text, start + from, start + to, value), end + value.len() - (to - from), true)
        },
        None => (text, end, false),
    }
}

/// `text` with the width and the height that its root tag declares set to
/// `width` and `height` pixels, and whether anything was changed. The width
/// is set first; the height is then looked for in what has become of the
/// inside of the tag.
pub open spec fn rewritten(text: Seq<u8>, width: u16, height: u16) -> (Seq<u8>, bool) {
    match root_span(text) {
        Some((start, end)) => {
            let first = with_attribute(text, start, end, width_name(), pixel_length(width));
            let second = with_attribute(
                first.0,
                start,
                first.1,
                height_name(),
                pixel_length(height),
            );
            (second.0, first.2 || second.2)
        },
        None => (text, false),
    }
}

/// Setting an attribute changes nothing before `start`, nothing from the old
/// `end` on, and moves `end` by as much as the text has grown.
pub proof fn lemma_with_attribute_frame(
    text: Seq<u8>,
    start: int,
    end: int,
    name: Seq<u8>,
    value: Seq<u8>,
)
    requires
        0 <= start <= end <= text.len(),
    ensures
        ({
            let (new_text, new_end, changed) = with_attribute(text, start, end, name, value);
            &&& start <= new_end <= new_text.len()
            &&& new_end - end == new_text.len() - text.len()
            &&& new_text.subrange(0, start) == text.subrange(0, start)
            &&& new_text.subrange(new_end, new_text.len() as int) == text.subrange(
                end,
                text.len() as int,
            )
            &&& !changed ==> new_text == text
        }),
{
    let inside = text.subrange(start, end);
    lemma_attribute_value_is_quoted(inside, name);
    let (new_text, new_end, changed) = with_attribute(text, start, end, name, value);
    if changed {
        let (from, to) = attribute_value(inside, name).unwrap();
        assert(new_text.subrange(0, start) =~= text.subrange(0, start));
        assert(new_text.subrange(new_end, new_text.len() as int) =~= text.subrange(
            end,
            text.len() as int,
        ));
    }
}

/// A splice that gives the text back had the same bytes to put in as it
/// took out.
pub proof fn lemma_splice_differs(text: Seq<u8>, start: int, end: int, value: Seq<u8>)
    requires
        0 <= start <= end <= text.len(),
        text.subrange(start, end) != value,
    ensures
        splice(text, start, end, value) != text,
{
    let spliced = splice(text, start, end, value);
    if spliced == text {
        assert(value.len() == end - start);
        assert forall|i: int| 0 <= i < value.len() implies text.subrange(start, end)[i]
            == value[i] by {
            assert(spliced[start + i] == value[i]);
        }
        assert(text.subrange(start, end) =~= value);
    }
}

/// Whether the bytes of `text` from `start` up to `end` stand between two
/// double quotes and hold none.
pub open spec fn is_quoted(text: Seq<u8>, start: int, end: int) -> bool {
    &&& 0 < start <= end < text.len()
    &&& text[start - 1] == 0x22
    &&& text[end] == 0x22
    &&& forall|i: int| start <= i < end ==> text[i] != 0x22
}

/// Two quoted values that begin at the same place are the same value.
pub proof fn lemma_quoted_value_ends_once(text: Seq<u8>, start: int, end: int, other_end: int)
    requires
        is_quoted(text, start, end),
        is_quoted(text, start, other_end),
    ensures
        end == other_end,
{
}

/// A value that is put in place of a quoted value is quoted itself.
pub proof fn lemma_splice_is_quoted(text: Seq<u8>, start: int, end: int, value: Seq<u8>)
    requires
        is_quoted(text, start, end),
        is_unquoted(value),
    ensures
        is_quoted(splice(text, start, end, value), start, start + value.len()),
        splice(text, start, end, value).subrange(start, start + value.len()) == value,
{
    let spliced = splice(text, start, end, value);
    assert forall|i: int| start <= i < start + value.len() implies spliced[i] != 0x22 by {
        assert(spliced[i] == value[i - start]);
    }
    assert(spliced[start + value.len()] == text[end]);
    assert(spliced.subrange(start, start + value.len()) =~= value);
}

/// Two splices of quoted values, each of which puts in other bytes than it
/// takes out, do not give the text back, unless the second one begins
/// where the first one began.
pub proof fn lemma_two_splices_differ(
    text: Seq<u8>,
    start: int,
    end: int,
    value: Seq<u8>,
    next_start: int,
    next_end: int,
    next_value: Seq<u8>,
)
    requires
        is_quoted(text, start, end),
        is_unquoted(value),
        text.subrange(start, end) != value,
        is_quoted(splice(text, start, end, value), next_start, next_end),
        is_unquoted(next_value),
        splice(text, start, end, value).subrange(next_start, next_end) != next_value,
        next_start != start,
    ensures
        splice(splice(text, start, end, value), next_start, next_end, next_value) != text,
{
    let first = splice(text, start, end, value);
    let second = splice(first, next_start, next_end, next_value);
    lemma_splice_is_quoted(text, start, end, value);
    lemma_splice_is_quoted(first, next_start, next_end, next_value);
    if second == text {
        if next_start < start {
            // The second value lies in front of the first, where the first splice
            // changed nothing.
            assert(first[start - 1] == 0x22);
            assert(next_end < start);
            assert forall|i: int| next_start <= i < next_end implies text[i] != 0x22 by {
                assert(text[i] == first[i]);
            }
            assert(text[next_end] == first[next_end]);
            assert(is_quoted(text, next_start, next_end));
            assert(text[next_start - 1] == first[next_start - 1]);
            lemma_quoted_value_ends_once(
                text,
                next_start,
                next_end,
                next_start + next_value.len(),
            );
            assert(first.subrange(next_start, next_end) =~= text.subrange(next_start, next_end));
        } else {
            // The first value lies in front of the second, where the second splice
            // changed nothing.
            assert(first[next_start - 1] == 0x22);
            assert(next_start > start + value.len());
            assert forall|i: int| start <= i <= start + value.len() implies text[i]
                == first[i] by {
                assert(second[i] == first[i]);
            }
            assert(text[start - 1] == first[start - 1]);
            assert(is_quoted(text, start, start + value.len()));
            lemma_quoted_value_ends_once(text, start, end, start + value.len());
            assert(text.subrange(start, end) =~= first.subrange(start, start + value.len()));
        }
    }
}

/// The width and the height of a tag are not the same value: no attribute
/// `height` opens where the first attribute `width` does, neither before
/// nor after the width is set.
pub proof fn lemma_width_is_not_height(inside: Seq<u8>, other: Seq<u8>)
    requires
        find_value_start(inside, 0, width_name()) matches Some(start) && same_before(
            inside,
            other,
            start,
        ),
    ensures
        find_value_start(other, 0, height_name()) != find_value_start(inside, 0, width_name()),
{
    let start = find_value_start(inside, 0, width_name()).unwrap();
    if find_value_start(other, 0, height_name()) == Some(start) {
        assert(same_before(other, inside, start));
        lemma_find_value_start_reads_before(other, inside, 0, height_name());
        lemma_find_value_start_opens(inside, 0, width_name());
        lemma_find_value_start_opens(inside, 0, height_name());
        let at = choose|at: int| #[trigger]
            value_start_at(inside, at, width_name()) == Some(start);
        let other_at = choose|at: int| #[trigger]
            value_start_at(inside, at, height_name()) == Some(start);
        assert(width_name().last() == 0x68);
        assert(height_name().last() == 0x74);
        lemma_one_value_has_one_name(inside, at, width_name(), other_at, height_name());
    }
}

/// A rewrite that reports a change has changed the text.
pub proof fn lemma_rewritten_differs(text: Seq<u8>, width: u16, height: u16)
    ensures
        rewritten(text, width, height).1 ==> rewritten(text, width, height).0 != text,
{
    lemma_root_span_is_delimited(text);
    lemma_pixel_length_is_plain(width);
    lemma_pixel_length_is_plain(height);
    if let Some((start, end)) = root_span(text) {
        let w = pixel_length(width);
        let h = pixel_length(height);
        let first = with_attribute(text, start, end, width_name(), w);
        let second = with_attribute(first.0, start, first.1, height_name(), h);
        lemma_with_attribute_frame(text, start, end, width_name(), w);
        let inside = text.subrange(start, end);
        let inside1 = first.0.subrange(start, first.1);
        lemma_attribute_value_is_quoted(inside, width_name());
        lemma_attribute_value_is_quoted(inside1, height_name());
        if first.2 && !second.2 {
            let (wf, wt) = attribute_value(inside, width_name()).unwrap();
            lemma_splice_differs(text, start + wf, start + wt, w);
        } else if !first.2 && second.2 {
            let (hf, ht) = attribute_value(inside1, height_name()).unwrap();
            lemma_splice_differs(text, start + hf, start + ht, h);
        } else if first.2 && second.2 {
            let (wf, wt) = attribute_value(inside, width_name()).unwrap();
            let (hf, ht) = attribute_value(inside1, height_name()).unwrap();
            assert(is_quoted(text, start + wf, start + wt)) by {
                assert(inside[wf - 1] == text[start + wf - 1]);
                assert(inside[wt] == text[start + wt]);
                assert forall|i: int| start + wf <= i < start + wt implies text[i] != 0x22 by {
                    assert(inside[i - start] == text[i]);
                }
            }
            assert(is_quoted(first.0, start + hf, start + ht)) by {
                assert(inside1[hf - 1] == first.0[start + hf - 1]);
                assert(inside1[ht] == first.0[start + ht]);
                assert forall|i: int| start + hf <= i < start + ht implies first.0[i] != 0x22 by {
                    assert(inside1[i - start] == first.0[i]);
                }
            }
            assert(same_before(inside, inside1, wf)) by {
                assert forall|i: int| 0 <= i < wf implies inside[i] == inside1[i] by {
                    assert(inside[i] == text[start + i]);
                    assert(inside1[i] == first.0[start + i]);
                }
            }
            lemma_width_is_not_height(inside, inside1);
            lemma_two_splices_differ(text, start + wf, start + wt, w, start + hf, start + ht, h);
        }
    }
}

/// Rewriting the declared size touches the inside of the root tag only:
/// the text up to and with `<svg`, and the text from the closing `>` of the
/// tag on, are the same bytes as before. Where nothing was changed, or where
/// there is no root tag, the whole text is.
pub proof fn lemma_rewritten_touches_root_tag_only(text: Seq<u8>, width: u16, height: u16)
    ensures
        ({
            let (new_text, changed) = rewritten(text, width, height);
            &&& !changed ==> new_text == text
            &&& root_span(text) is None ==> !changed
            &&& root_span(text) matches Some((start, end)) ==> {
                let new_end = end + new_text.len() - text.len();
                &&& start <= new_end < new_text.len()
                &&& new_text.subrange(0, start) == text.subrange(0, start)
                &&& new_text.subrange(new_end, new_text.len() as int) == text.subrange(
                    end,
                    text.len() as int,
                )
            }
        }),
{
    lemma_root_span_is_delimited(text);
    if let Some((start, end)) = root_span(text) {
        let first = with_attribute(text, start, end, width_name(), pixel_length(width));
        lemma_with_attribute_frame(text, start, end, width_name(), pixel_length(width));
        let second = with_attribute(first.0, start, first.1, height_name(), pixel_length(height));
        lemma_with_attribute_frame(first.0, start, first.1, height_name(), pixel_length(height));
        assert(second.0.subrange(0, start) == text.subrange(0, start));
        assert(text.subrange(end, text.len() as int).len() > 0);
    }
}

/// A text of ASCII bytes alone is well-formed UTF-8.
pub proof fn lemma_ascii_is_utf8(bytes: Seq<u8>)
    requires
        forall|i: int| 0 <= i < bytes.len() ==> #[trigger] bytes[i] < 0x80,
    ensures
        valid_utf8(bytes),
{
    assert(bytes.subrange(0, 0) =~= Seq::<u8>::empty());
    assert(partial_valid_utf8(bytes, 0));
    partial_valid_utf8_extend_ascii_block(bytes, 0, bytes.len() as int);
    assert(bytes.subrange(0, bytes.len() as int) =~= bytes);
}

/// The decimal digits of a number are digits.
pub proof fn lemma_decimal_is_digits(n: nat)
    ensures
        decimal(n).len() >= 1,
        forall|i: int| 0 <= i < decimal(n).len() ==> 0x30 <= #[trigger] decimal(n)[i] <= 0x39,
    decreases n,
{
    if n >= 10 {
        lemma_decimal_is_digits(n / 10);
    }
}

/// A length in pixels is spelled in ASCII, without a double quote.
pub proof fn lemma_pixel_length_is_plain(n: u16)
    ensures
        valid_utf8(pixel_length(n)),
        forall|i: int| 0 <= i < pixel_length(n).len() ==> #[trigger] pixel_length(n)[i] != 0x22,
{
    lemma_decimal_is_digits(n as nat);
    lemma_ascii_is_utf8(pixel_length(n));
}

/// Replacing what stands between two bytes of ASCII by well-formed UTF-8
/// leaves a text of well-formed UTF-8 well-formed.
pub proof fn lemma_splice_keeps_utf8(text: Seq<u8>, start: int, end: int, value: Seq<u8>)
    requires
        valid_utf8(text),
        valid_utf8(value),
        0 < start <= end < text.len(),
        text[start - 1] < 0x80,
        text[end] < 0x80,
    ensures
        valid_utf8(splice(text, start, end, value)),
{
    let before = text.subrange(0, start - 1);
    let from_quote = text.subrange(start - 1, text.len() as int);
    is_char_boundary_iff_not_is_continuation_byte(text, start - 1);
    valid_utf8_split(text, start - 1);
    let quote = seq![text[start - 1]];
    lemma_ascii_is_utf8(quote);
    valid_utf8_concat(before, quote);
    assert(before + quote =~= text.subrange(0, start));

    is_char_boundary_iff_not_is_continuation_byte(text, end);
    valid_utf8_split(text, end);
    valid_utf8_concat(text.subrange(0, start), value);
    valid_utf8_concat(text.subrange(0, start) + value, text.subrange(end, text.len() as int));
}

/// Setting an attribute to a value of well-formed UTF-8 leaves a text of
/// well-formed UTF-8 well-formed.
pub proof fn lemma_with_attribute_keeps_utf8(
    text: Seq<u8>,
    start: int,
    end: int,
    name: Seq<u8>,
    value: Seq<u8>,
)
    requires
        0 <= start <= end <= text.len(),
        valid_utf8(text),
        valid_utf8(value),
    ensures
        valid_utf8(with_attribute(text, start, end, name, value).0),
{
    let inside = text.subrange(start, end);
    lemma_attribute_value_is_quoted(inside, name);
    if let Some((from, to)) = attribute_value(inside, name) {
        assert(inside[from - 1] == text[start + from - 1]);
        assert(inside[to] == text[start + to]);
        lemma_splice_keeps_utf8(text, start + from, start + to, value);
    }
}

/// Rewriting the declared size of a text of well-formed UTF-8 gives a text
/// of well-formed UTF-8.
pub proof fn lemma_rewritten_keeps_utf8(text: Seq<u8>, width: u16, height: u16)
    requires
        valid_utf8(text),
    ensures
        valid_utf8(rewritten(text, width, height).0),
{
    lemma_root_span_is_delimited(text);
    lemma_pixel_length_is_plain(width);
    lemma_pixel_length_is_plain(height);
    if let Some((start, end)) = root_span(text) {
        lemma_with_attribute_frame(text, start, end, width_name(), pixel_length(width));
        lemma_with_attribute_keeps_utf8(text, start, end, width_name(), pixel_length(width));
        let first = with_attribute(text, start, end, width_name(), pixel_length(width));
        lemma_with_attribute_keeps_utf8(
            first.0,
            start,
            first.1,
            height_name(),
            pixel_length(height),
        );
    }
}

fn append_bytes(out: &mut Vec<u8>, source: &[u8], from: usize, to: usize)
    requires
        from <= to <= source.len(),
    ensures
        final(out)@ == old(out)@ + source@.subrange(from as int, to as int),
{
    let mut at: usize = from;
    while at < to
        invariant
            from <= at <= to <= source.len(),
            out@ == old(out)@ + source@.subrange(from as int, at as int),
        decreases to - at,
    {
        out.push(source[at]);
        assert(source@.subrange(from as int, at + 1) =~= source@.subrange(
            from as int,
            at as int,
        ).push(source@[at as int]));
        at = at + 1;
    }
    assert(source@.subrange(from as int, from as int) =~= Seq::<u8>::empty());
}

fn same_bytes(text: &[u8], from: usize, to: usize, value: &[u8]) -> (same: bool)
    requires
        from <= to <= text.len(),
    ensures
        same == (text@.subrange(from as int, to as int) == value@),
{
    if to - from != value.len() {
        return false;
    }
    let mut k: usize = 0;
    while k < value.len()
        invariant
            from <= to <= text.len(),
            to - from == value.len(),
            k <= value.len(),
            forall|j: int| 0 <= j < k ==> text@[from + j] == value@[j],
        decreases value.len() - k,
    {
        if text[from + k] != value[k] {
            assert(text@.subrange(from as int, to as int)[k as int] != value@[k as int]);
            return false;
        }
        k = k + 1;
    }
    assert(text@.subrange(from as int, to as int) =~= value@);
    true
}

fn decimal_bytes(n: u16) -> (digits: Vec<u8>)
    ensures
        digits@ == decimal(n as nat),
    decreases n,
{
    if n < 10 {
        let mut digits: Vec<u8> = Vec::new();
        digits.push(0x30 + (n as u8));
        assert(digits@ =~= decimal(n as nat));
        digits
    } else {
        let mut digits: Vec<u8> = decimal_bytes(n / 10);
        digits.push(0x30 + ((n % 10) as u8));
        digits
    }
}

fn pixel_bytes(n: u16) -> (value: Vec<u8>)
    ensures
        value@ == pixel_length(n),
{
    let mut value: Vec<u8> = decimal_bytes(n);
    value.push(0x70);
    value.push(0x78);
    value
}

fn replace_attribute(text: &[u8], start: usize, end: usize, name: &[u8], value: &[u8]) -> (replaced:
    Option<(Vec<u8>, usize)>)
    requires
        start <= end <= text.len(),
    ensures
        match replaced {
            Some((new_text, new_end)) => with_attribute(
                text@,
                start as int,
                end as int,
                name@,
                value@,
            ) == (new_text@, new_end as int, true),
            None => with_attribute(text@, start as int, end as int, name@, value@) == (
                text@,
                end as int,
                false,
            ),
        },
        replaced matches Some((new_text, new_end)) ==> start <= new_end <= new_text.len(),
{
    let inside: &[u8] = vstd::slice::slice_subrange(text, start, end);
    match find_attribute_value(inside, name) {
        Some((from, to)) => {
            if same_bytes(text, start + from, start + to, value) {
                None
            } else {
                let mut new_text: Vec<u8> = Vec::new();
                append_bytes(&mut new_text, text, 0, start + from);
                append_bytes(&mut new_text, value, 0, value.len());
                append_bytes(&mut new_text, text, start + to, text.len());
                assert(value@.subrange(0, value@.len() as int) =~= value@);
                assert(new_text@ =~= splice(text@, start + from, start + to, value@));
                let new_end: usize = new_text.len() - (text.len() - end);
                Some((new_text, new_end))
            }
        },
        None => None,
    }
}

/// Rewrite the width and the height that the root tag of `text` declares to
/// `width` and `height` pixels. Returns the new text, or `None` where there
/// is nothing to change: no root tag, neither attribute in it, or both at
/// these values already. The new text holds the same bytes as `text` up to
/// and with `<svg`, and from the `>` that closes the tag on.
pub fn rewrite_dimensions(text: &[u8], width: u16, height: u16) -> (new_text: Option<Vec<u8>>)
    ensures
        match new_text {
            Some(new_text) => rewritten(text@, width, height) == (new_text@, true),
            None => rewritten(text@, width, height) == (text@, false),
        },
        new_text matches Some(t) ==> root_span(text@) matches Some((start, end)) && t@.subrange(
            0,
            start,
        ) == text@.subrange(0, start) && t@.subrange(
            end + t@.len() - text@.len(),
            t@.len() as int,
        ) == text@.subrange(end, text@.len() as int),
{
    proof {
        lemma_rewritten_touches_root_tag_only(text@, width, height);
    }
    match find_root_span(text) {
        Some((start, end)) => {
            let width_value: Vec<u8> = pixel_bytes(width);
            let height_value: Vec<u8> = pixel_bytes(height);
            let width_word: [u8; 5] = [0x77, 0x69, 0x64, 0x74, 0x68];
            let height_word: [u8; 6] = [0x68, 0x65, 0x69, 0x67, 0x68, 0x74];
            let width_key: &[u8] = width_word.as_slice();
            let height_key: &[u8] = height_word.as_slice();
            assert(width_key@ =~= width_name());
            assert(height_key@ =~= height_name());
            match replace_attribute(text, start, end, width_key, width_value.as_slice()) {
                Some((first, first_end)) => {
                    match replace_attribute(
                        first.as_slice(),
                        start,
                        first_end,
                        height_key,
                        height_value.as_slice(),
                    ) {
                        Some((second, _)) => Some(second),
                        None => Some(first),
                    }
                },
                None => {
                    match replace_attribute(
                        text,
                        start,
                        end,
                        height_key,
                        height_value.as_slice(),
                    ) {
                        Some((second, _)) => Some(second),
                        None => None,
                    }
                },
            }
        },
        None => None,
    }
}

} // verus!
