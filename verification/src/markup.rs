//! Reading the root tag of a vector document.
//!
//! Only as much of the markup is understood as it takes to find the declared
//! size of the drawing: the first `<svg` tag, in any letter case, up to the
//! first `>` behind it, and in between the quoted values of attributes such
//! as ` width="512px"`. Everything is a function on bytes; positions count
//! bytes from the start of the text that is searched.

use vstd::prelude::*;

use crate::text::ascii_lower;

verus! {

/// Whether `b` is a blank: a space, a tab, a line feed, a vertical tab, a
/// form feed or a carriage return.
pub open spec fn is_space(b: u8) -> bool {
    b == 0x20 || (0x09 <= b && b <= 0x0d)
}

/// Whether `word`, written in lower case, stands at position `at` of `text`
/// in any letter case.
pub open spec fn word_at(text: Seq<u8>, at: int, word: Seq<u8>) -> bool {
    &&& 0 <= at
    &&& at + word.len() <= text.len()
    &&& forall|k: int| 0 <= k < word.len() ==> ascii_lower(text[at + k]) == #[trigger] word[k]
}

/// The first position at or behind `from` where `word` stands.
pub open spec fn find_word(text: Seq<u8>, from: int, word: Seq<u8>) -> Option<int>
    decreases text.len() - from,
{
    if from < 0 || from + word.len() > text.len() {
        None
    } else if word_at(text, from, word) {
        Some(from)
    } else {
        find_word(text, from + 1, word)
    }
}

/// The first position at or behind `from` that holds the byte `b`.
pub open spec fn find_byte(text: Seq<u8>, from: int, b: u8) -> Option<int>
    decreases text.len() - from,
{
    if from < 0 || from >= text.len() {
        None
    } else if text[from] == b {
        Some(from)
    } else {
        find_byte(text, from + 1, b)
    }
}

/// The first position at or behind `from` that holds no blank, or the length
/// of the text where only blanks follow.
pub open spec fn skip_spaces(text: Seq<u8>, from: int) -> int
    decreases text.len() - from,
{
    if 0 <= from < text.len() && is_space(text[from]) {
        skip_spaces(text, from + 1)
    } else {
        from
    }
}

/// Where the value of the attribute `name` begins, if the attribute opens at
/// position `at`: a blank, the name in any letter case, an equals sign and a
/// double quote, with blanks allowed around the equals sign. The value
/// begins behind the quote.
pub open spec fn value_start_at(text: Seq<u8>, at: int, name: Seq<u8>) -> Option<int> {
    if 0 <= at < text.len() && is_space(text[at]) && word_at(text, at + 1, name) {
        let equals = skip_spaces(text, at + 1 + name.len());
        if equals < text.len() && text[equals] == 0x3d {
            let quote = skip_spaces(text, equals + 1);
            if quote < text.len() && text[quote] == 0x22 {
                Some(quote + 1)
            } else {
                None
            }
        } else {
            None
        }
    } else {
        None
    }
}

/// Where the value begins of the first attribute `name` that opens at or
/// behind `from`.
pub open spec fn find_value_start(text: Seq<u8>, from: int, name: Seq<u8>) -> Option<int>
    decreases text.len() - from,
{
    if from < 0 || from >= text.len() {
        None
    } else {
        match value_start_at(text, from, name) {
            Some(start) => Some(start),
            None => find_value_start(text, from + 1, name),
        }
    }
}

/// The value of the first attribute `name` in `text`, as the positions of
/// its first byte and of its closing quote. There is none where no such
/// attribute opens, or where the first one that opens is never closed.
pub open spec fn attribute_value(text: Seq<u8>, name: Seq<u8>) -> Option<(int, int)> {
    match find_value_start(text, 0, name) {
        Some(start) => match find_byte(text, start, 0x22) {
            Some(end) => Some((start, end)),
            None => None,
        },
        None => None,
    }
}

/// The opening of the root tag, in lower case: `<svg`.
pub open spec fn root_tag() -> Seq<u8> {
    seq![0x3c, 0x73, 0x76, 0x67]
}

/// The inside of the root tag: from behind the first `<svg` to the first `>`
/// that follows it. There is none where the text holds no `<svg`, or no `>`
/// behind the first one.
pub open spec fn root_span(text: Seq<u8>) -> Option<(int, int)> {
    match find_word(text, 0, root_tag()) {
        Some(open) => match find_byte(text, open + 4, 0x3e) {
            Some(close) => Some((open + 4, close)),
            None => None,
        },
        None => None,
    }
}

/// What `find_word` finds is the first place where the word stands.
pub proof fn lemma_find_word_is_first(text: Seq<u8>, from: int, word: Seq<u8>)
    requires
        0 <= from,
    ensures
        match find_word(text, from, word) {
            Some(at) => {
                &&& from <= at
                &&& word_at(text, at, word)
                &&& forall|i: int| from <= i < at ==> !word_at(text, i, word)
            },
            None => forall|i: int| from <= i ==> !word_at(text, i, word),
        },
    decreases text.len() - from,
{
    if from + word.len() > text.len() {
    } else if word_at(text, from, word) {
    } else {
        lemma_find_word_is_first(text, from + 1, word);
    }
}

/// What `find_byte` finds is the first place that holds the byte.
pub proof fn lemma_find_byte_is_first(text: Seq<u8>, from: int, b: u8)
    requires
        0 <= from,
    ensures
        match find_byte(text, from, b) {
            Some(at) => {
                &&& from <= at < text.len()
                &&& text[at] == b
                &&& forall|i: int| from <= i < at ==> text[i] != b
            },
            None => forall|i: int| from <= i < text.len() ==> text[i] != b,
        },
    decreases text.len() - from,
{
    if from >= text.len() {
    } else if text[from] == b {
    } else {
        lemma_find_byte_is_first(text, from + 1, b);
    }
}

/// `skip_spaces` stops behind a run of blanks, at a byte that is none.
pub proof fn lemma_skip_spaces_stops(text: Seq<u8>, from: int)
    requires
        0 <= from <= text.len(),
    ensures
        from <= skip_spaces(text, from) <= text.len(),
        forall|i: int| from <= i < skip_spaces(text, from) ==> is_space(text[i]),
        skip_spaces(text, from) < text.len() ==> !is_space(text[skip_spaces(text, from)]),
    decreases text.len() - from,
{
    if from < text.len() && is_space(text[from]) {
        lemma_skip_spaces_stops(text, from + 1);
    }
}

/// The value of an attribute lies inside the text, between two double
/// quotes, and holds no double quote itself.
pub proof fn lemma_attribute_value_is_quoted(text: Seq<u8>, name: Seq<u8>)
    ensures
        attribute_value(text, name) matches Some((start, end)) ==> {
            &&& 0 < start <= end < text.len()
            &&& text[start - 1] == 0x22
            &&& text[end] == 0x22
            &&& forall|i: int| start <= i < end ==> text[i] != 0x22
        },
{
    if let Some(start) = find_value_start(text, 0, name) {
        lemma_value_start_follows_quote(text, 0, name);
        lemma_find_byte_is_first(text, start, 0x22);
    }
}

/// Where a value begins, a double quote stands just before.
pub proof fn lemma_value_start_follows_quote(text: Seq<u8>, from: int, name: Seq<u8>)
    requires
        0 <= from,
    ensures
        find_value_start(text, from, name) matches Some(start) ==> {
            &&& from < start <= text.len()
            &&& text[start - 1] == 0x22
        },
    decreases text.len() - from,
{
    if from >= text.len() {
    } else {
        match value_start_at(text, from, name) {
            Some(start) => {
                lemma_skip_spaces_stops(text, from + 1 + name.len());
                let equals = skip_spaces(text, from + 1 + name.len());
                lemma_skip_spaces_stops(text, equals + 1);
            },
            None => {
                lemma_value_start_follows_quote(text, from + 1, name);
            },
        }
    }
}

/// The inside of the root tag lies inside the text, behind `<svg` and before
/// a `>`, and holds no `>` itself.
pub proof fn lemma_root_span_is_delimited(text: Seq<u8>)
    ensures
        root_span(text) matches Some((start, end)) ==> {
            &&& 4 <= start <= end < text.len()
            &&& word_at(text, start - 4, root_tag())
            &&& text[end] == 0x3e
            &&& forall|i: int| start <= i < end ==> text[i] != 0x3e
        },
{
    lemma_find_word_is_first(text, 0, root_tag());
    if let Some(open) = find_word(text, 0, root_tag()) {
        lemma_find_byte_is_first(text, open + 4, 0x3e);
    }
}

/// Whether two texts hold the same bytes before position `upto`.
pub open spec fn same_before(text: Seq<u8>, other: Seq<u8>, upto: int) -> bool {
    &&& upto <= text.len()
    &&& upto <= other.len()
    &&& forall|i: int| 0 <= i < upto ==> text[i] == other[i]
}

/// Whether `name` holds no double quote.
pub open spec fn is_unquoted(name: Seq<u8>) -> bool {
    forall|k: int| 0 <= k < name.len() ==> #[trigger] name[k] != 0x22
}

/// Where `skip_spaces` stops depends only on the text up to that place.
pub proof fn lemma_skip_spaces_reads_before(text: Seq<u8>, other: Seq<u8>, from: int, upto: int)
    requires
        0 <= from,
        same_before(text, other, upto),
        skip_spaces(text, from) < upto,
    ensures
        skip_spaces(other, from) == skip_spaces(text, from),
    decreases text.len() - from,
{
    if from < text.len() {
        lemma_skip_spaces_stops(text, from);
        if is_space(text[from]) {
            lemma_skip_spaces_reads_before(text, other, from + 1, upto);
        }
    }
}

/// An attribute that opens in one text opens in every text that holds the
/// same bytes up to where its value begins.
pub proof fn lemma_value_start_reads_before(
    text: Seq<u8>,
    other: Seq<u8>,
    at: int,
    name: Seq<u8>,
    upto: int,
)
    requires
        same_before(text, other, upto),
        value_start_at(text, at, name) matches Some(start) && start <= upto,
    ensures
        value_start_at(other, at, name) == value_start_at(text, at, name),
{
    let after_name = at + 1 + name.len();
    lemma_skip_spaces_stops(text, after_name);
    let equals = skip_spaces(text, after_name);
    lemma_skip_spaces_stops(text, equals + 1);
    let quote = skip_spaces(text, equals + 1);
    lemma_skip_spaces_reads_before(text, other, after_name, upto);
    lemma_skip_spaces_reads_before(text, other, equals + 1, upto);
    assert(word_at(other, at + 1, name)) by {
        assert forall|k: int| 0 <= k < name.len() implies ascii_lower(other[at + 1 + k])
            == #[trigger] name[k] by {
            assert(text[at + 1 + k] == other[at + 1 + k]);
        }
    }
}

/// In front of the opening quote of an attribute value no other attribute
/// of that name opens in any text that holds the same bytes up to the
/// quote, unless it opens in this text as well.
pub proof fn lemma_no_value_start_across_quote(
    text: Seq<u8>,
    other: Seq<u8>,
    at: int,
    name: Seq<u8>,
    upto: int,
)
    requires
        is_unquoted(name),
        same_before(text, other, upto),
        0 <= at < upto - 1,
        text[upto - 1] == 0x22,
        value_start_at(text, at, name) is None,
    ensures
        value_start_at(other, at, name) is None,
{
    if let Some(start) = value_start_at(other, at, name) {
        if start <= upto {
            lemma_value_start_reads_before(other, text, at, name, upto);
        } else {
            // The quote at `upto - 1` would lie inside the opening of the attribute,
            // where only the name, blanks and the equals sign can stand.
            let after_name = at + 1 + name.len();
            lemma_skip_spaces_stops(other, after_name);
            let equals = skip_spaces(other, after_name);
            lemma_skip_spaces_stops(other, equals + 1);
            let inside = upto - 1;
            assert(other[inside] == 0x22);
            if inside < after_name {
                let k = inside - at - 1;
                assert(ascii_lower(other[at + 1 + k]) == name[k]);
            }
        }
    }
}

/// The first attribute of a text stays the first one in every text that
/// holds the same bytes up to where its value begins.
pub proof fn lemma_find_value_start_reads_before(
    text: Seq<u8>,
    other: Seq<u8>,
    from: int,
    name: Seq<u8>,
)
    requires
        0 <= from,
        is_unquoted(name),
        find_value_start(text, from, name) matches Some(start) && same_before(text, other, start),
    ensures
        find_value_start(other, from, name) == find_value_start(text, from, name),
    decreases text.len() - from,
{
    let start = find_value_start(text, from, name).unwrap();
    lemma_value_start_follows_quote(text, from, name);
    match value_start_at(text, from, name) {
        Some(here) => {
            lemma_value_start_reads_before(text, other, from, name, start);
        },
        None => {
            lemma_value_start_follows_quote(text, from + 1, name);
            lemma_no_value_start_across_quote(text, other, from, name, start);
            lemma_find_value_start_reads_before(text, other, from + 1, name);
        },
    }
}

/// What `find_value_start` finds is the beginning of the value of the
/// first attribute that opens at or behind `from`; it finds nothing only
/// where none opens.
pub proof fn lemma_find_value_start_opens(text: Seq<u8>, from: int, name: Seq<u8>)
    requires
        0 <= from,
    ensures
        match find_value_start(text, from, name) {
            Some(start) => exists|at: int|
                {
                    &&& from <= at < text.len()
                    &&& #[trigger] value_start_at(text, at, name) == Some(start)
                    &&& forall|before: int|
                        from <= before < at ==> value_start_at(text, before, name) is None
                },
            None => forall|at: int| from <= at ==> value_start_at(text, at, name) is None,
        },
    decreases text.len() - from,
{
    if from < text.len() {
        match value_start_at(text, from, name) {
            Some(start) => {},
            None => {
                lemma_find_value_start_opens(text, from + 1, name);
                if let Some(start) = find_value_start(text, from + 1, name) {
                    let at = choose|at: int|
                        {
                            &&& from + 1 <= at < text.len()
                            &&& #[trigger] value_start_at(text, at, name) == Some(start)
                            &&& forall|before: int|
                                from + 1 <= before < at ==> value_start_at(text, before, name)
                                    is None
                        };
                    assert(forall|before: int|
                        from <= before < at ==> value_start_at(text, before, name) is None);
                }
            },
        }
    }
}

/// Two names that end in different letters do not open the same value: the
/// letter in front of the equals sign tells them apart.
pub proof fn lemma_one_value_has_one_name(
    text: Seq<u8>,
    at: int,
    name: Seq<u8>,
    other_at: int,
    other_name: Seq<u8>,
)
    requires
        name.len() > 0,
        other_name.len() > 0,
        !is_space(name.last()),
        !is_space(other_name.last()),
        name.last() != other_name.last(),
        value_start_at(text, at, name) is Some,
    ensures
        value_start_at(text, other_at, other_name) != value_start_at(text, at, name),
{
    if value_start_at(text, other_at, other_name) == value_start_at(text, at, name) {
        let after = at + 1 + name.len();
        lemma_skip_spaces_stops(text, after);
        let equals = skip_spaces(text, after);
        lemma_skip_spaces_stops(text, equals + 1);
        let other_after = other_at + 1 + other_name.len();
        lemma_skip_spaces_stops(text, other_after);
        let other_equals = skip_spaces(text, other_after);
        lemma_skip_spaces_stops(text, other_equals + 1);
        assert(equals == other_equals);
        let last = after - 1;
        let other_last = other_after - 1;
        assert(ascii_lower(text[at + 1 + (name.len() - 1)]) == name[name.len() - 1]);
        assert(ascii_lower(text[other_at + 1 + (other_name.len() - 1)])
            == other_name[other_name.len() - 1]);
        assert(!is_space(text[last]));
        assert(!is_space(text[other_last]));
        assert(last == other_last);
    }
}

fn is_space_byte(b: u8) -> (blank: bool)
    ensures
        blank == is_space(b),
{
    b == 0x20 || (0x09 <= b && b <= 0x0d)
}

fn lower_byte(b: u8) -> (lower: u8)
    ensures
        lower == ascii_lower(b),
{
    if 0x41 <= b && b <= 0x5a {
        b + 0x20
    } else {
        b
    }
}

fn word_stands_at(text: &[u8], at: usize, word: &[u8]) -> (stands: bool)
    ensures
        stands == word_at(text@, at as int, word@),
{
    if word.len() > text.len() || at > text.len() - word.len() {
        return false;
    }
    let mut k: usize = 0;
    while k < word.len()
        invariant
            k <= word.len(),
            at + word.len() <= text.len(),
            forall|j: int| 0 <= j < k ==> ascii_lower(text@[at + j]) == #[trigger] word@[j],
        decreases word.len() - k,
    {
        if lower_byte(text[at + k]) != word[k] {
            return false;
        }
        k = k + 1;
    }
    true
}

fn find_word_from(text: &[u8], from: usize, word: &[u8]) -> (found: Option<usize>)
    ensures
        match found {
            Some(at) => find_word(text@, from as int, word@) == Some(at as int),
            None => find_word(text@, from as int, word@) is None,
        },
        found matches Some(at) ==> at + word.len() <= text.len(),
{
    if word.len() > text.len() {
        return None;
    }
    let last: usize = text.len() - word.len();
    let mut at: usize = from;
    while at <= last
        invariant
            last == text.len() - word.len(),
            from <= at,
            find_word(text@, from as int, word@) == find_word(text@, at as int, word@),
        decreases text.len() - at,
    {
        if word_stands_at(text, at, word) {
            return Some(at);
        }
        at = at + 1;
    }
    None
}

fn find_byte_from(text: &[u8], from: usize, b: u8) -> (found: Option<usize>)
    ensures
        match found {
            Some(at) => find_byte(text@, from as int, b) == Some(at as int),
            None => find_byte(text@, from as int, b) is None,
        },
{
    let mut at: usize = from;
    while at < text.len()
        invariant
            from <= at,
            find_byte(text@, from as int, b) == find_byte(text@, at as int, b),
        decreases text.len() - at,
    {
        if text[at] == b {
            return Some(at);
        }
        at = at + 1;
    }
    None
}

fn skip_spaces_from(text: &[u8], from: usize) -> (stop: usize)
    requires
        from <= text.len(),
    ensures
        stop == skip_spaces(text@, from as int),
        from <= stop <= text.len(),
{
    let mut at: usize = from;
    while at < text.len() && is_space_byte(text[at])
        invariant
            from <= at <= text.len(),
            skip_spaces(text@, from as int) == skip_spaces(text@, at as int),
        decreases text.len() - at,
    {
        at = at + 1;
    }
    at
}

fn value_start(text: &[u8], at: usize, name: &[u8]) -> (found: Option<usize>)
    requires
        at < text.len(),
    ensures
        match found {
            Some(start) => value_start_at(text@, at as int, name@) == Some(start as int),
            None => value_start_at(text@, at as int, name@) is None,
        },
{
    if !is_space_byte(text[at]) || !word_stands_at(text, at + 1, name) {
        return None;
    }
    let equals: usize = skip_spaces_from(text, at + 1 + name.len());
    if equals >= text.len() || text[equals] != 0x3d {
        return None;
    }
    let quote: usize = skip_spaces_from(text, equals + 1);
    if quote >= text.len() || text[quote] != 0x22 {
        return None;
    }
    Some(quote + 1)
}

/// The value of the first attribute `name` in `text`: the positions of its
/// first byte and of its closing quote. `name` is written in lower case and
/// found in any letter case.
pub fn find_attribute_value(text: &[u8], name: &[u8]) -> (found: Option<(usize, usize)>)
    ensures
        match found {
            Some((start, end)) => attribute_value(text@, name@) == Some((start as int, end as int)),
            None => attribute_value(text@, name@) is None,
        },
        found matches Some((start, end)) ==> 0 < start <= end < text.len(),
{
    let mut at: usize = 0;
    while at < text.len()
        invariant
            find_value_start(text@, 0, name@) == find_value_start(text@, at as int, name@),
        decreases text.len() - at,
    {
        match value_start(text, at, name) {
            Some(start) => {
                proof {
                    lemma_attribute_value_is_quoted(text@, name@);
                }
                return match find_byte_from(text, start, 0x22) {
                    Some(end) => Some((start, end)),
                    None => None,
                };
            },
            None => {},
        }
        at = at + 1;
    }
    None
}

/// The inside of the root tag of `text`: the positions behind the first
/// `<svg` and of the first `>` that follows it.
pub fn find_root_span(text: &[u8]) -> (found: Option<(usize, usize)>)
    ensures
        match found {
            Some((start, end)) => root_span(text@) == Some((start as int, end as int)),
            None => root_span(text@) is None,
        },
        found matches Some((start, end)) ==> 4 <= start <= end < text.len(),
{
    proof {
        lemma_root_span_is_delimited(text@);
    }
    let tag: [u8; 4] = [0x3c, 0x73, 0x76, 0x67];
    let word: &[u8] = tag.as_slice();
    assert(word@ =~= root_tag());
    match find_word_from(text, 0, word) {
        Some(open) => {
            match find_byte_from(text, open + 4, 0x3e) {
                Some(close) => Some((open + 4, close)),
                None => None,
            }
        },
        None => None,
    }
}

} // verus!
