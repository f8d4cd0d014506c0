//! Finding things in the text of a frame.
//!
//! A frame is read by looking for the keys it needs and taking the value
//! that follows each; the text is not parsed as a whole. The service writes
//! its frames without white space, and so a value begins right after the
//! colon of its key.

use vstd::prelude::*;
use crate::text::decimal;
use crate::text::digit;

verus! {

/// Whether `needle` stands in `hay` at the position `at`.
pub open spec fn matches_at(hay: Seq<u8>, needle: Seq<u8>, at: int) -> bool {
    &&& 0 <= at
    &&& at + needle.len() <= hay.len()
    &&& hay.subrange(at, at + needle.len()) == needle
}

/// The first position at or after `from` at which `needle` stands in `hay`.
pub open spec fn first_match(hay: Seq<u8>, needle: Seq<u8>, from: int) -> Option<int>
    decreases hay.len() - from + 1,
{
    if from < 0 || from + needle.len() > hay.len() {
        None
    } else if matches_at(hay, needle, from) {
        Some(from)
    } else {
        first_match(hay, needle, from + 1)
    }
}

/// Whether a byte is an ASCII digit.
pub open spec fn is_digit(b: u8) -> bool {
    0x30 <= b <= 0x39
}

/// The length of the run of digits that begins at `from`.
pub open spec fn digits_len(text: Seq<u8>, from: int) -> nat
    decreases text.len() - from,
{
    if 0 <= from < text.len() && is_digit(text[from]) {
        1 + digits_len(text, from + 1)
    } else {
        0
    }
}

/// The number that a run of digits writes in decimal.
pub open spec fn digits_value(digits: Seq<u8>) -> nat
    decreases digits.len(),
{
    if digits.len() == 0 {
        0
    } else {
        digits_value(digits.drop_last()) * 10 + (digits.last() - 0x30) as nat
    }
}

/// The number written at `from`: the value of the run of digits that begins
/// there. There is none where no digit stands at `from`, or where the value
/// is too great for 64 bits.
pub open spec fn number_at(text: Seq<u8>, from: int) -> Option<u64> {
    let len = digits_len(text, from);
    let value = digits_value(text.subrange(from, from + len));
    if len == 0 || value > u64::MAX {
        None
    } else {
        Some(value as u64)
    }
}

/// The length of the text that begins at `from` and ends before the next
/// double quote. There is none where no double quote follows, or where a
/// backslash comes before it: the texts that a frame is searched for hold no
/// escapes.
pub open spec fn quoted_len(text: Seq<u8>, from: int) -> Option<nat>
    decreases text.len() - from,
{
    if from < 0 || from >= text.len() || text[from] == 0x5c {
        None
    } else if text[from] == 0x22 {
        Some(0)
    } else {
        match quoted_len(text, from + 1) {
            Some(len) => Some(len + 1),
            None => None,
        }
    }
}

/// The text that begins at `from` and ends before the next double quote.
pub open spec fn quoted_at(text: Seq<u8>, from: int) -> Option<Seq<u8>> {
    match quoted_len(text, from) {
        Some(len) => Some(text.subrange(from, from + len)),
        None => None,
    }
}

/// Where a search finds `needle`, it stands there and nowhere before, from
/// `from` on; where a search finds nothing, it stands nowhere from `from` on.
pub proof fn lemma_first_match(hay: Seq<u8>, needle: Seq<u8>, from: int)
    requires
        0 <= from,
    ensures
        match first_match(hay, needle, from) {
            Some(at) => from <= at && matches_at(hay, needle, at) && forall|k: int|
                from <= k < at ==> !matches_at(hay, needle, k),
            None => forall|k: int| from <= k ==> !matches_at(hay, needle, k),
        },
    decreases hay.len() - from + 1,
{
    if from + needle.len() > hay.len() {
    } else if matches_at(hay, needle, from) {
    } else {
        lemma_first_match(hay, needle, from + 1);
    }
}

/// A search that begins at or before a place where `needle` stands, with no
/// earlier place between, finds that place.
pub proof fn lemma_first_match_is(hay: Seq<u8>, needle: Seq<u8>, from: int, at: int)
    requires
        0 <= from <= at,
        matches_at(hay, needle, at),
        forall|k: int| from <= k < at ==> !matches_at(hay, needle, k),
    ensures
        first_match(hay, needle, from) == Some(at),
    decreases at - from,
{
    if from < at {
        lemma_first_match_is(hay, needle, from + 1, at);
    }
}

/// A run of digits ends where the text ends or a byte follows that is no
/// digit, and holds digits only.
pub proof fn lemma_digits_len(text: Seq<u8>, from: int)
    requires
        0 <= from,
    ensures
        from + digits_len(text, from) <= text.len() || digits_len(text, from) == 0,
        forall|i: int|
            from <= i < from + digits_len(text, from) ==> 0 <= i < text.len() && is_digit(
                #[trigger] text[i],
            ),
        from + digits_len(text, from) < text.len() ==> !is_digit(
            text[from + digits_len(text, from)],
        ),
    decreases text.len() - from,
{
    if from < text.len() && is_digit(text[from]) {
        lemma_digits_len(text, from + 1);
    }
}

/// A run of digits that is followed by the end of the text, or by a byte
/// that is no digit, is the whole run that begins where it begins.
pub proof fn lemma_digits_len_is(text: Seq<u8>, from: int, len: nat)
    requires
        0 <= from,
        from + len <= text.len(),
        forall|i: int| from <= i < from + len ==> is_digit(#[trigger] text[i]),
        from + len < text.len() ==> !is_digit(text[from + len]),
    ensures
        digits_len(text, from) == len,
    decreases len,
{
    if len > 0 {
        lemma_digits_len_is(text, from + 1, (len - 1) as nat);
    }
}

/// What is written in decimal reads as the number that was written: the
/// text of a number holds digits only, at least one, and has the number as
/// its value.
pub proof fn lemma_decimal_reads_back(n: nat)
    ensures
        decimal(n).len() >= 1,
        forall|i: int| 0 <= i < decimal(n).len() ==> is_digit(#[trigger] decimal(n)[i]),
        digits_value(decimal(n)) == n,
    decreases n,
{
    if n < 10 {
        let text = decimal(n);
        assert(text.drop_last().len() == 0);
        assert(digits_value(text.drop_last()) == 0);
    } else {
        lemma_decimal_reads_back(n / 10);
        let text = decimal(n);
        assert(text.drop_last() =~= decimal(n / 10));
        assert(text.last() == digit(n % 10));
    }
}

/// A number written in decimal into a text, and followed there by the end
/// of the text or by a byte that is no digit, is the number read at that
/// place.
pub proof fn lemma_number_at_decimal(text: Seq<u8>, from: int, n: u64)
    requires
        0 <= from,
        from + decimal(n as nat).len() <= text.len(),
        text.subrange(from, from + decimal(n as nat).len()) == decimal(n as nat),
        from + decimal(n as nat).len() < text.len() ==> !is_digit(
            text[from + decimal(n as nat).len()],
        ),
    ensures
        digits_len(text, from) == decimal(n as nat).len(),
        number_at(text, from) == Some(n),
{
    let written = decimal(n as nat);
    lemma_decimal_reads_back(n as nat);
    assert forall|i: int| from <= i < from + written.len() implies is_digit(
        #[trigger] text[i],
    ) by {
        assert(text[i] == text.subrange(from, from + written.len())[i - from]);
    }
    lemma_digits_len_is(text, from, written.len());
}

/// Whether `needle` stands in `hay` at `at`.
pub(crate) fn stands_at(hay: &[u8], needle: &[u8], at: usize) -> (found: bool)
    ensures
        found == matches_at(hay@, needle@, at as int),
{
    if needle.len() > hay.len() || at > hay.len() - needle.len() {
        return false;
    }
    let mut k: usize = 0;
    while k < needle.len()
        invariant
            k <= needle.len(),
            at + needle.len() <= hay.len(),
            forall|j: int| 0 <= j < k ==> hay@[at + j] == needle@[j],
        decreases needle.len() - k,
    {
        if hay[at + k] != needle[k] {
            proof {
                let part = hay@.subrange(at as int, at + needle.len());
                assert(part[k as int] == hay@[at + k]);
            }
            return false;
        }
        k += 1;
    }
    assert(hay@.subrange(at as int, at + needle.len()) =~= needle@);
    true
}

/// The first position at or after `from` at which `needle` stands in the
/// first `until` bytes of `hay`.
pub(crate) fn find(hay: &[u8], needle: &[u8], from: usize, until: usize) -> (found: Option<usize>)
    requires
        until <= hay.len(),
    ensures
        match found {
            Some(at) => first_match(hay@.take(until as int), needle@, from as int) == Some(
                at as int,
            ) && at + needle.len() <= until,
            None => first_match(hay@.take(until as int), needle@, from as int) is None,
        },
{
    let ghost head = hay@.take(until as int);
    if needle.len() > until {
        return None;
    }
    let last: usize = until - needle.len();
    let mut at: usize = from;
    while at <= last
        invariant
            from <= at,
            until <= hay.len(),
            last == until - needle.len(),
            head == hay@.take(until as int),
            first_match(head, needle@, from as int) == first_match(head, needle@, at as int),
        decreases last + 1 - at,
    {
        let here: bool = stands_at(hay, needle, at);
        proof {
            assert(head.subrange(at as int, at + needle.len()) =~= hay@.subrange(
                at as int,
                at + needle.len(),
            ));
        }
        if here {
            return Some(at);
        }
        if at == last {
            assert(first_match(head, needle@, at + 1) is None);
            return None;
        }
        at += 1;
    }
    None
}

/// The number written at `from`, and where the run of its digits ends.
pub(crate) fn number(text: &[u8], from: usize) -> (found: (Option<u64>, usize))
    ensures
        found.0 == number_at(text@, from as int),
        found.1 == from + digits_len(text@, from as int),
{
    proof {
        lemma_digits_len(text@, from as int);
    }
    if from >= text.len() {
        return (None, from);
    }
    let ghost len = digits_len(text@, from as int);
    let ghost run = text@.subrange(from as int, from + len);
    let mut value: Option<u64> = Some(0);
    let mut i: usize = from;
    while i < text.len() && text[i] >= 0x30 && text[i] <= 0x39
        invariant
            from <= i <= from + len,
            from + len <= text.len(),
            len == digits_len(text@, from as int),
            run == text@.subrange(from as int, from + len),
            forall|j: int| 0 <= j < run.len() ==> is_digit(#[trigger] run[j]),
            i < from + len ==> is_digit(text@[i as int]),
            from + len < text.len() ==> !is_digit(text@[from + len]),
            match value {
                Some(v) => v == digits_value(run.take(i - from)),
                None => digits_value(run.take(i - from)) > u64::MAX,
            },
        decreases text.len() - i,
    {
        let d: u64 = (text[i] - 0x30) as u64;
        proof {
            let longer = run.take(i + 1 - from);
            assert(longer.drop_last() =~= run.take(i - from));
            assert(longer.last() == text@[i as int]);
            assert(digits_value(longer) == digits_value(run.take(i - from)) * 10 + d);
        }
        value = match value {
            Some(v) => match v.checked_mul(10) {
                Some(tens) => tens.checked_add(d),
                None => None,
            },
            None => None,
        };
        i += 1;
        proof {
            if i < from + len {
                assert(run[i - from] == text@[i as int]);
            }
        }
    }
    proof {
        assert(i == from + len);
        assert(run.take(len as int) =~= run);
    }
    if i == from {
        (None, i)
    } else {
        (value, i)
    }
}

/// The text that begins at `from` and ends before the next double quote.
pub(crate) fn quoted(text: &[u8], from: usize) -> (found: Option<Vec<u8>>)
    ensures
        match found {
            Some(inner) => quoted_at(text@, from as int) == Some(inner@),
            None => quoted_at(text@, from as int) is None,
        },
{
    let mut inner: Vec<u8> = Vec::new();
    let mut i: usize = from;
    while i < text.len() && text[i] != 0x22 && text[i] != 0x5c
        invariant
            from <= i,
            inner@.len() == i - from,
            i <= text.len() ==> inner@ == text@.subrange(from as int, i as int),
            match quoted_len(text@, i as int) {
                Some(len) => quoted_len(text@, from as int) == Some((len + (i - from)) as nat),
                None => quoted_len(text@, from as int) is None,
            },
        decreases text.len() - i,
    {
        inner.push(text[i]);
        assert(inner@ =~= text@.subrange(from as int, i + 1));
        i += 1;
    }
    if i < text.len() && text[i] == 0x22 {
        Some(inner)
    } else {
        None
    }
}

} // verus!
