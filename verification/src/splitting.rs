//! Texts cut into parts.

use crate::text::{same_text, texts};
use vstd::prelude::*;

verus! {

/// Where a text is cut.
#[derive(Clone, Copy)]
pub enum Separator {
    /// Between any two characters of Unicode's white space.
    Blank,
    Colon,
    Comma,
}

/// Whether a character has the property White_Space of Unicode.
pub open spec fn is_blank(c: char) -> bool {
    ||| '\u{9}' <= c <= '\u{d}'
    ||| c == '\u{20}'
    ||| c == '\u{85}'
    ||| c == '\u{a0}'
    ||| c == '\u{1680}'
    ||| '\u{2000}' <= c <= '\u{200a}'
    ||| c == '\u{2028}'
    ||| c == '\u{2029}'
    ||| c == '\u{202f}'
    ||| c == '\u{205f}'
    ||| c == '\u{3000}'
}

impl Separator {
    /// Whether a text is cut at a character.
    pub open spec fn is(self, c: char) -> bool {
        match self {
            Separator::Blank => is_blank(c),
            Separator::Colon => c == ':',
            Separator::Comma => c == ',',
        }
    }

    /// Tells whether a text is cut at a character.
    pub fn matches(self, c: char) -> (r: bool)
        ensures
            r == self.is(c),
    {
        match self {
            Separator::Blank => ('\u{9}' <= c && c <= '\u{d}') || c == '\u{20}' || c == '\u{85}'
                || c == '\u{a0}' || c == '\u{1680}' || ('\u{2000}' <= c && c <= '\u{200a}') || c
                == '\u{2028}' || c == '\u{2029}' || c == '\u{202f}' || c == '\u{205f}' || c
                == '\u{3000}',
            Separator::Colon => c == ':',
            Separator::Comma => c == ',',
        }
    }
}

/// The first place at which a text is cut; its length if there is none.
pub open spec fn first_cut(text: Seq<char>, separator: Separator) -> int
    decreases text.len(),
{
    if text.len() == 0 || separator.is(text[0]) {
        0
    } else {
        1 + first_cut(text.skip(1), separator)
    }
}

/// The parts of a text between the cuts; one more than there are cuts.
pub open spec fn parts(text: Seq<char>, separator: Separator) -> Seq<Seq<char>>
    decreases text.len(),
{
    let cut = first_cut(text, separator);
    if 0 <= cut < text.len() {
        seq![text.take(cut)] + parts(text.skip(cut + 1), separator)
    } else {
        seq![text]
    }
}

/// The parts of a text between the cuts that are not empty.
pub open spec fn pieces(text: Seq<char>, separator: Separator) -> Seq<Seq<char>> {
    parts(text, separator).filter(|part: Seq<char>| part.len() > 0)
}

/// The first cut is the first separator, or the end of the text.
pub proof fn first_cut_is_first(text: Seq<char>, separator: Separator)
    ensures
        0 <= first_cut(text, separator) <= text.len(),
        forall|i: int| 0 <= i < first_cut(text, separator) ==> !separator.is(#[trigger] text[i]),
        first_cut(text, separator) < text.len() ==> separator.is(
            text[first_cut(text, separator)],
        ),
    decreases text.len(),
{
    if text.len() == 0 || separator.is(text[0]) {
    } else {
        first_cut_is_first(text.skip(1), separator);
        let rest = text.skip(1);
        assert forall|i: int| 0 <= i < first_cut(text, separator) implies !separator.is(
            #[trigger] text[i],
        ) by {
            if i > 0 {
                assert(rest[i - 1] == text[i]);
            }
        }
    }
}

/// Finds the first cut of a text from a place on.
fn find_cut(text: &str, from: usize, separator: Separator) -> (r: usize)
    requires
        from <= text@.len(),
        text@.len() <= usize::MAX,
    ensures
        from <= r <= text@.len(),
        r - from == first_cut(text@.skip(from as int), separator),
{
    let len = text.unicode_len();
    let mut at: usize = from;
    assert(text@.skip(from as int).skip(0) =~= text@.skip(from as int));
    while at < len
        invariant_except_break
            from <= at <= len,
            len == text@.len(),
            at - from + first_cut(text@.skip(at as int), separator) == first_cut(
                text@.skip(from as int),
                separator,
            ),
        ensures
            from <= at <= len,
            len == text@.len(),
            at - from == first_cut(text@.skip(from as int), separator),
        decreases len - at,
    {
        let c = text.get_char(at);
        if separator.matches(c) {
            break;
        }
        assert(text@.skip(at as int).skip(1) =~= text@.skip(at + 1));
        at = at + 1;
    }
    at
}

/// Cuts a text into the parts that are not empty.
pub fn cut_into_pieces(text: &str, separator: Separator) -> (r: Vec<String>)
    ensures
        texts(r@) == pieces(text@, separator),
{
    let ghost some = |part: Seq<char>| part.len() > 0;
    let len = text.unicode_len();
    let mut r: Vec<String> = Vec::new();
    let mut from: usize = 0;
    let ghost mut cut: Seq<Seq<char>> = Seq::empty();
    proof {
        reveal(Seq::filter);
    }
    assert(text@.skip(0) =~= text@);
    assert(cut + parts(text@, separator) =~= parts(text@, separator));
    assert(texts(r@) =~= cut.filter(some));
    loop
        invariant
            len == text@.len(),
            from <= len,
            some == (|part: Seq<char>| part.len() > 0),
            cut + parts(text@.skip(from as int), separator) == parts(text@, separator),
            texts(r@) == cut.filter(some),
        decreases len - from,
    {
        let rest = Ghost(text@.skip(from as int));
        let to = find_cut(text, from, separator);
        let part = text.substring_char(from, to);
        assert(part@ =~= rest@.take(to - from));
        let ghost before = cut;
        proof {
            cut = cut.push(part@);
            reveal(Seq::filter);
            assert(cut.drop_last() =~= before);
        }
        if from < to {
            r.push(part.to_owned());
        }
        assert(texts(r@) =~= cut.filter(some));
        if to == len {
            proof {
                assert(part@ =~= rest@);
                assert(parts(rest@, separator) == seq![rest@]);
                assert(cut =~= before + parts(rest@, separator));
            }
            return r;
        }
        proof {
            assert(rest@.skip(to - from + 1) =~= text@.skip(to + 1));
            assert(before + parts(rest@, separator) =~= cut + parts(text@.skip(to + 1), separator));
        }
        from = to + 1;
    }
}

/// Cuts a text in two at the first cut, which belongs to neither half; none if
/// there is no cut.
pub fn cut_in_two(text: &str, separator: Separator) -> (r: Option<(String, String)>)
    ensures
        match r {
            Some((head, tail)) => {
                let cut = first_cut(text@, separator);
                &&& cut < text@.len()
                &&& head@ == text@.take(cut)
                &&& tail@ == text@.skip(cut + 1)
            },
            None => first_cut(text@, separator) == text@.len(),
        },
{
    let len = text.unicode_len();
    assert(text@.skip(0) =~= text@);
    let cut = find_cut(text, 0, separator);
    if cut == len {
        None
    } else {
        let head = text.substring_char(0, cut).to_owned();
        let tail = text.substring_char(cut + 1, len).to_owned();
        assert(head@ =~= text@.take(cut as int));
        assert(tail@ =~= text@.skip(cut + 1));
        Some((head, tail))
    }
}

/// Whether a text holds another at a place.
pub open spec fn holds_at(text: Seq<char>, part: Seq<char>, place: int) -> bool {
    0 <= place && place + part.len() <= text.len() && text.subrange(place, place + part.len())
        == part
}

/// Whether a text holds another anywhere.
pub open spec fn holds(text: Seq<char>, part: Seq<char>) -> bool {
    exists|place: int| #[trigger] holds_at(text, part, place)
}

/// Tells whether a text holds another anywhere.
pub fn has_part(text: &str, part: &str) -> (r: bool)
    ensures
        r == holds(text@, part@),
{
    let len = text.unicode_len();
    let width = part.unicode_len();
    if width > len {
        return false;
    }
    let mut place: usize = 0;
    while place <= len - width
        invariant
            len == text@.len(),
            width == part@.len(),
            width <= len,
            place <= len - width + 1,
            forall|p: int| 0 <= p < place ==> !#[trigger] holds_at(text@, part@, p),
        decreases len - place,
    {
        if same_text(text.substring_char(place, place + width), part) {
            assert(holds_at(text@, part@, place as int));
            return true;
        }
        assert(!holds_at(text@, part@, place as int));
        if place == len - width {
            return false;
        }
        place = place + 1;
    }
    false
}

} // verus!
