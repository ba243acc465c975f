//! Patterns as the search for usernames reads them: `%` stands for any run of
//! characters, `_` for any one character, and a backslash takes the
//! character behind it literally.

use vstd::prelude::*;
use vstd::string::*;

verus! {

/// One unit of a pattern.
#[derive(Clone, Copy, Debug, PartialEq, Eq, Structural)]
pub enum Glyph {
    /// Any run of characters, the empty one too.
    Any,
    /// Any one character.
    One,
    /// The given character.
    Exactly(char),
}

/// The units that a pattern is made of, read from a place in it that
/// stands behind a backslash (`escaped`) or does not. A backslash at the very
/// end, with nothing behind it to take literally, stands for itself.
pub open spec fn glyphs_after(pattern: Seq<char>, escaped: bool) -> Seq<Glyph>
    decreases pattern.len(),
{
    if pattern.len() == 0 {
        unit_of('\\', escaped)
    } else {
        unit_of(pattern[0], escaped) + glyphs_after(
            pattern.skip(1),
            !escaped && pattern[0] == '\\',
        )
    }
}

/// The unit that one character of a pattern stands for, if it stands for
/// one: a character behind a backslash stands for itself, and a backslash
/// that is not behind one stands for nothing by itself.
pub open spec fn unit_of(c: char, escaped: bool) -> Seq<Glyph> {
    if escaped {
        Seq::empty().push(Glyph::Exactly(c))
    } else if c == '\\' {
        Seq::empty()
    } else if c == '%' {
        Seq::empty().push(Glyph::Any)
    } else if c == '_' {
        Seq::empty().push(Glyph::One)
    } else {
        Seq::empty().push(Glyph::Exactly(c))
    }
}

/// The units that a pattern is made of.
pub open spec fn glyphs(pattern: Seq<char>) -> Seq<Glyph> {
    glyphs_after(pattern, false)
}

/// Whether a text, taken whole, is of the form that the units describe.
pub open spec fn is_like(units: Seq<Glyph>, text: Seq<char>) -> bool
    decreases units.len(), text.len(),
{
    if units.len() == 0 {
        text.len() == 0
    } else {
        match units[0] {
            Glyph::Any => is_like(units.skip(1), text) || (text.len() > 0 && is_like(
                units,
                text.skip(1),
            )),
            Glyph::One => text.len() > 0 && is_like(units.skip(1), text.skip(1)),
            Glyph::Exactly(c) => text.len() > 0 && text[0] == c && is_like(
                units.skip(1),
                text.skip(1),
            ),
        }
    }
}

/// The characters of a text, one by one.
pub fn characters(text: &str) -> (list: Vec<char>)
    ensures
        list@ == text@,
{
    let n = text.unicode_len();
    let mut list: Vec<char> = Vec::new();
    let mut i: usize = 0;
    while i < n
        invariant
            n == text@.len(),
            i <= n,
            list@ == text@.take(i as int),
        decreases n - i,
    {
        list.push(text.get_char(i));
        proof {
            assert(list@ =~= text@.take(i + 1));
        }
        i += 1;
    }
    proof {
        assert(text@.take(n as int) =~= text@);
    }
    list
}

/// The character at a place in a list.
pub(crate) fn char_at(list: &Vec<char>, i: usize) -> (c: char)
    requires
        i < list@.len(),
    ensures
        c == list@[i as int],
{
    list[i]
}

/// Reads a pattern into its units.
pub fn parse_pattern(pattern: &str) -> (units: Vec<Glyph>)
    ensures
        units@ == glyphs(pattern@),
{
    let source = characters(pattern);
    let n = source.len();
    let mut units: Vec<Glyph> = Vec::new();
    let mut escaped = false;
    let mut i: usize = 0;
    proof {
        assert(source@.skip(0) =~= source@);
        assert(units@ + glyphs(source@) =~= glyphs(source@));
    }
    while i < n
        invariant
            n == source@.len(),
            i <= n,
            glyphs(source@) == units@ + glyphs_after(source@.skip(i as int), escaped),
        decreases n - i,
    {
        let ghost rest = source@.skip(i as int);
        let ghost before = units@;
        let c = char_at(&source, i);
        if escaped {
            units.push(Glyph::Exactly(c));
        } else if c == '%' {
            units.push(Glyph::Any);
        } else if c == '_' {
            units.push(Glyph::One);
        } else if c != '\\' {
            units.push(Glyph::Exactly(c));
        }
        proof {
            assert(rest[0] == c);
            assert(rest.skip(1) =~= source@.skip(i + 1));
            assert(units@ =~= before + unit_of(c, escaped));
            assert(units@ + glyphs_after(rest.skip(1), !escaped && c == '\\') =~= before
                + glyphs_after(rest, escaped));
        }
        escaped = !escaped && c == '\\';
        i += 1;
    }
    let ghost read = units@;
    if escaped {
        units.push(Glyph::Exactly('\\'));
    }
    proof {
        assert(source@.skip(n as int) =~= Seq::<char>::empty());
        assert(units@ =~= read + glyphs_after(Seq::<char>::empty(), escaped));
    }
    units
}

/// Whether a text is of the form that the units describe. The answer for
/// each tail of the text is computed for ever longer tails of the units, so
/// that the work is the product of the two lengths.
pub fn pattern_matches(units: &Vec<Glyph>, text: &Vec<char>) -> (ok: bool)
    ensures
        ok == is_like(units@, text@),
{
    let m = units.len();
    let n = text.len();
    // `row[j]` answers for the tail of the text from `j`, `at_end` for the
    // empty tail.
    let mut row: Vec<bool> = Vec::new();
    let mut at_end = true;
    let mut j: usize = 0;
    while j < n
        invariant
            n == text@.len(),
            m == units@.len(),
            j <= n,
            row@.len() == j,
            forall|k: int|
                0 <= k < j ==> #[trigger] row@[k] == is_like(units@.skip(m as int), text@.skip(k)),
        decreases n - j,
    {
        row.push(false);
        j += 1;
    }
    let mut i: usize = m;
    while i > 0
        invariant
            n == text@.len(),
            m == units@.len(),
            i <= m,
            row@.len() == n,
            at_end == is_like(units@.skip(i as int), text@.skip(n as int)),
            forall|k: int|
                0 <= k < n ==> #[trigger] row@[k] == is_like(units@.skip(i as int), text@.skip(k)),
        decreases i,
    {
        i -= 1;
        let unit = units[i];
        let ghost tail = units@.skip(i as int);
        proof {
            assert(tail.skip(1) =~= units@.skip(i + 1));
            assert(tail[0] == unit);
        }
        let next_at_end = match unit {
            Glyph::Any => at_end,
            _ => false,
        };
        let mut next: Vec<bool> = Vec::new();
        let mut j: usize = 0;
        while j < n
            invariant
                j <= n,
                next@.len() == j,
            decreases n - j,
        {
            next.push(false);
            j += 1;
        }
        let mut j: usize = n;
        while j > 0
            invariant
                n == text@.len(),
                m == units@.len(),
                i < m,
                j <= n,
                unit == units@[i as int],
                tail == units@.skip(i as int),
                tail.len() > 0,
                tail[0] == unit,
                tail.skip(1) == units@.skip(i + 1),
                row@.len() == n,
                next@.len() == n,
                at_end == is_like(units@.skip(i + 1), text@.skip(n as int)),
                next_at_end == is_like(tail, text@.skip(n as int)),
                forall|k: int|
                    0 <= k < n ==> #[trigger] row@[k] == is_like(units@.skip(i + 1), text@.skip(k)),
                forall|k: int| j <= k < n ==> #[trigger] next@[k] == is_like(tail, text@.skip(k)),
            decreases j,
        {
            j -= 1;
            let ghost rest = text@.skip(j as int);
            proof {
                assert(rest.skip(1) =~= text@.skip(j + 1));
                assert(rest[0] == text@[j as int]);
            }
            let behind = if j + 1 < n {
                row[j + 1]
            } else {
                at_end
            };
            let here = match unit {
                Glyph::Any => row[j] || if j + 1 < n {
                    next[j + 1]
                } else {
                    next_at_end
                },
                Glyph::One => behind,
                Glyph::Exactly(c) => text[j] == c && behind,
            };
            next.set(j, here);
        }
        row = next;
        at_end = next_at_end;
    }
    proof {
        assert(units@.skip(0) =~= units@);
        assert(text@.skip(0) =~= text@);
    }
    if n == 0 {
        at_end
    } else {
        row[0]
    }
}

} // verus!
