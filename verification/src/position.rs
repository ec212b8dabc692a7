//! Line and column bookkeeping over source text.

use vstd::prelude::*;

use crate::text::chars_of;

verus! {

/// The position after `c`, from position `pos` = (line, column): a newline
/// starts the next line at column 1, any other character moves one column on.
pub open spec fn step(pos: (int, int), c: char) -> (int, int) {
    if c == '\n' {
        (pos.0 + 1, 1)
    } else {
        (pos.0, pos.1 + 1)
    }
}

/// The position reached after reading `cs` from position `pos`.
pub open spec fn advance(cs: Seq<char>, pos: (int, int)) -> (int, int)
    decreases cs.len(),
{
    if cs.len() == 0 {
        pos
    } else {
        step(advance(cs.drop_last(), pos), cs.last())
    }
}

/// The number of newline characters in `cs`.
pub open spec fn newline_count(cs: Seq<char>) -> nat
    decreases cs.len(),
{
    if cs.len() == 0 {
        0
    } else {
        newline_count(cs.drop_last()) + if cs.last() == '\n' {
            1nat
        } else {
            0nat
        }
    }
}

/// The number of characters of `cs` before its first newline; all of them
/// when there is none.
pub open spec fn first_line_len(cs: Seq<char>) -> nat
    decreases cs.len(),
{
    if cs.len() == 0 {
        0
    } else if cs[0] == '\n' {
        0
    } else {
        1 + first_line_len(cs.drop_first())
    }
}

/// Moves `line` and `column` past the characters of `lexeme`.
///
/// The precondition is that neither counter overflows on the way: the line
/// grows once per newline, and the column grows until the first newline
/// (after a newline it restarts at 1 and stays below the number of
/// characters read).
pub fn advance_position(lexeme: &str, line: &mut usize, column: &mut usize)
    requires
        *old(line) + newline_count(lexeme@) <= usize::MAX,
        *old(column) + first_line_len(lexeme@) <= usize::MAX,
    ensures
        (*final(line) as int, *final(column) as int) == advance(
            lexeme@,
            (*old(line) as int, *old(column) as int),
        ),
        *final(line) == *old(line) + newline_count(lexeme@),
        *final(line) == *old(line) <==> (forall|k: int|
            0 <= k < lexeme@.len() ==> lexeme@[k] != '\n'),
        (forall|k: int| 0 <= k < lexeme@.len() ==> lexeme@[k] != '\n') ==> *final(column)
            == *old(column) + lexeme@.len(),
        forall|k: int|
            0 <= k < lexeme@.len() && lexeme@[k] == '\n' && (forall|m: int|
                k < m < lexeme@.len() ==> lexeme@[m] != '\n') ==> *final(column) == lexeme@.len()
                - k,
{
    let cs = chars_of(lexeme);
    assert(cs@.subrange(0, cs@.len() as int) =~= lexeme@);
    advance_range(&cs, 0, cs.len(), line, column);
    proof {
        lemma_advance_closed_form(lexeme@, (*old(line) as int, *old(column) as int));
        lemma_newline_count_zero(lexeme@);
    }
}

/// Moves `line` and `column` past the characters `cs[from..to]`.
pub fn advance_range(cs: &Vec<char>, from: usize, to: usize, line: &mut usize, column: &mut usize)
    requires
        from <= to <= cs.len(),
        *old(line) + newline_count(cs@.subrange(from as int, to as int)) <= usize::MAX,
        *old(column) + first_line_len(cs@.subrange(from as int, to as int)) <= usize::MAX,
    ensures
        (*final(line) as int, *final(column) as int) == advance(
            cs@.subrange(from as int, to as int),
            (*old(line) as int, *old(column) as int),
        ),
{
    let ghost start = (*line as int, *column as int);
    let mut k: usize = from;
    while k < to
        invariant
            from <= k <= to <= cs.len(),
            (*line as int, *column as int) == advance(cs@.subrange(from as int, k as int), start),
            *line + newline_count(cs@.subrange(k as int, to as int)) <= usize::MAX,
            *column + first_line_len(cs@.subrange(k as int, to as int)) <= usize::MAX,
        decreases to - k,
    {
        let ghost rest = cs@.subrange(k as int, to as int);
        proof {
            assert(rest.drop_first() =~= cs@.subrange(k + 1, to as int));
            assert(rest =~= seq![rest[0]] + rest.drop_first());
            lemma_newline_count_concat(seq![rest[0]], rest.drop_first());
            assert(seq![rest[0]].drop_last() =~= Seq::<char>::empty());
            lemma_line_len_bounds(rest.drop_first());
        }
        if cs[k] == '\n' {
            *line += 1;
            *column = 1;
        } else {
            *column += 1;
        }
        assert(cs@.subrange(from as int, k + 1).drop_last() =~= cs@.subrange(from as int, k as int));
        k = k + 1;
    }
}

/// Counting newlines distributes over concatenation.
pub proof fn lemma_newline_count_concat(a: Seq<char>, b: Seq<char>)
    ensures
        newline_count(a + b) == newline_count(a) + newline_count(b),
    decreases b.len(),
{
    if b.len() == 0 {
        assert(a + b =~= a);
    } else {
        lemma_newline_count_concat(a, b.drop_last());
        assert((a + b).drop_last() =~= a + b.drop_last());
    }
}

/// The first line of `a + b` is that of `a` when `a` holds a newline, and
/// otherwise all of `a` followed by the first line of `b`.
pub proof fn lemma_first_line_len_concat(a: Seq<char>, b: Seq<char>)
    ensures
        (exists|k: int| 0 <= k < a.len() && a[k] == '\n') ==> first_line_len(a + b)
            == first_line_len(a),
        (forall|k: int| 0 <= k < a.len() ==> a[k] != '\n') ==> first_line_len(a + b) == a.len()
            + first_line_len(b),
    decreases a.len(),
{
    if a.len() == 0 {
        assert(a + b =~= b);
    } else {
        assert((a + b).drop_first() =~= a.drop_first() + b);
        lemma_first_line_len_concat(a.drop_first(), b);
        if a[0] != '\n' {
            if exists|k: int| 0 <= k < a.len() && a[k] == '\n' {
                let k = choose|k: int| 0 <= k < a.len() && a[k] == '\n';
                assert(a.drop_first()[k - 1] == '\n');
            }
            if forall|k: int| 0 <= k < a.len() ==> a[k] != '\n' {
                assert forall|k: int| 0 <= k < a.drop_first().len() implies a.drop_first()[k]
                    != '\n' by {
                    assert(a.drop_first()[k] == a[k + 1]);
                }
            }
        }
    }
}

/// Neither the number of newlines nor the first line is longer than the text.
pub proof fn lemma_line_len_bounds(cs: Seq<char>)
    ensures
        newline_count(cs) <= cs.len(),
        first_line_len(cs) <= cs.len(),
    decreases cs.len(),
{
    if cs.len() > 0 {
        lemma_line_len_bounds(cs.drop_last());
        lemma_line_len_bounds(cs.drop_first());
    }
}

/// The last line is no longer than the text.
pub proof fn lemma_line_tail_len_bound(cs: Seq<char>)
    ensures
        line_tail_len(cs) <= cs.len(),
    decreases cs.len(),
{
    if cs.len() > 0 {
        lemma_line_tail_len_bound(cs.drop_last());
    }
}

/// There are no newlines in `cs` exactly when its newline count is zero.
pub proof fn lemma_newline_count_zero(cs: Seq<char>)
    ensures
        newline_count(cs) == 0 <==> (forall|k: int| 0 <= k < cs.len() ==> cs[k] != '\n'),
    decreases cs.len(),
{
    if cs.len() > 0 {
        lemma_newline_count_zero(cs.drop_last());
        if forall|k: int| 0 <= k < cs.len() ==> cs[k] != '\n' {
            assert forall|k: int| 0 <= k < cs.drop_last().len() implies cs.drop_last()[k]
                != '\n' by {
                assert(cs.drop_last()[k] == cs[k]);
            }
        }
        if newline_count(cs) == 0 {
            assert forall|k: int| 0 <= k < cs.len() implies cs[k] != '\n' by {
                if k < cs.len() - 1 {
                    assert(cs.drop_last()[k] == cs[k]);
                }
            }
        }
    }
}

/// Reading `a` and then `b` without overflow is the same as reading `a + b`
/// without overflow: the precondition of [`advance_position`] holds for
/// `a + b` from `pos` when it holds for `a` from `pos` and for `b` from where
/// `a` ends.
pub proof fn lemma_fits_concat(a: Seq<char>, b: Seq<char>, pos: (int, int), bound: int)
    requires
        pos.0 + newline_count(a) <= bound,
        pos.1 + first_line_len(a) <= bound,
        advance(a, pos).0 + newline_count(b) <= bound,
        advance(a, pos).1 + first_line_len(b) <= bound,
    ensures
        pos.0 + newline_count(a + b) <= bound,
        pos.1 + first_line_len(a + b) <= bound,
{
    lemma_newline_count_concat(a, b);
    lemma_first_line_len_concat(a, b);
    lemma_advance_closed_form(a, pos);
    lemma_newline_count_zero(a);
    if exists|k: int| 0 <= k < a.len() && a[k] == '\n' {
    } else {
        assert forall|k: int| 0 <= k < a.len() implies a[k] != '\n' by {}
    }
}

/// The number of characters of `cs` after its last newline; all of them
/// when there is none.
pub open spec fn line_tail_len(cs: Seq<char>) -> nat
    decreases cs.len(),
{
    if cs.len() == 0 {
        0
    } else if cs.last() == '\n' {
        0
    } else {
        line_tail_len(cs.drop_last()) + 1
    }
}

/// From the start of a text (line 1, column 1), reading `cs` ends on the
/// line after its newlines, at the column after its last line.
pub proof fn lemma_advance_from_start(cs: Seq<char>)
    ensures
        advance(cs, (1, 1)) == (1 + newline_count(cs) as int, 1 + line_tail_len(cs) as int),
    decreases cs.len(),
{
    if cs.len() > 0 {
        lemma_advance_from_start(cs.drop_last());
    }
}

/// Reading `a` and then `b` ends where reading `a + b` ends.
pub proof fn lemma_advance_concat(a: Seq<char>, b: Seq<char>, pos: (int, int))
    ensures
        advance(a + b, pos) == advance(b, advance(a, pos)),
    decreases b.len(),
{
    if b.len() == 0 {
        assert(a + b =~= a);
    } else {
        lemma_advance_concat(a, b.drop_last(), pos);
        assert((a + b).drop_last() =~= a + b.drop_last());
    }
}

/// The line grows by the number of newlines read; the column grows by the
/// number of characters read when there is no newline among them, and is
/// otherwise one more than the number of characters after the last newline.
pub proof fn lemma_advance_closed_form(cs: Seq<char>, pos: (int, int))
    ensures
        advance(cs, pos).0 == pos.0 + newline_count(cs),
        (forall|k: int| 0 <= k < cs.len() ==> cs[k] != '\n') ==> advance(cs, pos).1 == pos.1
            + cs.len(),
        forall|k: int|
            0 <= k < cs.len() && cs[k] == '\n' && (forall|m: int| k < m < cs.len() ==> cs[m] != '\n')
                ==> advance(cs, pos).1 == cs.len() - k,
    decreases cs.len(),
{
    if cs.len() > 0 {
        let init = cs.drop_last();
        lemma_advance_closed_form(init, pos);
        assert forall|k: int|
            0 <= k < cs.len() && cs[k] == '\n' && (forall|m: int| k < m < cs.len() ==> cs[m] != '\n')
            implies advance(cs, pos).1 == cs.len() - k by {
            if k < cs.len() - 1 {
                assert(cs[cs.len() - 1] != '\n');
                assert(init[k] == '\n');
                assert forall|m: int| k < m < init.len() implies init[m] != '\n' by {
                    assert(init[m] == cs[m]);
                }
            }
        }
        if forall|k: int| 0 <= k < cs.len() ==> cs[k] != '\n' {
            assert forall|k: int| 0 <= k < init.len() implies init[k] != '\n' by {
                assert(init[k] == cs[k]);
            }
        }
    }
}

/// From a position with positive line and column, reading `cs` keeps both
/// positive and moves each by at most `cs.len()`.
pub proof fn lemma_advance_bounds(cs: Seq<char>, pos: (int, int))
    requires
        pos.0 >= 1,
        pos.1 >= 1,
    ensures
        pos.0 <= advance(cs, pos).0 <= pos.0 + cs.len(),
        1 <= advance(cs, pos).1 <= pos.1 + cs.len(),
    decreases cs.len(),
{
    if cs.len() > 0 {
        lemma_advance_bounds(cs.drop_last(), pos);
    }
}

} // verus!
