//! Reading what a tool printed: bytes are split into fields and lines, and
//! decimal numbers are read from them.

use vstd::prelude::*;

verus! {

/// The line feed.
pub const LF: u8 = 10;

/// The carriage return.
pub const CR: u8 = 13;

/// The horizontal tab.
pub const TAB: u8 = 9;

/// The pieces of `s` between the occurrences of `sep`, in order. There is
/// one piece more than there are occurrences, so that the empty run has one
/// empty piece, and a run that ends with `sep` has an empty last piece.
pub open spec fn split(s: Seq<u8>, sep: u8) -> Seq<Seq<u8>>
    decreases s.len(),
{
    if s.len() == 0 {
        seq![Seq::empty()]
    } else if s.last() == sep {
        split(s.drop_last(), sep).push(Seq::empty())
    } else {
        let before = split(s.drop_last(), sep);
        before.drop_last().push(before.last().push(s.last()))
    }
}

/// The pieces `pieces` with `sep` between each two of them.
pub open spec fn join(pieces: Seq<Seq<u8>>, sep: u8) -> Seq<u8>
    decreases pieces.len(),
{
    if pieces.len() == 0 {
        Seq::empty()
    } else if pieces.len() == 1 {
        pieces[0]
    } else {
        join(pieces.drop_last(), sep).push(sep) + pieces.last()
    }
}

/// What `split` is: there is at least one piece, no piece holds the
/// separator, and the pieces joined by the separator are the run that was split.
pub proof fn lemma_split(s: Seq<u8>, sep: u8)
    ensures
        split(s, sep).len() >= 1,
        forall|i: int, j: int|
            0 <= i < split(s, sep).len() && 0 <= j < split(s, sep)[i].len() ==> split(
                s,
                sep,
            )[i][j] != sep,
        join(split(s, sep), sep) == s,
    decreases s.len(),
{
    if s.len() == 0 {
        assert(join(split(s, sep), sep) =~= s);
    } else {
        let before = split(s.drop_last(), sep);
        lemma_split(s.drop_last(), sep);
        if s.last() == sep {
            let pieces = before.push(Seq::<u8>::empty());
            assert(pieces.drop_last() =~= before);
            assert(join(pieces, sep) =~= s);
        } else {
            let pieces = before.drop_last().push(before.last().push(s.last()));
            if before.len() == 1 {
                assert(before[0] == s.drop_last());
                assert(pieces[0] =~= s);
            } else {
                assert(pieces.drop_last() =~= before.drop_last());
                assert(pieces.last() == before.last().push(s.last()));
                assert(join(before, sep) == join(before.drop_last(), sep).push(sep)
                    + before.last());
                assert(join(pieces, sep) == join(before.drop_last(), sep).push(sep)
                    + before.last().push(s.last()));
                assert(join(pieces, sep) =~= s.drop_last().push(s.last()));
                assert(s.drop_last().push(s.last()) =~= s);
            }
        }
    }
}

/// The bytes of each run of a list.
pub open spec fn runs(v: Seq<Vec<u8>>) -> Seq<Seq<u8>> {
    Seq::new(v.len(), |i: int| v[i]@)
}

/// Splits `s` at every `sep`.
pub fn split_bytes(s: &[u8], sep: u8) -> (pieces: Vec<Vec<u8>>)
    ensures
        runs(pieces@) == split(s@, sep),
        pieces@.len() >= 1,
{
    let mut done: Vec<Vec<u8>> = Vec::new();
    let mut piece: Vec<u8> = Vec::new();
    let mut i: usize = 0;
    assert(s@.take(0) =~= Seq::<u8>::empty());
    assert(runs(done@).push(piece@) =~= split(s@.take(0), sep));
    while i < s.len()
        invariant
            i <= s.len(),
            runs(done@).push(piece@) == split(s@.take(i as int), sep),
        decreases s.len() - i,
    {
        let b = s[i];
        let ghost seen = s@.take(i as int);
        let ghost next = s@.take(i + 1);
        proof {
            assert(next.drop_last() =~= seen);
            assert(next.last() == b);
            assert(runs(done@).push(piece@).drop_last() =~= runs(done@));
        }
        if b == sep {
            let ghost before = runs(done@);
            let ghost ended = piece@;
            done.push(piece);
            piece = Vec::new();
            assert(runs(done@) =~= before.push(ended));
            assert(runs(done@).push(piece@) =~= split(next, sep));
        } else {
            piece.push(b);
            assert(runs(done@).push(piece@) =~= split(next, sep));
        }
        i += 1;
    }
    assert(s@.take(s@.len() as int) =~= s@);
    let ghost before = runs(done@);
    done.push(piece);
    assert(runs(done@) =~= before.push(piece@));
    done
}

/// `line` without a carriage return at its end.
pub open spec fn strip_cr(line: Seq<u8>) -> Seq<u8> {
    if line.len() > 0 && line.last() == CR {
        line.drop_last()
    } else {
        line
    }
}

/// The lines of `s`. A line ends with a line feed, or with a carriage return
/// and a line feed; neither belongs to the line. What follows the last line
/// feed is a line too, unless it is empty; a carriage return at its end
/// stays.
pub open spec fn lines(s: Seq<u8>) -> Seq<Seq<u8>> {
    let pieces = split(s, LF);
    let ended = pieces.drop_last().map_values(|piece: Seq<u8>| strip_cr(piece));
    if pieces.last().len() == 0 {
        ended
    } else {
        ended.push(pieces.last())
    }
}

/// The lines of `s`.
pub fn lines_of(s: &[u8]) -> (found: Vec<Vec<u8>>)
    ensures
        runs(found@) == lines(s@),
{
    let mut pieces = split_bytes(s, LF);
    let ghost all = runs(pieces@);
    let last = pieces.pop().unwrap();
    assert(runs(pieces@) =~= all.drop_last());
    assert(last@ == all.last());
    let mut found: Vec<Vec<u8>> = Vec::new();
    let mut i: usize = 0;
    assert(runs(found@) =~= runs(pieces@).take(0).map_values(|piece: Seq<u8>| strip_cr(piece)));
    while i < pieces.len()
        invariant
            i <= pieces.len(),
            runs(found@) == runs(pieces@).take(i as int).map_values(
                |piece: Seq<u8>| strip_cr(piece),
            ),
        decreases pieces.len() - i,
    {
        let piece = &pieces[i];
        let mut line: Vec<u8> = piece.clone();
        assert(line@ =~= piece@);
        if line.len() > 0 && line[line.len() - 1] == CR {
            let _ = line.pop();
            assert(line@ =~= strip_cr(piece@));
        }
        let ghost before = runs(found@);
        found.push(line);
        assert(runs(found@) =~= before.push(strip_cr(piece@)));
        assert(runs(found@) =~= runs(pieces@).take(i + 1).map_values(
            |piece: Seq<u8>| strip_cr(piece),
        ));
        i += 1;
    }
    assert(runs(pieces@).take(pieces@.len() as int) =~= runs(pieces@));
    if last.len() > 0 {
        let ghost before = runs(found@);
        found.push(last);
        assert(runs(found@) =~= before.push(all.last()));
    }
    found
}

/// Whether `b` is a decimal digit.
pub open spec fn is_digit(b: u8) -> bool {
    48 <= b <= 57
}

/// Whether `s` holds decimal digits only.
pub open spec fn all_digits(s: Seq<u8>) -> bool {
    forall|i: int| 0 <= i < s.len() ==> is_digit(#[trigger] s[i])
}

/// The number that the digits `s` denote; 0 for none.
pub open spec fn digits_value(s: Seq<u8>) -> nat
    decreases s.len(),
{
    if s.len() == 0 {
        0
    } else {
        digits_value(s.drop_last()) * 10 + (s.last() - 48) as nat
    }
}

/// The number that `s` denotes, as an unsigned number is written: one or
/// more decimal digits, with or without a plus sign before them. Anything
/// else denotes none.
pub open spec fn unsigned_text(s: Seq<u8>) -> Option<nat> {
    let digits = if s.len() > 0 && s[0] == 43 {
        s.drop_first()
    } else {
        s
    };
    if digits.len() > 0 && all_digits(digits) {
        Some(digits_value(digits))
    } else {
        None
    }
}

/// The number that `s` denotes where it denotes one that is at most `max`.
pub open spec fn unsigned_up_to(s: Seq<u8>, max: nat) -> Option<nat> {
    match unsigned_text(s) {
        Some(n) => if n <= max {
            Some(n)
        } else {
            None
        },
        None => None,
    }
}

/// The count that the field `s` of a tool's output gives: the number it
/// denotes, or 0 where it denotes none or one that is too large to hold.
pub open spec fn count_of(s: Seq<u8>) -> nat {
    match unsigned_up_to(s, usize::MAX as nat) {
        Some(n) => n,
        None => 0,
    }
}

/// Reads the number that `s` denotes, where it is at most `max`.
pub fn parse_unsigned(s: &[u8], max: u64) -> (parsed: Option<u64>)
    ensures
        match parsed {
            Some(n) => unsigned_up_to(s@, max as nat) == Some(n as nat),
            None => unsigned_up_to(s@, max as nat) is None,
        },
{
    let start: usize = if s.len() > 0 && s[0] == 43 {
        1
    } else {
        0
    };
    let ghost digits = s@.skip(start as int);
    assert(digits == if s@.len() > 0 && s@[0] == 43 {
        s@.drop_first()
    } else {
        s@
    }) by {
        assert(s@.skip(0) =~= s@);
    }
    if start == s.len() {
        return None;
    }
    let mut value: u64 = 0;
    let mut overflow = false;
    let mut i: usize = start;
    assert(digits.take(0) =~= Seq::<u8>::empty());
    while i < s.len()
        invariant
            start <= i <= s.len(),
            digits == s@.skip(start as int),
            digits == (if s@.len() > 0 && s@[0] == 43 {
                s@.drop_first()
            } else {
                s@
            }),
            all_digits(digits.take(i - start)),
            !overflow ==> value == digits_value(digits.take(i - start)) && value <= max,
            overflow ==> digits_value(digits.take(i - start)) > max,
        decreases s.len() - i,
    {
        let b = s[i];
        let ghost seen = digits.take(i - start);
        let ghost next = digits.take(i - start + 1);
        proof {
            assert(next.drop_last() =~= seen);
            assert(next.last() == b);
        }
        if b < 48 || b > 57 {
            assert(!all_digits(digits)) by {
                assert(digits[i - start] == b);
            }
            return None;
        }
        assert(all_digits(next)) by {
            assert forall|j: int| 0 <= j < next.len() implies is_digit(#[trigger] next[j]) by {
                if j < seen.len() {
                    assert(next[j] == seen[j]);
                }
            }
        }
        if !overflow {
            let digit = (b - 48) as u64;
            match value.checked_mul(10) {
                Some(tens) => match tens.checked_add(digit) {
                    Some(sum) => {
                        if sum > max {
                            overflow = true;
                        } else {
                            value = sum;
                        }
                    },
                    None => {
                        overflow = true;
                    },
                },
                None => {
                    overflow = true;
                },
            }
        } else {
            assert(digits_value(next) >= digits_value(seen));
        }
        i += 1;
    }
    proof {
        assert(digits.take(s@.len() - start) =~= digits);
    }
    if overflow {
        None
    } else {
        Some(value)
    }
}

/// Reads the count that a field gives.
pub fn parse_count(s: &[u8]) -> (n: usize)
    ensures
        n == count_of(s@),
{
    match parse_unsigned(s, usize::MAX as u64) {
        Some(n) => n as usize,
        None => 0,
    }
}

} // verus!
