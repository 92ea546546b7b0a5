//! Small verified helpers on text and on lists of text.

use vstd::prelude::*;
use vstd::string::StrSliceExecFns;

verus! {

/// The characters of each string of a list.
pub open spec fn texts(v: Seq<String>) -> Seq<Seq<char>> {
    Seq::new(v.len(), |i: int| v[i]@)
}

/// Appending a string to a list appends its characters to the list's texts.
pub proof fn lemma_texts_push(v: Seq<String>, s: String)
    ensures
        texts(v.push(s)) == texts(v).push(s@),
{
    assert(texts(v.push(s)) =~= texts(v).push(s@));
}

/// Appends a copy of `s` to `v`.
pub fn push_text(v: &mut Vec<String>, s: &str)
    ensures
        texts(final(v)@) == texts(old(v)@).push(s@),
        final(v)@.len() == old(v)@.len() + 1,
{
    let owned = s.to_owned();
    proof {
        lemma_texts_push(v@, owned);
    }
    v.push(owned);
}

/// Whether `item` is one of the strings of `list`.
pub fn is_listed(list: &Vec<String>, item: &str) -> (b: bool)
    ensures
        b == texts(list@).contains(item@),
{
    let wanted = item.to_owned();
    let mut i: usize = 0;
    while i < list.len()
        invariant
            i <= list.len(),
            wanted@ == item@,
            forall|j: int| 0 <= j < i ==> texts(list@)[j] != item@,
        decreases list.len() - i,
    {
        if list[i] == wanted {
            assert(texts(list@)[i as int] == item@);
            return true;
        }
        i += 1;
    }
    false
}

/// The characters of `s`, one by one.
pub fn chars_of(s: &str) -> (v: Vec<char>)
    ensures
        v@ == s@,
{
    broadcast use vstd::string::group_string_axioms;

    let mut v: Vec<char> = Vec::new();
    for c in it: s.chars()
        invariant
            it.seq() == s@,
            v@ == s@.take(it.index() as int),
    {
        v.push(c);
        assert(v@ =~= s@.take(it.index() + 1));
    }
    assert(s@.take(s@.len() as int) =~= s@);
    v
}

/// Whether the path `path` is the directory `dir` or lies below it, going by the
/// text of the two paths alone: `dir` is a prefix of `path` that ends where a
/// component of `path` ends. Nothing is resolved: neither links nor `..`.
pub open spec fn lies_within(path: Seq<char>, dir: Seq<char>) -> bool {
    &&& dir.len() > 0
    &&& dir.is_prefix_of(path)
    &&& (path.len() == dir.len() || dir.last() == '/' || path[dir.len() as int] == '/')
}

/// Decides `lies_within`.
pub fn path_lies_within(path: &str, dir: &str) -> (b: bool)
    ensures
        b == lies_within(path@, dir@),
{
    let p = chars_of(path);
    let d = chars_of(dir);
    if d.len() == 0 || d.len() > p.len() {
        return false;
    }
    let mut i: usize = 0;
    while i < d.len()
        invariant
            i <= d.len() <= p.len(),
            p@ == path@,
            d@ == dir@,
            forall|j: int| 0 <= j < i ==> p@[j] == d@[j],
        decreases d.len() - i,
    {
        if p[i] != d[i] {
            assert(!dir@.is_prefix_of(path@)) by {
                if dir@.is_prefix_of(path@) {
                    assert(path@.subrange(0, dir@.len() as int)[i as int] == dir@[i as int]);
                }
            }
            return false;
        }
        i += 1;
    }
    assert(dir@.is_prefix_of(path@)) by {
        assert(path@.subrange(0, dir@.len() as int) =~= dir@);
    }
    p.len() == d.len() || d[d.len() - 1] == '/' || p[d.len()] == '/'
}

/// The text made of `a`, then `b`, then `c`.
pub fn join3(a: &str, b: &str, c: &str) -> (r: String)
    ensures
        r@ == a@ + b@ + c@,
{
    let mut r = a.to_owned();
    r.append(b);
    r.append(c);
    r
}

/// White space as Unicode defines it (the property `White_Space`).
pub open spec fn is_space(c: char) -> bool {
    let n = c as u32;
    ||| 0x09 <= n <= 0x0D
    ||| n == 0x20
    ||| n == 0x85
    ||| n == 0xA0
    ||| n == 0x1680
    ||| 0x2000 <= n <= 0x200A
    ||| n == 0x2028
    ||| n == 0x2029
    ||| n == 0x202F
    ||| n == 0x205F
    ||| n == 0x3000
}

/// Decides `is_space`.
pub fn char_is_space(c: char) -> (b: bool)
    ensures
        b == is_space(c),
{
    let n = c as u32;
    (0x09 <= n && n <= 0x0D) || n == 0x20 || n == 0x85 || n == 0xA0 || n == 0x1680 || (0x2000 <= n
        && n <= 0x200A) || n == 0x2028 || n == 0x2029 || n == 0x202F || n == 0x205F || n == 0x3000
}

/// `s` without the white space at its start.
pub open spec fn trim_start(s: Seq<char>) -> Seq<char>
    decreases s.len(),
{
    if s.len() > 0 && is_space(s[0]) {
        trim_start(s.drop_first())
    } else {
        s
    }
}

/// `s` without the white space at its end.
pub open spec fn trim_end(s: Seq<char>) -> Seq<char>
    decreases s.len(),
{
    if s.len() > 0 && is_space(s.last()) {
        trim_end(s.drop_last())
    } else {
        s
    }
}

/// `s` without the white space at its start and at its end.
pub open spec fn trimmed(s: Seq<char>) -> Seq<char> {
    trim_end(trim_start(s))
}

/// Where `trim_start` begins: the number of characters that it drops.
fn trim_start_index(chars: &Vec<char>) -> (i: usize)
    ensures
        i <= chars@.len(),
        trim_start(chars@) == chars@.skip(i as int),
{
    let mut i: usize = 0;
    assert(chars@.skip(0) =~= chars@);
    while i < chars.len() && char_is_space(chars[i])
        invariant
            i <= chars@.len(),
            trim_start(chars@) == trim_start(chars@.skip(i as int)),
        decreases chars@.len() - i,
    {
        assert(chars@.skip(i as int).drop_first() =~= chars@.skip(i + 1));
        i += 1;
    }
    i
}

/// Where `trim_end` ends within the characters from `start` on.
fn trim_end_index(chars: &Vec<char>, start: usize) -> (j: usize)
    requires
        start <= chars@.len(),
    ensures
        start <= j <= chars@.len(),
        trim_end(chars@.skip(start as int)) == chars@.subrange(start as int, j as int),
{
    let mut j: usize = chars.len();
    assert(chars@.subrange(start as int, j as int) =~= chars@.skip(start as int));
    while j > start && char_is_space(chars[j - 1])
        invariant
            start <= j <= chars@.len(),
            trim_end(chars@.skip(start as int)) == trim_end(
                chars@.subrange(start as int, j as int),
            ),
        decreases j,
    {
        assert(chars@.subrange(start as int, j as int).drop_last() =~= chars@.subrange(
            start as int,
            j - 1,
        ));
        j -= 1;
    }
    j
}

/// `s` without the white space at its start and at its end.
pub fn trim(s: &str) -> (t: &str)
    ensures
        t@ == trimmed(s@),
{
    let chars = chars_of(s);
    let start = trim_start_index(&chars);
    let end = trim_end_index(&chars, start);
    s.substring_char(start, end)
}

/// Whether two texts are the same.
pub fn same_text(a: &str, b: &str) -> (same: bool)
    ensures
        same == (a@ == b@),
{
    a.to_owned() == b.to_owned()
}

/// `s` without `prefix` at its start, where it starts with `prefix`.
pub open spec fn without_prefix(s: Seq<char>, prefix: Seq<char>) -> Option<Seq<char>> {
    if prefix.is_prefix_of(s) {
        Some(s.skip(prefix.len() as int))
    } else {
        None
    }
}

/// `s` without `prefix` at its start, where it starts with `prefix`.
pub fn strip_prefix<'a>(s: &'a str, prefix: &str) -> (rest: Option<&'a str>)
    ensures
        match rest {
            Some(r) => without_prefix(s@, prefix@) == Some(r@),
            None => without_prefix(s@, prefix@) is None,
        },
{
    let text = chars_of(s);
    let head = chars_of(prefix);
    if head.len() > text.len() {
        return None;
    }
    let mut i: usize = 0;
    while i < head.len()
        invariant
            i <= head.len() <= text.len(),
            text@ == s@,
            head@ == prefix@,
            forall|j: int| 0 <= j < i ==> text@[j] == head@[j],
        decreases head.len() - i,
    {
        if text[i] != head[i] {
            assert(!prefix@.is_prefix_of(s@)) by {
                if prefix@.is_prefix_of(s@) {
                    assert(s@.subrange(0, prefix@.len() as int)[i as int] == prefix@[i as int]);
                }
            }
            return None;
        }
        i += 1;
    }
    assert(prefix@.is_prefix_of(s@)) by {
        assert(s@.subrange(0, prefix@.len() as int) =~= prefix@);
    }
    Some(s.substring_char(head.len(), text.len()))
}

/// The number of characters at the start of `s` that are not white space.
pub open spec fn word_len(s: Seq<char>) -> int
    decreases s.len(),
{
    if s.len() == 0 || is_space(s[0]) {
        0
    } else {
        1 + word_len(s.drop_first())
    }
}

/// The first word of `s`: what stands between the white space at its start
/// and the next white space. It is empty where `s` holds no word.
pub open spec fn first_word_of(s: Seq<char>) -> Seq<char> {
    trim_start(s).take(word_len(trim_start(s)))
}

/// The first word of `s`.
pub fn first_word(s: &str) -> (word: &str)
    ensures
        word@ == first_word_of(s@),
{
    let chars = chars_of(s);
    let start = trim_start_index(&chars);
    let mut end: usize = start;
    let ghost rest = chars@.skip(start as int);
    assert(rest.skip(0) =~= rest);
    while end < chars.len() && !char_is_space(chars[end])
        invariant
            start <= end <= chars@.len(),
            rest == chars@.skip(start as int),
            word_len(rest) == (end - start) + word_len(rest.skip(end - start)),
        decreases chars@.len() - end,
    {
        assert(rest.skip(end - start).drop_first() =~= rest.skip(end - start + 1));
        assert(rest.skip(end - start)[0] == chars@[end as int]);
        end += 1;
    }
    proof {
        if end < chars@.len() {
            assert(rest.skip(end - start)[0] == chars@[end as int]);
        }
        assert(word_len(rest) == end - start);
        assert(rest.take(end - start) =~= chars@.subrange(start as int, end as int));
    }
    s.substring_char(start, end)
}

/// The decimal digit for `d`, which is below ten.
pub open spec fn digit_char(d: nat) -> char {
    ((48 + d) as u8) as char
}

/// `n` written in decimal digits, without leading zeros; one zero for 0.
pub open spec fn decimal_text(n: nat) -> Seq<char>
    decreases n,
{
    if n < 10 {
        seq![digit_char(n)]
    } else {
        decimal_text(n / 10).push(digit_char(n % 10))
    }
}

/// The decimal digit for `d`.
fn digit_text(d: u32) -> (text: &'static str)
    requires
        d < 10,
    ensures
        text@ == seq![digit_char(d as nat)],
{
    proof {
        reveal_strlit("0");
        reveal_strlit("1");
        reveal_strlit("2");
        reveal_strlit("3");
        reveal_strlit("4");
        reveal_strlit("5");
        reveal_strlit("6");
        reveal_strlit("7");
        reveal_strlit("8");
        reveal_strlit("9");
    }
    let text = if d == 0 {
        "0"
    } else if d == 1 {
        "1"
    } else if d == 2 {
        "2"
    } else if d == 3 {
        "3"
    } else if d == 4 {
        "4"
    } else if d == 5 {
        "5"
    } else if d == 6 {
        "6"
    } else if d == 7 {
        "7"
    } else if d == 8 {
        "8"
    } else {
        "9"
    };
    assert(text@ =~= seq![digit_char(d as nat)]);
    text
}

/// Appends `n` in decimal digits to `out`.
pub fn push_decimal(out: &mut String, n: u32)
    ensures
        final(out)@ == old(out)@ + decimal_text(n as nat),
    decreases n,
{
    if n < 10 {
        out.append(digit_text(n));
    } else {
        push_decimal(out, n / 10);
        out.append(digit_text(n % 10));
        assert(out@ =~= old(out)@ + decimal_text(n as nat));
    }
}

} // verus!
