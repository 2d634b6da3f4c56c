use vstd::prelude::*;

verus! {

/// The index of the first character of `s` that `stop` accepts, or the length of `s`
/// when there is none.
pub open spec fn first_index(s: Seq<char>, stop: spec_fn(char) -> bool) -> int
    decreases s.len(),
{
    if s.len() == 0 {
        0
    } else if stop(s[0]) {
        0
    } else {
        1 + first_index(s.drop_first(), stop)
    }
}

/// `i` is where the first character accepted by `stop` stands, or the end of `s`.
pub open spec fn is_first_stop(s: Seq<char>, stop: spec_fn(char) -> bool, i: int) -> bool {
    &&& 0 <= i <= s.len()
    &&& forall|j: int| 0 <= j < i ==> !stop(#[trigger] s[j])
    &&& (i == s.len() || stop(s[i]))
}

pub proof fn lemma_first_index(s: Seq<char>, stop: spec_fn(char) -> bool, i: int)
    requires
        is_first_stop(s, stop, i),
    ensures
        first_index(s, stop) == i,
    decreases i,
{
    if s.len() > 0 && i > 0 {
        assert(!stop(s[0]));
        let t = s.drop_first();
        assert forall|j: int| 0 <= j < i - 1 implies !stop(#[trigger] t[j]) by {
            assert(t[j] == s[j + 1]);
        }
        if i < s.len() {
            assert(t[i - 1] == s[i]);
        }
        lemma_first_index(t, stop, i - 1);
    }
}

/// The test for one given character.
pub open spec fn is_char(sep: char) -> spec_fn(char) -> bool {
    |c: char| c == sep
}

/// The test for a character without the White_Space property.
pub open spec fn not_white() -> spec_fn(char) -> bool {
    |c: char| !is_white(c)
}

/// The pieces of `s` between the occurrences of `sep`, in order; at least one.
pub open spec fn split_on(s: Seq<char>, sep: char) -> Seq<Seq<char>>
    decreases s.len(),
{
    let i = first_index(s, is_char(sep));
    if 0 <= i < s.len() {
        seq![s.take(i)] + split_on(s.skip(i + 1), sep)
    } else {
        seq![s]
    }
}

pub proof fn lemma_split_on_nonempty(s: Seq<char>, sep: char)
    ensures
        split_on(s, sep).len() >= 1,
    decreases s.len(),
{
    let i = first_index(s, is_char(sep));
    if 0 <= i < s.len() {
        lemma_split_on_nonempty(s.skip(i + 1), sep);
    }
}

/// Splits `s` at its first `sep`: the part before it and the part after it.
pub fn cut<'a>(s: &'a str, sep: char) -> (r: Option<(&'a str, &'a str)>)
    ensures
        r is None ==> split_on(s@, sep) == seq![s@],
        r is Some ==> split_on(s@, sep) == seq![(r->0).0@] + split_on((r->0).1@, sep),
{
    let n = s.unicode_len();
    let i = find_char(s, 0, sep);
    proof {
        lemma_first_index(s@, is_char(sep), i as int);
    }
    if i == n {
        None
    } else {
        let a = s.substring_char(0, i);
        let b = s.substring_char(i + 1, n);
        assert(a@ =~= s@.take(i as int));
        assert(b@ =~= s@.skip(i + 1));
        Some((a, b))
    }
}

/// The part of `s` before the first occurrence of `sep`, all of `s` when it has none.
pub open spec fn before(s: Seq<char>, sep: char) -> Seq<char> {
    split_on(s, sep)[0]
}

/// The characters with the Unicode White_Space property.
pub open spec fn is_white(c: char) -> bool {
    let u = c as u32;
    (0x9 <= u && u <= 0xd) || u == 0x20 || u == 0x85 || u == 0xa0 || u == 0x1680 || (0x2000 <= u
        && u <= 0x200a) || u == 0x2028 || u == 0x2029 || u == 0x202f || u == 0x205f || u == 0x3000
}

/// Whether `c` has the Unicode White_Space property.
pub fn white_space(c: char) -> (r: bool)
    ensures
        r == is_white(c),
{
    let u = c as u32;
    (0x9 <= u && u <= 0xd) || u == 0x20 || u == 0x85 || u == 0xa0 || u == 0x1680 || (0x2000 <= u
        && u <= 0x200a) || u == 0x2028 || u == 0x2029 || u == 0x202f || u == 0x205f || u == 0x3000
}

/// The number of white-space characters at the end of `s`.
pub open spec fn trailing_white(s: Seq<char>) -> int
    decreases s.len(),
{
    if s.len() > 0 && is_white(s.last()) {
        1 + trailing_white(s.drop_last())
    } else {
        0
    }
}

/// `s` without white space at either end.
pub open spec fn trimmed(s: Seq<char>) -> Seq<char> {
    let t = s.skip(first_index(s, not_white()));
    t.take(t.len() - trailing_white(t))
}

pub proof fn lemma_trailing_white(s: Seq<char>, b: int)
    requires
        0 <= b <= s.len(),
        forall|j: int| b <= j < s.len() ==> is_white(#[trigger] s[j]),
        b == 0 || !is_white(s[b - 1]),
    ensures
        trailing_white(s) == s.len() - b,
    decreases s.len() - b,
{
    if b < s.len() {
        let t = s.drop_last();
        assert forall|j: int| b <= j < t.len() implies is_white(#[trigger] t[j]) by {
            assert(t[j] == s[j]);
        }
        if b > 0 {
            assert(t[b - 1] == s[b - 1]);
        }
        lemma_trailing_white(t, b);
    }
}

/// The first index at or after `from` where `s` holds `c`, or the length of `s`.
pub fn find_char(s: &str, from: usize, c: char) -> (r: usize)
    requires
        from <= s@.len(),
    ensures
        from <= r <= s@.len(),
        forall|j: int| from <= j < r ==> s@[j] != c,
        r < s@.len() ==> s@[r as int] == c,
{
    let n = s.unicode_len();
    let mut i = from;
    while i < n
        invariant
            n == s@.len(),
            from <= i <= n,
            forall|j: int| from <= j < i ==> s@[j] != c,
        decreases n - i,
    {
        if s.get_char(i) == c {
            return i;
        }
        i = i + 1;
    }
    i
}

} // verus!
