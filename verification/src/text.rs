//! Text helpers shared by the rest of the crate: decimal numerals and simple edits on strings.

use vstd::prelude::*;

verus! {

/// `String::push` appends one character to the end of the string.
pub assume_specification[ String::push ](text: &mut String, c: char)
    ensures
        final(text)@ == old(text)@.push(c),
;

/// `str == str` compares the two strings character by character.
pub assume_specification[ <str as PartialEq>::eq ](a: &str, b: &str) -> (same: bool)
    ensures
        same == (a@ == b@),
;

/// The character that shows the decimal digit `d`.
pub open spec fn digit_char(d: int) -> char {
    if d == 0 {
        '0'
    } else if d == 1 {
        '1'
    } else if d == 2 {
        '2'
    } else if d == 3 {
        '3'
    } else if d == 4 {
        '4'
    } else if d == 5 {
        '5'
    } else if d == 6 {
        '6'
    } else if d == 7 {
        '7'
    } else if d == 8 {
        '8'
    } else {
        '9'
    }
}

/// The decimal numeral of `n`, without leading zeros.
pub open spec fn decimal(n: nat) -> Seq<char>
    decreases n,
{
    if n < 10 {
        seq![digit_char(n as int)]
    } else {
        decimal(n / 10).push(digit_char((n % 10) as int))
    }
}

/// The decimal numeral of `v`, with a leading minus sign where `v` is negative.
pub open spec fn signed_decimal(v: int) -> Seq<char> {
    if v < 0 {
        seq!['-'] + decimal((-v) as nat)
    } else {
        decimal(v as nat)
    }
}

fn digit(d: u64) -> (c: char)
    requires
        d < 10,
    ensures
        c == digit_char(d as int),
{
    if d == 0 {
        '0'
    } else if d == 1 {
        '1'
    } else if d == 2 {
        '2'
    } else if d == 3 {
        '3'
    } else if d == 4 {
        '4'
    } else if d == 5 {
        '5'
    } else if d == 6 {
        '6'
    } else if d == 7 {
        '7'
    } else if d == 8 {
        '8'
    } else {
        '9'
    }
}

/// Appends the decimal numeral of `n` to `out`.
pub fn push_decimal(out: &mut String, n: u64)
    ensures
        final(out)@ == old(out)@ + decimal(n as nat),
    decreases n,
{
    if n < 10 {
        out.push(digit(n));
    } else {
        push_decimal(out, n / 10);
        out.push(digit(n % 10));
    }
}

/// Whether two strings hold the same characters.
pub fn same_text(a: &str, b: &str) -> (same: bool)
    ensures
        same == (a@ == b@),
{
    <str as PartialEq>::eq(a, b)
}

/// The test "is not `c`" on characters.
pub open spec fn differs_from(c: char) -> spec_fn(char) -> bool {
    |x: char| x != c
}

/// `s` with every occurrence of `c` left out.
pub open spec fn without_char(s: Seq<char>, c: char) -> Seq<char> {
    s.filter(differs_from(c))
}

/// A text that does not hold `c` stays as it is when `c` is left out.
pub proof fn lemma_without_char_absent(s: Seq<char>, c: char)
    requires
        forall|i: int| 0 <= i < s.len() ==> s[i] != c,
    ensures
        without_char(s, c) == s,
    decreases s.len(),
{
    reveal(Seq::filter);
    if s.len() > 0 {
        lemma_without_char_absent(s.drop_last(), c);
        assert(s =~= s.drop_last().push(s.last()));
    }
}

/// Leaving `c` out of two texts in a row is leaving it out of each.
pub proof fn lemma_without_char_concat(a: Seq<char>, b: Seq<char>, c: char)
    ensures
        without_char(a + b, c) == without_char(a, c) + without_char(b, c),
{
    Seq::filter_distributes_over_add(a, b, differs_from(c));
}

/// Copies `text`, leaving out every occurrence of `c`.
pub fn strip_char(text: &str, c: char) -> (out: String)
    ensures
        out@ == without_char(text@, c),
{
    let n = text.unicode_len();
    let mut out = String::new();
    let mut i: usize = 0;
    proof {
        reveal(Seq::filter);
        assert(text@.take(0) =~= Seq::<char>::empty());
    }
    while i < n
        invariant
            i <= n,
            n == text@.len(),
            out@ == without_char(text@.take(i as int), c),
        decreases n - i,
    {
        let x = text.get_char(i);
        proof {
            assert(text@.take(i + 1) =~= text@.take(i as int).push(x));
            text@.take(i as int).lemma_filter_push(x, differs_from(c));
        }
        if x != c {
            out.push(x);
        }
        i += 1;
    }
    proof {
        assert(text@.take(n as int) =~= text@);
    }
    out
}

/// `s` with every occurrence of `p` left out, reading from the left; an occurrence that
/// overlaps an earlier one does not count. An empty `p` occurs nowhere.
pub open spec fn without_pattern(s: Seq<char>, p: Seq<char>) -> Seq<char>
    decreases s.len(),
{
    if p.len() == 0 || s.len() < p.len() {
        s
    } else if s.take(p.len() as int) == p {
        without_pattern(s.skip(p.len() as int), p)
    } else {
        seq![s[0]] + without_pattern(s.skip(1), p)
    }
}

/// Whether `pattern` stands in `text` at position `at`.
fn occurs_at(text: &str, at: usize, pattern: &str) -> (hit: bool)
    requires
        at + pattern@.len() <= text@.len(),
    ensures
        hit == (text@.skip(at as int).take(pattern@.len() as int) == pattern@),
{
    let n = text.unicode_len();
    let m = pattern.unicode_len();
    let mut k: usize = 0;
    while k < m
        invariant
            k <= m,
            m == pattern@.len(),
            n == text@.len(),
            at + m <= n,
            forall|j: int| 0 <= j < k ==> text@[at + j] == pattern@[j],
        decreases m - k,
    {
        if text.get_char(at + k) != pattern.get_char(k) {
            proof {
                assert(text@.skip(at as int).take(m as int)[k as int] == text@[at + k]);
            }
            return false;
        }
        k += 1;
    }
    proof {
        assert(text@.skip(at as int).take(m as int) =~= pattern@);
    }
    true
}

/// Copies `text`, leaving out every occurrence of `pattern`.
pub fn strip_pattern(text: &str, pattern: &str) -> (out: String)
    ensures
        out@ == without_pattern(text@, pattern@),
{
    let n = text.unicode_len();
    let m = pattern.unicode_len();
    if m == 0 {
        return text.to_owned();
    }
    let mut out = String::new();
    let mut i: usize = 0;
    proof {
        assert(text@.skip(0) =~= text@);
    }
    while i < n
        invariant
            i <= n,
            n == text@.len(),
            m == pattern@.len(),
            m > 0,
            out@ + without_pattern(text@.skip(i as int), pattern@) == without_pattern(
                text@,
                pattern@,
            ),
        decreases n - i,
    {
        let ghost rest = text@.skip(i as int);
        if n - i >= m && occurs_at(text, i, pattern) {
            proof {
                assert(rest.skip(m as int) =~= text@.skip(i + m));
            }
            i += m;
        } else {
            let x = text.get_char(i);
            proof {
                assert(rest.skip(1) =~= text@.skip(i + 1));
                assert(rest[0] == x);
                if rest.len() < m {
                    assert(without_pattern(rest, pattern@) == rest);
                    assert(without_pattern(rest.skip(1), pattern@) == rest.skip(1));
                    assert(rest =~= seq![x] + rest.skip(1));
                }
                assert(without_pattern(rest, pattern@) == seq![x] + without_pattern(
                    rest.skip(1),
                    pattern@,
                ));
                assert(out@.push(x) + without_pattern(rest.skip(1), pattern@) =~= out@ + (seq![x]
                    + without_pattern(rest.skip(1), pattern@)));
            }
            out.push(x);
            i += 1;
        }
    }
    proof {
        assert(text@.skip(n as int) =~= Seq::<char>::empty());
        assert(out@ + Seq::<char>::empty() =~= out@);
    }
    out
}

/// The position of the last `c` in `s`, or -1 where `s` holds none.
pub open spec fn last_index(s: Seq<char>, c: char) -> int
    decreases s.len(),
{
    if s.len() == 0 {
        -1
    } else if s.last() == c {
        s.len() - 1
    } else {
        last_index(s.drop_last(), c)
    }
}

/// What `last_index` finds: a `c` with none behind it, or -1 and no `c` at all.
pub proof fn lemma_last_index(s: Seq<char>, c: char)
    ensures
        -1 <= last_index(s, c) < s.len(),
        last_index(s, c) >= 0 ==> s[last_index(s, c)] == c,
        forall|j: int| last_index(s, c) < j < s.len() ==> s[j] != c,
    decreases s.len(),
{
    if s.len() > 0 && s.last() != c {
        lemma_last_index(s.drop_last(), c);
        assert forall|j: int| last_index(s, c) < j < s.len() implies s[j] != c by {
            if j < s.len() - 1 {
                assert(s[j] == s.drop_last()[j]);
            }
        }
    }
}

/// The position of the last `'.'` in `s`, or -1 where `s` holds none.
pub open spec fn last_dot(s: Seq<char>) -> int {
    last_index(s, '.')
}

/// The last part of a path whose parts are separated by `'/'`, where that part names
/// a file or a directory. Separators at the end are passed over, and so is a part `.`
/// at the end. A path that ends in the part `..`, and a path without parts, has none.
pub open spec fn file_name_of(path: Seq<char>) -> Option<Seq<char>>
    decreases path.len(),
{
    if path.len() == 0 {
        None
    } else if path.last() == '/' {
        file_name_of(path.drop_last())
    } else {
        let part = path.skip(last_index(path, '/') + 1);
        if part == seq!['.', '.'] {
            None
        } else if part == seq!['.'] {
            file_name_of(path.drop_last())
        } else {
            Some(part)
        }
    }
}

/// What follows the last `'.'` of a file name. A name without a `'.'`, or whose only
/// `'.'` is its first character, has no such part.
pub open spec fn dot_suffix(name: Seq<char>) -> Option<Seq<char>> {
    if last_dot(name) <= 0 {
        None
    } else {
        Some(name.skip(last_dot(name) + 1))
    }
}

/// The extension of the file that a path names: what follows the last `'.'` of the
/// path's last part. There is none where the path names no file, where the name holds
/// no `'.'`, and where its only `'.'` is its first character.
pub open spec fn extension_of(path: Seq<char>) -> Option<Seq<char>> {
    match file_name_of(path) {
        Some(name) => dot_suffix(name),
        None => None,
    }
}

/// The last part of `path`, where it names a file or a directory.
pub fn path_file_name(path: &str) -> (name: Option<String>)
    ensures
        name is Some <==> file_name_of(path@) is Some,
        name is Some ==> name->0@ == file_name_of(path@)->0,
{
    let n = path.unicode_len();
    let mut end: usize = n;
    proof {
        assert(path@.take(n as int) =~= path@);
    }
    while end > 0
        invariant
            end <= n,
            n == path@.len(),
            file_name_of(path@) == file_name_of(path@.take(end as int)),
        decreases end,
    {
        let ghost head = path@.take(end as int);
        proof {
            assert(head.drop_last() =~= path@.take(end - 1));
        }
        if path.get_char(end - 1) == '/' {
            end -= 1;
        } else {
            let mut start: usize = end - 1;
            while start > 0 && path.get_char(start - 1) != '/'
                invariant
                    start < end <= n,
                    n == path@.len(),
                    forall|j: int| start <= j < end ==> path@[j] != '/',
                decreases start,
            {
                start -= 1;
            }
            let ghost part = head.skip(start as int);
            proof {
                lemma_last_index(head, '/');
                let found = last_index(head, '/');
                if found >= start {
                    assert(head[found] == path@[found]);
                }
                if found < start - 1 {
                    assert(head[start - 1] == path@[start - 1]);
                }
                assert(found == start - 1);
                assert(part =~= path@.subrange(start as int, end as int));
            }
            let dotted = path.get_char(start) == '.';
            if end - start == 1 && dotted {
                proof {
                    assert(part =~= seq!['.']);
                }
                end -= 1;
            } else if end - start == 2 && dotted && path.get_char(start + 1) == '.' {
                proof {
                    assert(part =~= seq!['.', '.']);
                }
                return None;
            } else {
                proof {
                    if part == seq!['.', '.'] {
                        assert(part[0] == '.' && part[1] == '.');
                    }
                    if part == seq!['.'] {
                        assert(part[0] == '.');
                    }
                }
                let found = path.substring_char(start, end);
                return Some(found.to_owned());
            }
        }
    }
    proof {
        assert(path@.take(0).len() == 0);
    }
    None
}

/// What follows the last `'.'` of `name`.
pub fn dot_suffix_text(name: &str) -> (ext: Option<String>)
    ensures
        ext is Some <==> dot_suffix(name@) is Some,
        ext is Some ==> ext->0@ == dot_suffix(name@)->0,
{
    let n = text_len(name);
    let mut found: bool = false;
    let mut at: usize = 0;
    let mut i: usize = 0;
    proof {
        assert(name@.take(0) =~= Seq::<char>::empty());
    }
    while i < n
        invariant
            i <= n,
            n == name@.len(),
            found ==> at < i && last_dot(name@.take(i as int)) == at,
            !found ==> last_dot(name@.take(i as int)) == -1,
        decreases n - i,
    {
        proof {
            assert(name@.take(i + 1).drop_last() =~= name@.take(i as int));
        }
        if name.get_char(i) == '.' {
            found = true;
            at = i;
        }
        i += 1;
    }
    proof {
        assert(name@.take(n as int) =~= name@);
    }
    if found && at > 0 {
        let part = name.substring_char(at + 1, n);
        proof {
            assert(name@.subrange(at + 1, n as int) =~= name@.skip(at + 1));
        }
        Some(part.to_owned())
    } else {
        None
    }
}

/// The extension of the file that `path` names, without the dot.
pub fn extension_text(path: &str) -> (ext: Option<String>)
    ensures
        ext is Some <==> extension_of(path@) is Some,
        ext is Some ==> ext->0@ == extension_of(path@)->0,
{
    match path_file_name(path) {
        Some(name) => dot_suffix_text(name.as_str()),
        None => None,
    }
}

/// The number of characters in `text`.
pub fn text_len(text: &str) -> (n: usize)
    ensures
        n == text@.len(),
{
    text.unicode_len()
}

/// A decimal numeral is not empty and holds no `'.'`.
pub proof fn lemma_decimal_shape(n: nat)
    ensures
        decimal(n).len() >= 1,
        forall|i: int| 0 <= i < decimal(n).len() ==> decimal(n)[i] != '.',
    decreases n,
{
    if n >= 10 {
        lemma_decimal_shape(n / 10);
    }
}

/// Different digits are shown by different characters.
pub proof fn lemma_digit_char_injective(a: int, b: int)
    requires
        0 <= a < 10,
        0 <= b < 10,
        digit_char(a) == digit_char(b),
    ensures
        a == b,
{
}

/// Different numbers have different decimal numerals.
pub proof fn lemma_decimal_injective(a: nat, b: nat)
    requires
        decimal(a) == decimal(b),
    ensures
        a == b,
    decreases a,
{
    lemma_decimal_shape(a / 10);
    lemma_decimal_shape(b / 10);
    if a >= 10 && b >= 10 {
        assert(decimal(a).drop_last() =~= decimal(a / 10));
        assert(decimal(b).drop_last() =~= decimal(b / 10));
        assert(decimal(a).last() == digit_char((a % 10) as int));
        assert(decimal(b).last() == digit_char((b % 10) as int));
        lemma_decimal_injective(a / 10, b / 10);
        lemma_digit_char_injective((a % 10) as int, (b % 10) as int);
    } else if a < 10 && b < 10 {
        assert(decimal(a)[0] == digit_char(a as int));
        assert(decimal(b)[0] == digit_char(b as int));
        lemma_digit_char_injective(a as int, b as int);
    } else if a < 10 {
        assert(decimal(b).len() == decimal(b / 10).len() + 1);
    } else {
        assert(decimal(a).len() == decimal(a / 10).len() + 1);
    }
}

/// Where a text without `'.'` follows a `'.'`, that `'.'` is the last one.
pub proof fn lemma_last_dot_before_dotless(stem: Seq<char>, tail: Seq<char>)
    requires
        forall|i: int| 0 <= i < tail.len() ==> tail[i] != '.',
    ensures
        last_dot(stem + seq!['.'] + tail) == stem.len(),
    decreases tail.len(),
{
    let whole = stem + seq!['.'] + tail;
    if tail.len() == 0 {
        assert(whole.last() == '.');
    } else {
        assert(whole.last() == tail.last());
        assert(whole.drop_last() =~= stem + seq!['.'] + tail.drop_last());
        lemma_last_dot_before_dotless(stem, tail.drop_last());
    }
}

} // verus!
