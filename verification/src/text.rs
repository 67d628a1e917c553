//! Strings as sequences of characters: the searches, cuts and spellings that
//! the rest of the crate states its contracts with.

use vstd::prelude::*;
use vstd::string::*;

verus! {

/// White space: the characters that Unicode gives the property `White_Space`.
pub open spec fn white_space(c: char) -> bool {
    ||| '\u{9}' <= c <= '\u{d}'
    ||| c == '\u{20}'
    ||| c == '\u{85}'
    ||| c == '\u{a0}'
    ||| c == '\u{1680}'
    ||| '\u{2000}' <= c <= '\u{200a}'
    ||| c == '\u{2028}'
    ||| c == '\u{2029}'
    ||| c == '\u{202f}'
    ||| c == '\u{205f}'
    ||| c == '\u{3000}'
}

/// Stands for `char::is_whitespace`, which tells whether the character has the
/// Unicode property `White_Space`.
pub assume_specification[ char::is_whitespace ](c: char) -> (r: bool)
    ensures
        r == white_space(c),
;

/// Stands for `String::push`, which appends the character to the string.
pub assume_specification[ String::push ](s: &mut String, c: char)
    ensures
        final(s)@ == old(s)@.push(c),
;

/// The characters of `s`.
pub fn chars_of(s: &str) -> (r: Vec<char>)
    ensures
        r@ == s@,
{
    let mut out: Vec<char> = Vec::new();
    for c in it: s.chars()
        invariant
            out@ == it.seq().take(it.index() as int),
            it.seq() == s@,
    {
        out.push(c);
    }
    out
}

/// The characters `from..to` of `chars`, as a string.
pub fn slice_of(chars: &Vec<char>, from: usize, to: usize) -> (r: String)
    requires
        from <= to <= chars@.len(),
    ensures
        r@ == chars@.subrange(from as int, to as int),
{
    let mut out = String::new();
    let mut i: usize = from;
    while i < to
        invariant
            from <= i <= to <= chars@.len(),
            out@ == chars@.subrange(from as int, i as int),
        decreases to - i,
    {
        out.push(chars[i]);
        i += 1;
    }
    out
}

/// `needle` stands in `hay` at position `i`.
pub open spec fn occurs_at(hay: Seq<char>, needle: Seq<char>, i: int) -> bool {
    0 <= i && i + needle.len() <= hay.len() && hay.subrange(i, i + needle.len()) == needle
}

/// `needle` stands somewhere in `hay`.
pub open spec fn has(hay: Seq<char>, needle: Seq<char>) -> bool {
    exists|i: int| occurs_at(hay, needle, i)
}

/// Whether `needle` stands in `hay` at position `at`.
fn matches_at(hay: &Vec<char>, needle: &Vec<char>, at: usize) -> (r: bool)
    requires
        at + needle@.len() <= hay@.len(),
    ensures
        r == occurs_at(hay@, needle@, at as int),
{
    assert(hay.len() <= usize::MAX);
    let mut k: usize = 0;
    while k < needle.len()
        invariant
            k <= needle@.len(),
            at + needle@.len() <= hay@.len() <= usize::MAX,
            forall|j: int| 0 <= j < k ==> hay@[at + j] == needle@[j],
        decreases needle@.len() - k,
    {
        if hay[at + k] != needle[k] {
            assert(hay@.subrange(at as int, at + needle@.len())[k as int] != needle@[k as int]);
            return false;
        }
        k += 1;
    }
    assert(hay@.subrange(at as int, at + needle@.len()) =~= needle@);
    true
}

/// Whether `needle` stands somewhere in `hay`.
pub fn contains(hay: &Vec<char>, needle: &str) -> (r: bool)
    ensures
        r == has(hay@, needle@),
{
    let wanted = chars_of(needle);
    if wanted.len() > hay.len() {
        return false;
    }
    let last: usize = hay.len() - wanted.len();
    let mut i: usize = 0;
    loop
        invariant
            wanted@ == needle@,
            i <= last,
            last == hay@.len() - wanted@.len(),
            forall|j: int| 0 <= j < i ==> !occurs_at(hay@, needle@, j),
        decreases last - i,
    {
        if matches_at(hay, &wanted, i) {
            return true;
        }
        if i == last {
            return false;
        }
        i += 1;
    }
}

/// Whether the two strings hold the same characters.
pub fn same(a: &str, b: &str) -> (r: bool)
    ensures
        r == (a@ == b@),
{
    let a = chars_of(a);
    let b = chars_of(b);
    if a.len() != b.len() {
        return false;
    }
    let r = matches_at(&a, &b, 0);
    assert(a@.subrange(0, a@.len() as int) =~= a@);
    r
}

/// `s` begins with `prefix`.
pub open spec fn begins(s: Seq<char>, prefix: Seq<char>) -> bool {
    occurs_at(s, prefix, 0)
}

/// Whether `s` begins with `prefix`.
pub fn starts_with(s: &str, prefix: &str) -> (r: bool)
    ensures
        r == begins(s@, prefix@),
{
    let s = chars_of(s);
    let prefix = chars_of(prefix);
    prefix.len() <= s.len() && matches_at(&s, &prefix, 0)
}

/// `path` with a slash at its end, which is put there unless there is one: what
/// the path of everything in the folder `path` begins with.
pub open spec fn as_folder(path: Seq<char>) -> Seq<char> {
    if path.len() > 0 && path.last() == '/' {
        path
    } else {
        path.push('/')
    }
}

/// `path` with a slash at its end.
pub fn folder_prefix(path: &str) -> (r: String)
    ensures
        r@ == as_folder(path@),
{
    let chars = chars_of(path);
    let mut out = path.to_owned();
    if chars.len() == 0 || chars[chars.len() - 1] != '/' {
        out.push('/');
    }
    out
}

/// What begins with something that begins with `c` begins with `c`.
pub proof fn law_begins_is_transitive(a: Seq<char>, b: Seq<char>, c: Seq<char>)
    requires
        begins(a, b),
        begins(b, c),
    ensures
        begins(a, c),
{
    assert(a.subrange(0, c.len() as int) =~= c) by {
        assert forall|i: int| 0 <= i < c.len() implies a[i] == #[trigger] c[i] by {
            assert(a.subrange(0, b.len() as int)[i] == b[i]);
            assert(b.subrange(0, c.len() as int)[i] == c[i]);
        }
    }
}

/// Of two things that `a` begins with, the longer begins with the other.
pub proof fn law_prefixes_are_nested(a: Seq<char>, b: Seq<char>, c: Seq<char>)
    requires
        begins(a, b),
        begins(a, c),
        c.len() <= b.len(),
    ensures
        begins(b, c),
{
    assert(b.subrange(0, c.len() as int) =~= c) by {
        assert forall|i: int| 0 <= i < c.len() implies b[i] == #[trigger] c[i] by {
            assert(a.subrange(0, b.len() as int)[i] == b[i]);
            assert(a.subrange(0, c.len() as int)[i] == c[i]);
        }
    }
}

/// The lower-case form of an ASCII letter; any other character is kept.
pub open spec fn lower(c: char) -> char {
    if 'A' <= c <= 'Z' {
        (c as u8 + 32) as char
    } else {
        c
    }
}

/// `s` with its ASCII letters in lower case.
pub open spec fn lower_all(s: Seq<char>) -> Seq<char> {
    s.map_values(|c: char| lower(c))
}

/// `chars` with its ASCII letters in lower case.
pub fn ascii_lowercase(chars: &Vec<char>) -> (r: Vec<char>)
    ensures
        r@ == lower_all(chars@),
{
    let mut out: Vec<char> = Vec::new();
    let mut i: usize = 0;
    while i < chars.len()
        invariant
            i <= chars@.len(),
            out@ == lower_all(chars@.take(i as int)),
        decreases chars@.len() - i,
    {
        let c = chars[i];
        let l = if 'A' <= c && c <= 'Z' {
            (c as u8 + 32) as char
        } else {
            c
        };
        out.push(l);
        i += 1;
        assert(out@ =~= lower_all(chars@.take(i as int)));
    }
    assert(chars@.take(chars@.len() as int) =~= chars@);
    out
}

/// `s` without the characters at both ends that satisfy `p`.
pub open spec fn trimmed(s: Seq<char>, p: spec_fn(char) -> bool) -> Seq<char>
    decreases s.len(),
{
    if s.len() == 0 {
        s
    } else if p(s.first()) {
        trimmed(s.drop_first(), p)
    } else if p(s.last()) {
        trimmed(s.drop_last(), p)
    } else {
        s
    }
}

/// The predicate "is a slash".
pub open spec fn slash() -> spec_fn(char) -> bool {
    |c: char| c == '/'
}

/// The predicate "is white space".
pub open spec fn blank() -> spec_fn(char) -> bool {
    |c: char| white_space(c)
}

/// `s` without its leading and trailing slashes.
pub open spec fn bare(s: Seq<char>) -> Seq<char> {
    trimmed(s, slash())
}

/// Nothing is left to trim: neither end satisfies `p`, and trimming again
/// changes nothing.
pub proof fn law_trimmed_once(s: Seq<char>, p: spec_fn(char) -> bool)
    ensures
        trimmed(trimmed(s, p), p) == trimmed(s, p),
        trimmed(s, p).len() > 0 ==> !p(trimmed(s, p).first()) && !p(trimmed(s, p).last()),
    decreases s.len(),
{
    if s.len() > 0 {
        if p(s.first()) {
            law_trimmed_once(s.drop_first(), p);
        } else if p(s.last()) {
            law_trimmed_once(s.drop_last(), p);
        }
    }
}

/// One character fewer in front.
proof fn lemma_trim_front(s: Seq<char>, lo: int, hi: int, p: spec_fn(char) -> bool)
    requires
        0 <= lo < hi <= s.len(),
        p(s[lo]),
    ensures
        trimmed(s.subrange(lo, hi), p) == trimmed(s.subrange(lo + 1, hi), p),
{
    assert(s.subrange(lo, hi).drop_first() =~= s.subrange(lo + 1, hi));
}

/// One character fewer at the end.
proof fn lemma_trim_back(s: Seq<char>, lo: int, hi: int, p: spec_fn(char) -> bool)
    requires
        0 <= lo < hi <= s.len(),
        !p(s[lo]),
        p(s[hi - 1]),
    ensures
        trimmed(s.subrange(lo, hi), p) == trimmed(s.subrange(lo, hi - 1), p),
{
    assert(s.subrange(lo, hi).drop_last() =~= s.subrange(lo, hi - 1));
}

/// `s` without its leading and trailing slashes.
pub fn trim_slashes(s: &str) -> (r: String)
    ensures
        r@ == bare(s@),
{
    let chars = chars_of(s);
    let mut lo: usize = 0;
    let mut hi: usize = chars.len();
    assert(chars@.subrange(0, hi as int) =~= s@);
    while lo < hi && chars[lo] == '/'
        invariant
            lo <= hi == chars@.len(),
            bare(chars@.subrange(lo as int, hi as int)) == bare(s@),
        decreases hi - lo,
    {
        proof {
            lemma_trim_front(chars@, lo as int, hi as int, slash());
        }
        lo += 1;
    }
    while lo < hi && chars[hi - 1] == '/'
        invariant
            lo <= hi <= chars@.len(),
            lo < hi ==> chars@[lo as int] != '/',
            bare(chars@.subrange(lo as int, hi as int)) == bare(s@),
        decreases hi - lo,
    {
        proof {
            lemma_trim_back(chars@, lo as int, hi as int, slash());
        }
        hi -= 1;
    }
    slice_of(&chars, lo, hi)
}

/// `s` without its leading and trailing white space.
pub fn trim(s: &str) -> (r: String)
    ensures
        r@ == trimmed(s@, blank()),
{
    let chars = chars_of(s);
    let mut lo: usize = 0;
    let mut hi: usize = chars.len();
    assert(chars@.subrange(0, hi as int) =~= s@);
    while lo < hi && chars[lo].is_whitespace()
        invariant
            lo <= hi == chars@.len(),
            trimmed(chars@.subrange(lo as int, hi as int), blank()) == trimmed(s@, blank()),
        decreases hi - lo,
    {
        proof {
            lemma_trim_front(chars@, lo as int, hi as int, blank());
        }
        lo += 1;
    }
    while lo < hi && chars[hi - 1].is_whitespace()
        invariant
            lo <= hi <= chars@.len(),
            lo < hi ==> !white_space(chars@[lo as int]),
            trimmed(chars@.subrange(lo as int, hi as int), blank()) == trimmed(s@, blank()),
        decreases hi - lo,
    {
        proof {
            lemma_trim_back(chars@, lo as int, hi as int, blank());
        }
        hi -= 1;
    }
    slice_of(&chars, lo, hi)
}

/// Nothing but white space.
pub open spec fn all_blank(s: Seq<char>) -> bool {
    trimmed(s, blank()).len() == 0
}

/// Whether `s` holds nothing but white space.
pub fn is_blank(s: &str) -> (r: bool)
    ensures
        r == all_blank(s@),
{
    trim(s).as_str().is_empty()
}

/// The pieces of `s` between its slashes. There is always one: a string
/// without a slash is its own only piece.
pub open spec fn segments(s: Seq<char>) -> Seq<Seq<char>>
    decreases s.len(),
{
    if s.len() == 0 {
        seq![Seq::<char>::empty()]
    } else {
        let before = segments(s.drop_last());
        if s.last() == '/' {
            before.push(Seq::<char>::empty())
        } else {
            before.drop_last().push(before.last().push(s.last()))
        }
    }
}

/// There is always a piece.
proof fn lemma_segments_nonempty(s: Seq<char>)
    ensures
        segments(s).len() > 0,
    decreases s.len(),
{
    if s.len() > 0 {
        lemma_segments_nonempty(s.drop_last());
    }
}

/// `parts` with a slash between each two.
pub open spec fn joined(parts: Seq<Seq<char>>) -> Seq<char>
    decreases parts.len(),
{
    if parts.len() == 0 {
        Seq::empty()
    } else if parts.len() == 1 {
        parts[0]
    } else {
        joined(parts.drop_last()).push('/') + parts.last()
    }
}

/// Cutting a path at its slashes loses nothing: the pieces hold no slash, and
/// with the slashes put back between them they are the path again.
pub proof fn law_segments_join(s: Seq<char>)
    ensures
        joined(segments(s)) == s,
        forall|i: int| 0 <= i < segments(s).len() ==> !(#[trigger] segments(s)[i]).contains('/'),
    decreases s.len(),
{
    if s.len() > 0 {
        let t = s.drop_last();
        law_segments_join(t);
        lemma_segments_nonempty(t);
        let before = segments(t);
        let all = segments(s);
        if s.last() == '/' {
            assert(all.drop_last() =~= before);
            assert(joined(all) =~= t.push('/'));
        } else {
            let grown = before.last().push(s.last());
            assert(all.drop_last() =~= before.drop_last());
            if before.len() == 1 {
                assert(joined(all) =~= t.push(s.last()));
            } else {
                assert(joined(all) =~= joined(before).push(s.last()));
            }
            assert forall|i: int| 0 <= i < all.len() implies !(#[trigger] all[i]).contains('/') by {
                if i == all.len() - 1 {
                    assert(all[i] == grown);
                    assert(!before[before.len() - 1].contains('/'));
                    if grown.contains('/') {
                        let k = choose|k: int| 0 <= k < grown.len() && grown[k] == '/';
                        assert(before.last()[k] == '/');
                    }
                } else {
                    assert(all[i] == before[i]);
                }
            }
        }
        assert(s =~= t.push(s.last()));
    }
}

/// The pieces of `s` between its slashes.
pub fn split_slashes(s: &str) -> (r: Vec<String>)
    ensures
        r.deep_view() == segments(s@),
{
    let chars = chars_of(s);
    let mut done: Vec<String> = Vec::new();
    let mut piece = String::new();
    let mut i: usize = 0;
    assert(done.deep_view().push(piece@) =~= segments(chars@.take(0)));
    while i < chars.len()
        invariant
            i <= chars@.len(),
            done.deep_view().push(piece@) == segments(chars@.take(i as int)),
        decreases chars@.len() - i,
    {
        let c = chars[i];
        let ghost before = done.deep_view().push(piece@);
        assert(chars@.take(i + 1).drop_last() =~= chars@.take(i as int));
        if c == '/' {
            done.push(piece);
            piece = String::new();
            assert(done.deep_view() =~= before);
        } else {
            piece.push(c);
            assert(before.drop_last() =~= done.deep_view());
        }
        i += 1;
    }
    let ghost init = done.deep_view();
    done.push(piece);
    assert(done.deep_view() =~= init.push(piece@));
    assert(chars@.take(chars@.len() as int) =~= s@);
    done
}

/// Where the last slash of `s` stands.
pub open spec fn last_slash(s: Seq<char>) -> Option<int>
    decreases s.len(),
{
    if s.len() == 0 {
        None
    } else if s.last() == '/' {
        Some(s.len() - 1)
    } else {
        last_slash(s.drop_last())
    }
}

/// What stands before the last slash of `s`; nothing, where there is none.
pub open spec fn parent(s: Seq<char>) -> Seq<char> {
    match last_slash(s) {
        Some(i) => s.take(i),
        None => Seq::empty(),
    }
}

/// What stands after the last slash of `s`; all of it, where there is none.
pub open spec fn basename(s: Seq<char>) -> Seq<char> {
    match last_slash(s) {
        Some(i) => s.skip(i + 1),
        None => s,
    }
}

/// Where the last slash stands, nothing after it is one.
proof fn lemma_last_slash(s: Seq<char>)
    ensures
        match last_slash(s) {
            Some(i) => 0 <= i < s.len() && s[i] == '/' && forall|k: int|
                i < k < s.len() ==> s[k] != '/',
            None => forall|k: int| 0 <= k < s.len() ==> s[k] != '/',
        },
    decreases s.len(),
{
    if s.len() > 0 && s.last() != '/' {
        lemma_last_slash(s.drop_last());
        assert(forall|k: int| 0 <= k < s.len() - 1 ==> s.drop_last()[k] == s[k]);
    }
}

/// What stands before the last slash, the slash and what stands after it are
/// the path again, and what stands after it holds no slash.
pub proof fn law_parent_and_basename(s: Seq<char>)
    ensures
        last_slash(s) is Some ==> parent(s).push('/') + basename(s) == s,
        last_slash(s) is None ==> parent(s).len() == 0 && basename(s) == s,
        !basename(s).contains('/'),
{
    lemma_last_slash(s);
    match last_slash(s) {
        Some(i) => {
            assert(parent(s).push('/') + basename(s) =~= s);
        },
        None => {},
    }
}

/// The name after the last slash does not depend on the folder in front.
pub proof fn law_basename_under(folder: Seq<char>, name: Seq<char>)
    ensures
        basename(folder + seq!['/'] + name) == basename(name),
    decreases name.len(),
{
    let path = folder + seq!['/'] + name;
    lemma_last_slash(path);
    lemma_last_slash(name);
    let shift = folder.len() + 1;
    assert(forall|k: int| 0 <= k < name.len() ==> #[trigger] path[k + shift] == name[k]);
    assert(path[folder.len() as int] == '/');
    match (last_slash(path), last_slash(name)) {
        (Some(i), Some(j)) => {
            assert(path[j + shift] == '/');
            if i > j + shift {
                assert(name[i - shift] == path[i]);
            }
            assert(i == j + shift);
            assert(path.skip(i + 1) =~= name.skip(j + 1));
        },
        (Some(i), None) => {
            if i > folder.len() {
                assert(name[i - shift] == path[i]);
            }
            assert(i == folder.len());
            assert(path.skip(i + 1) =~= name);
        },
        _ => {},
    }
}

/// `s` cut at its last slash: what stands before it and what stands after it.
pub fn split_parent(s: &str) -> (r: (String, String))
    ensures
        r.0@ == parent(s@),
        r.1@ == basename(s@),
{
    let chars = chars_of(s);
    let len = chars.len();
    let mut i: usize = len;
    assert(chars@.take(len as int) =~= s@);
    while i > 0
        invariant
            i <= len == chars@.len(),
            chars@ == s@,
            last_slash(chars@.take(i as int)) == last_slash(s@),
        decreases i,
    {
        assert(chars@.take(i as int).drop_last() =~= chars@.take(i - 1));
        if chars[i - 1] == '/' {
            return (slice_of(&chars, 0, i - 1), slice_of(&chars, i, len));
        }
        i -= 1;
    }
    (String::new(), s.to_owned())
}

/// `s` with each occurrence of `from`, taken from the left, replaced by `to`.
pub open spec fn replaced(s: Seq<char>, from: Seq<char>, to: Seq<char>) -> Seq<char>
    decreases s.len(),
{
    if from.len() == 0 || s.len() < from.len() {
        s
    } else if begins(s, from) {
        to + replaced(s.skip(from.len() as int), from, to)
    } else {
        seq![s[0]] + replaced(s.drop_first(), from, to)
    }
}

/// `s` with each occurrence of `from`, taken from the left, replaced by `to`.
pub fn replace_all(s: &str, from: &str, to: &str) -> (r: String)
    requires
        from@.len() > 0,
    ensures
        r@ == replaced(s@, from@, to@),
{
    let chars = chars_of(s);
    let wanted = chars_of(from);
    let mut out = String::new();
    let mut i: usize = 0;
    assert(chars@.skip(0) =~= s@);
    assert(out@ + replaced(chars@.skip(0), from@, to@) =~= replaced(s@, from@, to@));
    while wanted.len() <= chars.len() - i
        invariant
            i <= chars@.len(),
            wanted@ == from@,
            from@.len() > 0,
            out@ + replaced(chars@.skip(i as int), from@, to@) == replaced(s@, from@, to@),
        decreases chars@.len() - i,
    {
        let ghost rest = chars@.skip(i as int);
        let ghost seen = out@;
        if matches_at(&chars, &wanted, i) {
            assert(rest.subrange(0, from@.len() as int) =~= chars@.subrange(
                i as int,
                i + from@.len(),
            ));
            assert(rest.skip(from@.len() as int) =~= chars@.skip(i + from@.len()));
            out.append(to);
            i += wanted.len();
            assert(out@ + replaced(chars@.skip(i as int), from@, to@) =~= seen + replaced(
                rest,
                from@,
                to@,
            ));
        } else {
            assert(rest.subrange(0, from@.len() as int) =~= chars@.subrange(
                i as int,
                i + from@.len(),
            ));
            assert(rest.drop_first() =~= chars@.skip(i + 1));
            out.push(chars[i]);
            i += 1;
            assert(out@ + replaced(chars@.skip(i as int), from@, to@) =~= seen + replaced(
                rest,
                from@,
                to@,
            ));
        }
    }
    let tail = slice_of(&chars, i, chars.len());
    assert(tail@ =~= chars@.skip(i as int));
    out.append(tail.as_str());
    out
}

/// The character of a decimal digit.
pub open spec fn digit(d: nat) -> char {
    (48 + d) as char
}

/// `n` in decimal.
pub open spec fn decimal(n: nat) -> Seq<char>
    decreases n,
{
    if n < 10 {
        seq![digit(n)]
    } else {
        decimal(n / 10).push(digit(n % 10))
    }
}

/// `n` in decimal, with a zero in front where that is a single digit.
pub open spec fn two_digits(n: nat) -> Seq<char> {
    if n < 10 {
        seq!['0'] + decimal(n)
    } else {
        decimal(n)
    }
}

/// `n` in decimal.
pub fn to_decimal(n: u128) -> (r: String)
    ensures
        r@ == decimal(n as nat),
    decreases n,
{
    let mut out = if n < 10 {
        String::new()
    } else {
        to_decimal(n / 10)
    };
    let d = (48u8 + (n % 10) as u8) as char;
    out.push(d);
    out
}

/// `n` in decimal, with a zero in front where that is a single digit.
pub fn to_two_digits(n: u128) -> (r: String)
    ensures
        r@ == two_digits(n as nat),
{
    let mut out = String::new();
    if n < 10 {
        out.push('0');
    }
    out.append(to_decimal(n).as_str());
    out
}

/// `a`, `b` and `c`, one after the other.
pub fn join3(a: &str, b: &str, c: &str) -> (r: String)
    ensures
        r@ == a@ + b@ + c@,
{
    let mut out = a.to_owned();
    out.append(b);
    out.append(c);
    out
}

/// A string begins with another exactly where it is no shorter and has the same
/// characters in front.
pub proof fn law_begins_by_characters(s: Seq<char>, prefix: Seq<char>)
    ensures
        begins(s, prefix) <==> prefix.len() <= s.len() && forall|i: int|
            0 <= i < prefix.len() ==> #[trigger] s[i] == prefix[i],
{
    if begins(s, prefix) {
        assert forall|i: int| 0 <= i < prefix.len() implies #[trigger] s[i] == prefix[i] by {
            assert(s.subrange(0, prefix.len() as int)[i] == prefix[i]);
        }
    } else if prefix.len() <= s.len() && forall|i: int|
        0 <= i < prefix.len() ==> #[trigger] s[i] == prefix[i] {
        assert(s.subrange(0, prefix.len() as int) =~= prefix);
    }
}

/// A string holds another exactly where it is made of something, the other, and
/// something.
pub proof fn law_has_is_in_between(hay: Seq<char>, needle: Seq<char>)
    ensures
        has(hay, needle) <==> exists|a: Seq<char>, b: Seq<char>| hay == #[trigger] ((a + needle) + b),
{
    if has(hay, needle) {
        let i = choose|i: int| occurs_at(hay, needle, i);
        let a = hay.take(i);
        let b = hay.skip(i + needle.len());
        assert(hay =~= (a + needle) + b);
    }
    if exists|a: Seq<char>, b: Seq<char>| hay == #[trigger] ((a + needle) + b) {
        let (a, b) = choose|a: Seq<char>, b: Seq<char>| hay == #[trigger] ((a + needle) + b);
        law_holds_the_middle(a, needle, b);
    }
}

/// What stands in between is held.
pub proof fn law_holds_the_middle(a: Seq<char>, needle: Seq<char>, b: Seq<char>)
    ensures
        has((a + needle) + b, needle),
{
    let hay = (a + needle) + b;
    assert(hay.subrange(a.len() as int, (a.len() + needle.len()) as int) =~= needle);
    assert(occurs_at(hay, needle, a.len() as int));
}

/// Lower case moves the capital letters of ASCII to their small ones and leaves
/// everything else where it is.
pub proof fn law_lower_case(s: Seq<char>, i: int)
    requires
        0 <= i < s.len(),
    ensures
        lower_all(s).len() == s.len(),
        !('A' <= lower_all(s)[i] <= 'Z'),
        'A' <= s[i] <= 'Z' ==> lower_all(s)[i] as int == s[i] as int + ('a' as int - 'A' as int),
        !('A' <= s[i] <= 'Z') ==> lower_all(s)[i] == s[i],
{
}

/// All characters of `s` satisfy `p`.
pub open spec fn all_of(s: Seq<char>, p: spec_fn(char) -> bool) -> bool {
    forall|k: int| 0 <= k < s.len() ==> p(#[trigger] s[k])
}

/// `s` is made of `a`, `t` and `b`, where all of `a` and of `b` satisfies `p`.
pub open spec fn cut_from(
    t: Seq<char>,
    s: Seq<char>,
    a: Seq<char>,
    b: Seq<char>,
    p: spec_fn(char) -> bool,
) -> bool {
    s == a + t + b && all_of(a, p) && all_of(b, p)
}

/// Trimming takes off a front and an end that satisfy `p` throughout, and
/// nothing else.
pub proof fn law_trimmed_is_the_middle(s: Seq<char>, p: spec_fn(char) -> bool)
    ensures
        exists|a: Seq<char>, b: Seq<char>| cut_from(trimmed(s, p), s, a, b, p),
    decreases s.len(),
{
    let none = Seq::<char>::empty();
    let t = trimmed(s, p);
    if s.len() > 0 && p(s.first()) {
        law_trimmed_is_the_middle(s.drop_first(), p);
        let (a, b) = choose|a: Seq<char>, b: Seq<char>| cut_from(t, s.drop_first(), a, b, p);
        let front = seq![s.first()] + a;
        assert(s =~= seq![s.first()] + s.drop_first());
        assert(s =~= front + t + b);
        assert forall|k: int| 0 <= k < front.len() implies p(#[trigger] front[k]) by {
            if k > 0 {
                assert(front[k] == a[k - 1]);
            }
        }
        assert(cut_from(t, s, front, b, p));
    } else if s.len() > 0 && p(s.last()) {
        law_trimmed_is_the_middle(s.drop_last(), p);
        let (a, b) = choose|a: Seq<char>, b: Seq<char>| cut_from(t, s.drop_last(), a, b, p);
        let end = b.push(s.last());
        assert(s =~= s.drop_last().push(s.last()));
        assert(s =~= a + t + end);
        assert forall|k: int| 0 <= k < end.len() implies p(#[trigger] end[k]) by {
            if k < b.len() {
                assert(end[k] == b[k]);
            }
        }
        assert(cut_from(t, s, a, end, p));
    } else {
        assert(s =~= none + t + none);
        assert(cut_from(t, s, none, none, p));
    }
}

/// A bare path is the path without the slashes at its ends: neither end is one,
/// and only slashes are gone.
pub proof fn law_bare_path(s: Seq<char>)
    ensures
        exists|a: Seq<char>, b: Seq<char>|
            {
                &&& s == #[trigger] (a + bare(s) + b)
                &&& forall|k: int| 0 <= k < a.len() ==> #[trigger] a[k] == '/'
                &&& forall|k: int| 0 <= k < b.len() ==> #[trigger] b[k] == '/'
            },
        bare(s).len() > 0 ==> bare(s).first() != '/' && bare(s).last() != '/',
{
    law_trimmed_is_the_middle(s, slash());
    law_trimmed_once(s, slash());
    let (a, b) = choose|a: Seq<char>, b: Seq<char>| cut_from(bare(s), s, a, b, slash());
    assert forall|k: int| 0 <= k < a.len() implies #[trigger] a[k] == '/' by {
        assert(slash()(a[k]));
    }
    assert forall|k: int| 0 <= k < b.len() implies #[trigger] b[k] == '/' by {
        assert(slash()(b[k]));
    }
    assert(s == a + bare(s) + b);
}

/// A path without slashes at its ends is bare already.
pub proof fn law_bare_already(s: Seq<char>)
    requires
        s.len() > 0 ==> s.first() != '/' && s.last() != '/',
    ensures
        bare(s) == s,
{
}

/// A string is blank exactly where all of its characters are white space.
pub proof fn law_blank_throughout(s: Seq<char>)
    ensures
        all_blank(s) <==> forall|i: int| 0 <= i < s.len() ==> white_space(#[trigger] s[i]),
{
    let t = trimmed(s, blank());
    law_trimmed_is_the_middle(s, blank());
    law_trimmed_once(s, blank());
    let (a, b) = choose|a: Seq<char>, b: Seq<char>| cut_from(t, s, a, b, blank());
    if t.len() == 0 {
        assert forall|k: int| 0 <= k < s.len() implies white_space(#[trigger] s[k]) by {
            if k < a.len() {
                assert(blank()(a[k]));
            } else {
                assert(blank()(b[k - a.len()]));
            }
        }
    } else {
        assert(s[a.len() as int] == t.first());
        assert(!blank()(t.first()));
    }
}

/// A path has one piece more than it has slashes in between: pieces without a
/// slash that are put together by slashes are cut into the same pieces.
pub proof fn law_pieces_are_found_again(parts: Seq<Seq<char>>)
    requires
        parts.len() > 0,
        forall|i: int| 0 <= i < parts.len() ==> !(#[trigger] parts[i]).contains('/'),
    ensures
        segments(joined(parts)) == parts,
    decreases parts.len(),
{
    let last = parts.last();
    if parts.len() == 1 {
        assert(parts[0] == last);
        lemma_segments_of_end(Seq::empty(), last);
        assert(Seq::<char>::empty() + last =~= last);
        assert(segments(Seq::<char>::empty()) =~= seq![Seq::<char>::empty()]);
        assert(parts =~= seq![Seq::<char>::empty() + last]);
    } else {
        let front = parts.drop_last();
        assert forall|i: int| 0 <= i < front.len() implies !(#[trigger] front[i]).contains('/') by {
            assert(front[i] == parts[i]);
        }
        law_pieces_are_found_again(front);
        let head = joined(front).push('/');
        assert(head.drop_last() =~= joined(front));
        assert(segments(head) == front.push(Seq::<char>::empty()));
        assert(parts[parts.len() - 1] == last);
        lemma_segments_of_end(head, last);
        assert(parts =~= front.push(Seq::<char>::empty() + last));
    }
}

/// What holds no slash goes to the last piece.
proof fn lemma_segments_of_end(head: Seq<char>, end: Seq<char>)
    requires
        !end.contains('/'),
    ensures
        segments(head + end) == segments(head).drop_last().push(segments(head).last() + end),
    decreases end.len(),
{
    lemma_segments_nonempty(head);
    if end.len() == 0 {
        assert(head + end =~= head);
        assert(segments(head) =~= segments(head).drop_last().push(segments(head).last() + end));
    } else {
        let most = end.drop_last();
        assert(end.contains(end.last()));
        assert forall|c: char| most.contains(c) implies end.contains(c) by {
            let k = choose|k: int| 0 <= k < most.len() && most[k] == c;
            assert(end[k] == c);
        }
        lemma_segments_of_end(head, most);
        assert((head + end).drop_last() =~= head + most);
        let before = segments(head + most);
        assert(before.last() == segments(head).last() + most);
        assert(before.drop_last() =~= segments(head).drop_last());
        assert((segments(head).last() + most).push(end.last()) =~= segments(head).last() + end);
    }
}

/// What is cut apart at a slash: the pieces before it and the pieces after it.
pub proof fn law_segments_at_a_slash(a: Seq<char>, b: Seq<char>)
    ensures
        segments(a + seq!['/'] + b) == segments(a) + segments(b),
    decreases b.len(),
{
    let whole = a + seq!['/'] + b;
    lemma_segments_nonempty(b);
    lemma_segments_nonempty(a);
    if b.len() == 0 {
        assert(whole =~= a.push('/'));
        assert(whole.drop_last() =~= a);
        assert(segments(a) + segments(b) =~= segments(a).push(Seq::<char>::empty()));
    } else {
        let most = b.drop_last();
        law_segments_at_a_slash(a, most);
        lemma_segments_nonempty(most);
        assert(whole.drop_last() =~= a + seq!['/'] + most);
        let before = segments(a) + segments(most);
        assert(whole.last() == b.last());
        if b.last() == '/' {
            assert(before.push(Seq::<char>::empty()) =~= segments(a) + segments(b));
        } else {
            assert(before.last() == segments(most).last());
            assert(before.drop_last().push(before.last().push(b.last())) =~= segments(a)
                + segments(b));
        }
    }
}

/// Where nothing is found, nothing is replaced; otherwise the first place is,
/// and the rest is treated likewise.
pub proof fn law_replaced_from_the_left(s: Seq<char>, from: Seq<char>, to: Seq<char>, i: int)
    requires
        from.len() > 0,
    ensures
        !(has(s, from)) ==> replaced(s, from, to) == s,
        occurs_at(s, from, i) && (forall|k: int| 0 <= k < i ==> !occurs_at(s, from, k))
            ==> replaced(s, from, to) == s.take(i) + to + replaced(
            s.skip(i + from.len()),
            from,
            to,
        ),
    decreases s.len(),
{
    if s.len() >= from.len() {
        if begins(s, from) {
            assert(occurs_at(s, from, 0));
            if i == 0 {
                assert(s.take(0) + to =~= to);
            }
        } else {
            let t = s.drop_first();
            law_replaced_from_the_left(t, from, to, i - 1);
            assert forall|k: int| occurs_at(t, from, k) implies occurs_at(s, from, k + 1) by {
                assert(t.subrange(k, k + from.len()) =~= s.subrange(k + 1, k + 1 + from.len()));
            }
            if !(has(s, from)) {
                if has(t, from) {
                    let k = choose|k: int| occurs_at(t, from, k);
                    assert(occurs_at(s, from, k + 1));
                }
                assert(seq![s[0]] + t =~= s);
            }
            if occurs_at(s, from, i) && (forall|k: int| 0 <= k < i ==> !occurs_at(s, from, k)) {
                assert(i > 0);
                assert(t.subrange(i - 1, i - 1 + from.len()) =~= s.subrange(i, i + from.len()));
                assert forall|k: int| 0 <= k < i - 1 implies !occurs_at(t, from, k) by {
                    if occurs_at(t, from, k) {
                        assert(occurs_at(s, from, k + 1));
                    }
                }
                assert(t.skip(i - 1 + from.len()) =~= s.skip(i + from.len()));
                assert(seq![s[0]] + (t.take(i - 1) + to + replaced(
                    t.skip(i - 1 + from.len()),
                    from,
                    to,
                )) =~= s.take(i) + to + replaced(s.skip(i + from.len()), from, to));
            }
        }
    }
}

/// The number that decimal digits stand for.
pub open spec fn number(digits: Seq<char>) -> int
    decreases digits.len(),
{
    if digits.len() == 0 {
        0
    } else {
        10 * number(digits.drop_last()) + (digits.last() as int - '0' as int)
    }
}

/// A number in decimal is made of digits, stands for the number, and begins
/// with no needless zero.
pub proof fn law_decimal_stands_for_the_number(n: nat)
    ensures
        number(decimal(n)) == n,
        decimal(n).len() > 0,
        decimal(n)[0] == '0' ==> n == 0 && decimal(n).len() == 1,
        forall|i: int| 0 <= i < decimal(n).len() ==> '0' <= #[trigger] decimal(n)[i] <= '9',
    decreases n,
{
    reveal_with_fuel(number, 2);
    if n >= 10 {
        law_decimal_stands_for_the_number(n / 10);
        assert(decimal(n).drop_last() =~= decimal(n / 10));
    } else {
        assert(decimal(n).drop_last() =~= Seq::<char>::empty());
    }
}

/// Two digits are at least two, and stand for the number; a number that has two
/// digits already is spelled as ever.
pub proof fn law_two_digits(n: nat)
    ensures
        number(two_digits(n)) == n,
        two_digits(n).len() >= 2,
        n >= 10 ==> two_digits(n) == decimal(n),
        n < 100 ==> two_digits(n).len() == 2,
{
    law_decimal_stands_for_the_number(n);
    reveal_with_fuel(number, 3);
    reveal_with_fuel(decimal, 3);
    if n < 10 {
        assert(two_digits(n).drop_last() =~= seq!['0']);
        assert(seq!['0'].drop_last() =~= Seq::<char>::empty());
    }
}

/// A folder as a prefix ends with a slash, begins with the path, and is longer
/// by that slash alone, where the path had none at its end.
pub proof fn law_folder_prefix(path: Seq<char>)
    ensures
        as_folder(path).last() == '/',
        begins(as_folder(path), path),
        as_folder(path).len() == path.len() + (if path.len() > 0 && path[path.len() - 1] == '/' {
            0int
        } else {
            1int
        }),
{
    assert(as_folder(path).subrange(0, path.len() as int) =~= path);
}

/// A name without a slash, put under a folder: the folder is its parent, and
/// the name stands after the last slash. On its own it has no folder.
pub proof fn law_child_of_a_folder(folder: Seq<char>, name: Seq<char>)
    requires
        !name.contains('/'),
    ensures
        parent(folder + seq!['/'] + name) == folder,
        basename(folder + seq!['/'] + name) == name,
        parent(name).len() == 0,
        basename(name) == name,
{
    let path = folder + seq!['/'] + name;
    law_basename_under(folder, name);
    lemma_last_slash(name);
    lemma_last_slash(path);
    assert(path[folder.len() as int] == '/');
    match last_slash(name) {
        Some(i) => {
            assert(name.contains('/'));
        },
        None => {},
    }
    match last_slash(path) {
        Some(i) => {
            if i > folder.len() {
                assert(name[i - folder.len() - 1] == '/');
            }
            assert(i == folder.len());
            assert(path.take(i) =~= folder);
        },
        None => {},
    }
}

/// The name after the last slash is the last piece of the path, and what stands
/// before it are the other pieces.
pub proof fn law_basename_is_the_last_piece(s: Seq<char>)
    ensures
        segments(s).len() > 0,
        basename(s) == segments(s).last(),
        segments(s).len() > 1 ==> segments(parent(s)) == segments(s).drop_last(),
        segments(s).len() == 1 ==> parent(s).len() == 0,
{
    let name = basename(s);
    law_parent_and_basename(s);
    lemma_segments_nonempty(s);
    lemma_segments_of_end(Seq::empty(), name);
    assert(Seq::<char>::empty() + name =~= name);
    assert(segments(Seq::<char>::empty()) =~= seq![Seq::<char>::empty()]);
    assert(segments(name) =~= seq![name]);
    if last_slash(s) is Some {
        assert(parent(s).push('/') + name =~= parent(s) + seq!['/'] + name);
        law_segments_at_a_slash(parent(s), name);
        lemma_segments_nonempty(parent(s));
        assert(segments(s).drop_last() =~= segments(parent(s)));
    }
}

/// White space by its code points: the blanks and line ends of ASCII and
/// Latin-1, and the wider blanks and line ends. Nothing that is printed in ASCII
/// is among it.
pub proof fn law_white_space_by_code_points(c: char)
    ensures
        ({
            let n = c as int;
            white_space(c) <==> (9 <= n <= 13 || n == 32 || n == 133 || n == 160 || n == 5760
                || 8192 <= n <= 8202 || n == 8232 || n == 8233 || n == 8239 || n == 8287 || n
                == 12288)
        }),
        '!' <= c <= '~' ==> !white_space(c),
{
}

/// What is held in the middle is held in the whole.
pub proof fn law_held_in_the_whole(
    before: Seq<char>,
    middle: Seq<char>,
    after: Seq<char>,
    needle: Seq<char>,
)
    requires
        has(middle, needle),
    ensures
        has(before + middle + after, needle),
{
    let i = choose|i: int| occurs_at(middle, needle, i);
    let whole = before + middle + after;
    assert(whole.subrange(before.len() + i, before.len() + i + needle.len()) =~= middle.subrange(
        i,
        i + needle.len(),
    ));
    assert(occurs_at(whole, needle, before.len() + i));
}

/// A path that begins with something else than a slash is not bare of
/// everything.
pub proof fn law_not_all_slashes(s: Seq<char>)
    requires
        s.len() > 0,
        s.first() != '/',
    ensures
        bare(s).len() > 0,
        bare(s).first() == s.first(),
    decreases s.len(),
{
    if s.last() == '/' {
        assert(s.len() > 1);
        assert(s.drop_last().first() == s.first());
        law_not_all_slashes(s.drop_last());
    }
}

} // verus!
