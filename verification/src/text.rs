//! Character sequences: the text operations the beatmap grammar is built from.

use vstd::prelude::*;

verus! {

/// `String::push` of the standard library: the character is appended at the
/// end and the characters already there stay as they were.
pub assume_specification[ String::push ](s: &mut String, ch: char)
    ensures
        final(s)@ == old(s)@.push(ch),
;

/// The characters of a string slice, in order.
pub fn chars_of(s: &str) -> (chars: Vec<char>)
    ensures
        chars@ == s@,
{
    let mut chars: Vec<char> = Vec::new();
    for c in it: s.chars()
        invariant
            chars@ == it.seq().take(it.index()),
    {
        chars.push(c);
    }
    chars
}

/// A string made of the given characters, in order.
pub fn string_of(chars: &[char]) -> (s: String)
    ensures
        s@ == chars@,
{
    let mut s = String::new();
    let mut i: usize = 0;
    while i < chars.len()
        invariant
            i <= chars.len(),
            s@ == chars@.take(i as int),
        decreases chars.len() - i,
    {
        s.push(chars[i]);
        i += 1;
        assert(chars@.take(i as int) =~= chars@.take(i - 1).push(chars@[i - 1]));
    }
    assert(chars@.take(i as int) =~= chars@);
    s
}

/// Position of the first `c` in `s`, or the length of `s` where it holds none.
pub open spec fn find(s: Seq<char>, c: char) -> int
    decreases s.len(),
{
    if s.len() == 0 || s[0] == c {
        0
    } else {
        1 + find(s.drop_first(), c)
    }
}

/// `find` stays inside the sequence, no character before it is `c`, and the
/// character at it is.
pub proof fn lemma_find(s: Seq<char>, c: char)
    ensures
        0 <= find(s, c) <= s.len(),
        forall|i: int| 0 <= i < find(s, c) ==> s[i] != c,
        find(s, c) < s.len() ==> s[find(s, c)] == c,
        find(s, c) < s.len() <==> s.contains(c),
    decreases s.len(),
{
    if s.len() == 0 || s[0] == c {
        if s.len() > 0 {
            assert(s.contains(c));
        }
    } else {
        let t = s.drop_first();
        lemma_find(t, c);
        assert forall|i: int| 0 <= i < find(s, c) implies s[i] != c by {
            if i > 0 {
                assert(s[i] == t[i - 1]);
            }
        }
        if find(t, c) < t.len() {
            assert(s[find(s, c)] == t[find(t, c)]);
            assert(s.contains(c));
        }
        if s.contains(c) {
            let k = choose|k: int| 0 <= k < s.len() && s[k] == c;
            assert(t[k - 1] == c);
            assert(t.contains(c));
        }
    }
}

/// A position that holds `c` with no `c` before it is the one `find` gives;
/// so is the length, where no position holds `c`.
pub proof fn lemma_find_is(s: Seq<char>, c: char, k: int)
    requires
        0 <= k <= s.len(),
        forall|i: int| 0 <= i < k ==> s[i] != c,
        k < s.len() ==> s[k] == c,
    ensures
        find(s, c) == k,
{
    lemma_find(s, c);
}

/// Position of the first `c` in `s`, or the length of `s` where it holds none.
pub fn find_char(s: &[char], c: char) -> (at: usize)
    ensures
        at == find(s@, c),
{
    let mut i: usize = 0;
    while i < s.len() && s[i] != c
        invariant
            i <= s.len(),
            forall|j: int| 0 <= j < i ==> s@[j] != c,
        decreases s.len() - i,
    {
        i += 1;
    }
    proof {
        lemma_find_is(s@, c, i as int);
    }
    i
}

/// The pieces of `s` between occurrences of `sep`: one more piece than there
/// are separators, so a sequence without `sep` is its own single piece.
pub open spec fn split(s: Seq<char>, sep: char) -> Seq<Seq<char>>
    decreases s.len(),
{
    let at = find(s, sep);
    if 0 <= at < s.len() {
        seq![s.take(at)] + split(s.skip(at + 1), sep)
    } else {
        seq![s]
    }
}

/// What a vector of character vectors holds, as a sequence of sequences.
pub open spec fn pieces_view(pieces: Seq<Vec<char>>) -> Seq<Seq<char>> {
    Seq::new(pieces.len(), |i: int| pieces[i]@)
}

/// What a vector of strings holds, as a sequence of character sequences.
pub open spec fn strings_view(strings: Seq<String>) -> Seq<Seq<char>> {
    Seq::new(strings.len(), |i: int| strings[i]@)
}

/// A copy of the characters of `s` from `from` up to `to`.
pub fn copy_range(s: &[char], from: usize, to: usize) -> (piece: Vec<char>)
    requires
        from <= to <= s.len(),
    ensures
        piece@ == s@.subrange(from as int, to as int),
{
    let mut piece: Vec<char> = Vec::new();
    let mut i: usize = from;
    while i < to
        invariant
            from <= i <= to <= s.len(),
            piece@ == s@.subrange(from as int, i as int),
        decreases to - i,
    {
        piece.push(s[i]);
        i += 1;
        assert(s@.subrange(from as int, i as int) =~= s@.subrange(from as int, i - 1).push(
            s@[i - 1],
        ));
    }
    piece
}

/// Splits `s` at every `sep`.
pub fn split_chars(s: &[char], sep: char) -> (pieces: Vec<Vec<char>>)
    ensures
        pieces_view(pieces@) == split(s@, sep),
        pieces@.len() >= 1,
{
    let mut pieces: Vec<Vec<char>> = Vec::new();
    let mut start: usize = 0;
    let mut i: usize = 0;
    proof {
        assert(s@.skip(0) =~= s@);
        assert(pieces_view(pieces@) + split(s@, sep) =~= split(s@, sep));
    }
    while i < s.len()
        invariant
            start <= i <= s.len(),
            forall|j: int| start <= j < i ==> s@[j] != sep,
            split(s@, sep) == pieces_view(pieces@) + split(s@.skip(start as int), sep),
        decreases s.len() - i,
    {
        if s[i] == sep {
            let piece = copy_range(s, start, i);
            proof {
                let rest = s@.skip(start as int);
                lemma_find_is(rest, sep, i - start);
                assert(rest.take(i - start) =~= s@.subrange(start as int, i as int));
                assert(rest.skip(i - start + 1) =~= s@.skip(i + 1));
                assert(pieces_view(pieces@.push(piece)) =~= pieces_view(pieces@) + seq![piece@]);
            }
            pieces.push(piece);
            start = i + 1;
        }
        i += 1;
    }
    let piece = copy_range(s, start, i);
    proof {
        let rest = s@.skip(start as int);
        lemma_find_is(rest, sep, rest.len() as int);
        assert(rest =~= s@.subrange(start as int, i as int));
        assert(pieces_view(pieces@.push(piece)) =~= pieces_view(pieces@) + seq![piece@]);
    }
    pieces.push(piece);
    pieces
}

/// Whether `s` holds exactly the characters of `text`.
pub fn is_text(s: &[char], text: &str) -> (same: bool)
    ensures
        same == (s@ == text@),
{
    let mut i: usize = 0;
    for c in it: text.chars()
        invariant
            i == it.index(),
            i <= s.len(),
            it.seq() == text@,
            s@.take(i as int) == text@.take(i as int),
    {
        if i >= s.len() || s[i] != c {
            return false;
        }
        i += 1;
        assert(s@.take(i as int) =~= s@.take(i - 1).push(s@[i - 1]));
        assert(text@.take(i as int) =~= text@.take(i - 1).push(text@[i - 1]));
    }
    assert(text@.take(i as int) =~= text@);
    assert(s@.take(s@.len() as int) =~= s@);
    i == s.len()
}

/// The characters with the Unicode property `White_Space`.
pub open spec fn is_whitespace(c: char) -> bool {
    let n = c as u32;
    ||| 0x09 <= n <= 0x0D
    ||| n == 0x20
    ||| n == 0x85
    ||| n == 0xA0
    ||| n == 0x1680
    ||| 0x2000 <= n <= 0x200A
    ||| n == 0x2028
    ||| n == 0x2029
    ||| n == 0x202F
    ||| n == 0x205F
    ||| n == 0x3000
}

/// Whether `c` has the Unicode property `White_Space`.
pub fn char_is_whitespace(c: char) -> (white: bool)
    ensures
        white == is_whitespace(c),
{
    let n: u32 = c as u32;
    (0x09 <= n && n <= 0x0D) || n == 0x20 || n == 0x85 || n == 0xA0 || n == 0x1680 || (0x2000 <= n
        && n <= 0x200A) || n == 0x2028 || n == 0x2029 || n == 0x202F || n == 0x205F || n == 0x3000
}

/// `s` without the whitespace it begins with.
pub open spec fn trim_start(s: Seq<char>) -> Seq<char>
    decreases s.len(),
{
    if s.len() > 0 && is_whitespace(s.first()) {
        trim_start(s.drop_first())
    } else {
        s
    }
}

/// `s` without the whitespace it ends with.
pub open spec fn trim_end(s: Seq<char>) -> Seq<char>
    decreases s.len(),
{
    if s.len() > 0 && is_whitespace(s.last()) {
        trim_end(s.drop_last())
    } else {
        s
    }
}

/// `s` without the whitespace around it.
pub open spec fn trim(s: Seq<char>) -> Seq<char> {
    trim_end(trim_start(s))
}

/// A copy of `s` without the whitespace around it.
pub fn trim_chars(s: &[char]) -> (trimmed: Vec<char>)
    ensures
        trimmed@ == trim(s@),
{
    let mut from: usize = 0;
    proof {
        assert(s@.skip(0) =~= s@);
    }
    while from < s.len() && char_is_whitespace(s[from])
        invariant
            from <= s.len(),
            trim_start(s@) == trim_start(s@.skip(from as int)),
        decreases s.len() - from,
    {
        proof {
            assert(s@.skip(from as int).drop_first() =~= s@.skip(from + 1));
        }
        from += 1;
    }
    let mut to: usize = s.len();
    proof {
        assert(s@.skip(from as int) =~= s@.subrange(from as int, to as int));
    }
    while to > from && char_is_whitespace(s[to - 1])
        invariant
            from <= to <= s.len(),
            trim(s@) == trim_end(s@.subrange(from as int, to as int)),
        decreases to - from,
    {
        proof {
            assert(s@.subrange(from as int, to as int).drop_last() =~= s@.subrange(
                from as int,
                to - 1,
            ));
        }
        to -= 1;
    }
    copy_range(s, from, to)
}

/// `s` without any occurrence of `c`.
pub open spec fn without(s: Seq<char>, c: char) -> Seq<char>
    decreases s.len(),
{
    if s.len() == 0 {
        s
    } else if s.last() == c {
        without(s.drop_last(), c)
    } else {
        without(s.drop_last(), c).push(s.last())
    }
}

/// A copy of `s` without any occurrence of `c`.
pub fn remove_char(s: &[char], c: char) -> (kept: Vec<char>)
    ensures
        kept@ == without(s@, c),
{
    let mut kept: Vec<char> = Vec::new();
    let mut i: usize = 0;
    while i < s.len()
        invariant
            i <= s.len(),
            kept@ == without(s@.take(i as int), c),
        decreases s.len() - i,
    {
        proof {
            assert(s@.take(i + 1).drop_last() =~= s@.take(i as int));
        }
        if s[i] != c {
            kept.push(s[i]);
        }
        i += 1;
    }
    proof {
        assert(s@.take(i as int) =~= s@);
    }
    kept
}

/// `s` without the carriage return that it ends with, if it ends with one.
pub open spec fn strip_cr(s: Seq<char>) -> Seq<char> {
    if s.len() > 0 && s.last() == '\r' {
        s.drop_last()
    } else {
        s
    }
}

/// The lines of a text. A line ends at a line feed, or at a carriage return
/// directly followed by one; neither belongs to the line. The last line needs
/// no line ending, and a text that ends with one has no empty line after it.
pub open spec fn lines(text: Seq<char>) -> Seq<Seq<char>>
    decreases text.len(),
{
    let at = find(text, '\n');
    if text.len() == 0 {
        Seq::empty()
    } else if 0 <= at < text.len() {
        seq![strip_cr(text.take(at))] + lines(text.skip(at + 1))
    } else {
        seq![text]
    }
}

/// The lines of a text that hold at least one character, in order.
pub open spec fn content_lines(text: Seq<char>) -> Seq<Seq<char>> {
    lines(text).filter(|line: Seq<char>| line.len() > 0)
}

/// The content lines of a text are those of its first line followed by those
/// of the text after that line.
pub proof fn lemma_content_lines_unfold(text: Seq<char>)
    ensures
        content_lines(text) == ({
            let at = find(text, '\n');
            if text.len() == 0 {
                Seq::empty()
            } else if 0 <= at < text.len() {
                let line = strip_cr(text.take(at));
                let rest = content_lines(text.skip(at + 1));
                if line.len() > 0 {
                    seq![line] + rest
                } else {
                    rest
                }
            } else {
                seq![text]
            }
        }),
{
    let keep = |line: Seq<char>| line.len() > 0;
    let at = find(text, '\n');
    reveal_with_fuel(Seq::filter, 2);
    if text.len() == 0 {
    } else if 0 <= at < text.len() {
        let line = strip_cr(text.take(at));
        let rest = lines(text.skip(at + 1));
        Seq::filter_distributes_over_add(seq![line], rest, keep);
        assert(seq![line].drop_last() =~= Seq::<Seq<char>>::empty());
        if line.len() > 0 {
            assert(seq![line].filter(keep) =~= seq![line]);
        } else {
            assert(seq![line].filter(keep) =~= Seq::<Seq<char>>::empty());
            assert(seq![line].filter(keep) + rest.filter(keep) =~= rest.filter(keep));
        }
    } else {
        assert(seq![text].drop_last() =~= Seq::<Seq<char>>::empty());
        assert(seq![text].filter(keep) =~= seq![text]);
    }
}

/// The content lines of a text, each as a vector of its characters.
pub fn split_lines(text: &[char]) -> (found: Vec<Vec<char>>)
    ensures
        pieces_view(found@) == content_lines(text@),
{
    let mut found: Vec<Vec<char>> = Vec::new();
    let mut start: usize = 0;
    let mut i: usize = 0;
    proof {
        assert(text@.skip(0) =~= text@);
        assert(pieces_view(found@) + content_lines(text@) =~= content_lines(text@));
    }
    while i < text.len()
        invariant
            start <= i <= text.len(),
            forall|j: int| start <= j < i ==> text@[j] != '\n',
            content_lines(text@) == pieces_view(found@) + content_lines(
                text@.skip(start as int),
            ),
        decreases text.len() - i,
    {
        if text[i] == '\n' {
            let mut end: usize = i;
            if end > start && text[end - 1] == '\r' {
                end -= 1;
            }
            proof {
                let rest = text@.skip(start as int);
                lemma_find_is(rest, '\n', i - start);
                lemma_content_lines_unfold(rest);
                assert(rest.take(i - start) =~= text@.subrange(start as int, i as int));
                assert(rest.skip(i - start + 1) =~= text@.skip(i + 1));
                assert(strip_cr(rest.take(i - start)) =~= text@.subrange(
                    start as int,
                    end as int,
                ));
            }
            if end > start {
                let line = copy_range(text, start, end);
                proof {
                    assert(pieces_view(found@.push(line)) =~= pieces_view(found@) + seq![line@]);
                }
                found.push(line);
            }
            start = i + 1;
        }
        i += 1;
    }
    proof {
        let rest = text@.skip(start as int);
        lemma_find_is(rest, '\n', rest.len() as int);
        lemma_content_lines_unfold(rest);
        assert(rest =~= text@.subrange(start as int, i as int));
    }
    if start < i {
        let line = copy_range(text, start, i);
        proof {
            assert(pieces_view(found@.push(line)) =~= pieces_view(found@) + seq![line@]);
        }
        found.push(line);
    } else {
        proof {
            assert(pieces_view(found@) + Seq::<Seq<char>>::empty() =~= pieces_view(found@));
        }
    }
    found
}

/// The given pieces, each as a string.
pub fn strings_of(pieces: &Vec<Vec<char>>) -> (strings: Vec<String>)
    ensures
        strings_view(strings@) == pieces_view(pieces@),
{
    let mut strings: Vec<String> = Vec::new();
    let mut i: usize = 0;
    while i < pieces.len()
        invariant
            i <= pieces.len(),
            strings@.len() == i,
            forall|j: int| 0 <= j < i ==> strings@[j]@ == pieces@[j]@,
        decreases pieces.len() - i,
    {
        strings.push(string_of(pieces[i].as_slice()));
        i += 1;
    }
    assert(strings_view(strings@) =~= pieces_view(pieces@));
    strings
}

/// The pieces of `s` between occurrences of `sep`, each as a string.
pub fn split_text(s: &[char], sep: char) -> (strings: Vec<String>)
    ensures
        strings_view(strings@) == split(s@, sep),
{
    let pieces = split_chars(s, sep);
    strings_of(&pieces)
}

} // verus!
