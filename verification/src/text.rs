use vstd::prelude::*;

verus! {

/// `String::push` appends one character to the end of the string.
pub assume_specification[ String::push ](text: &mut String, c: char)
    ensures
        final(text)@ == old(text)@.push(c),
;

/// The lowercase form of a text, as `str::to_lowercase` gives it: each character is
/// replaced by what Unicode's Lowercase property says of it, which may be none or
/// several characters.
pub uninterp spec fn lowercase(text: Seq<char>) -> Seq<char>;

/// `str::to_lowercase`: the result is a function of the characters alone.
#[verifier::external_body]
pub(crate) fn to_lowercase(text: &str) -> (lower: String)
    ensures
        lower@ == lowercase(text@),
{
    text.to_lowercase()
}

/// Whether `needle` stands in `text` at position `i`.
pub open spec fn occurs_at(text: Seq<char>, needle: Seq<char>, i: int) -> bool {
    0 <= i && i + needle.len() <= text.len() && text.subrange(i, i + needle.len()) == needle
}

/// Whether `needle` stands somewhere in `text`. The empty text stands in every text.
pub open spec fn has(text: Seq<char>, needle: Seq<char>) -> bool {
    exists|i: int| occurs_at(text, needle, i)
}

/// The pieces into which the separator cuts a text: each separator ends a piece and
/// begins the next, so a text with `n` separators has `n + 1` pieces, empty ones among
/// them.
pub open spec fn split(text: Seq<char>, separator: char) -> Seq<Seq<char>>
    decreases text.len(),
{
    if text.len() == 0 {
        seq![Seq::empty()]
    } else {
        let pieces = split(text.drop_last(), separator);
        if text.last() == separator {
            pieces.push(Seq::empty())
        } else {
            pieces.drop_last().push(pieces.last().push(text.last()))
        }
    }
}

/// A line without the carriage return that ends it, if one does.
pub open spec fn without_return(line: Seq<char>) -> Seq<char> {
    if line.len() > 0 && line.last() == '\r' {
        line.drop_last()
    } else {
        line
    }
}

/// The lines of a text. A line ends with a line feed, or with a carriage return and a
/// line feed; neither belongs to the line. What follows the last line feed is a line
/// too unless it is empty, and it keeps a carriage return at its end.
pub open spec fn lines(text: Seq<char>) -> Seq<Seq<char>> {
    let pieces = split(text, '\n');
    let ended = pieces.drop_last().map_values(|piece: Seq<char>| without_return(piece));
    if pieces.last().len() == 0 {
        ended
    } else {
        ended.push(pieces.last())
    }
}

/// What a list of character vectors holds.
pub open spec fn texts(pieces: Seq<Vec<char>>) -> Seq<Seq<char>> {
    pieces.map_values(|piece: Vec<char>| piece@)
}

/// What a list of strings holds.
pub open spec fn strings(list: Seq<String>) -> Seq<Seq<char>> {
    list.map_values(|text: String| text@)
}

/// There is always a piece.
pub proof fn lemma_split_is_not_empty(text: Seq<char>, separator: char)
    ensures
        split(text, separator).len() >= 1,
    decreases text.len(),
{
    if text.len() > 0 {
        lemma_split_is_not_empty(text.drop_last(), separator);
    }
}

/// The characters of a string, one by one.
pub fn chars_of(text: &str) -> (chars: Vec<char>)
    ensures
        chars@ == text@,
{
    let mut chars: Vec<char> = Vec::new();
    for c in it: text.chars()
        invariant
            chars@ == it.seq().take(it.index() as int),
            it.seq() == text@,
    {
        chars.push(c);
    }
    chars
}

/// The string made of the characters from `from` up to `to`.
pub(crate) fn string_of(chars: &Vec<char>, from: usize, to: usize) -> (text: String)
    requires
        from <= to <= chars.len(),
    ensures
        text@ == chars@.subrange(from as int, to as int),
{
    let mut text = String::new();
    let mut i = from;
    while i < to
        invariant
            from <= i <= to <= chars.len(),
            text@ == chars@.subrange(from as int, i as int),
        decreases to - i,
    {
        text.push(chars[i]);
        i += 1;
    }
    text
}

/// The characters from `from` up to `to`.
pub(crate) fn slice_of(chars: &Vec<char>, from: usize, to: usize) -> (piece: Vec<char>)
    requires
        from <= to <= chars.len(),
    ensures
        piece@ == chars@.subrange(from as int, to as int),
{
    let mut piece: Vec<char> = Vec::new();
    let mut i = from;
    while i < to
        invariant
            from <= i <= to <= chars.len(),
            piece@ == chars@.subrange(from as int, i as int),
        decreases to - i,
    {
        piece.push(chars[i]);
        i += 1;
    }
    piece
}

/// Whether two strings hold the same characters.
pub fn same(a: &str, b: &str) -> (equal: bool)
    ensures
        equal == (a@ == b@),
{
    a.to_owned() == b.to_owned()
}

/// Whether two character vectors hold the same characters.
pub fn equal(a: &Vec<char>, b: &Vec<char>) -> (same: bool)
    ensures
        same == (a@ == b@),
{
    if a.len() != b.len() {
        return false;
    }
    let mut i: usize = 0;
    while i < a.len()
        invariant
            i <= a.len(),
            a.len() == b.len(),
            a@.take(i as int) == b@.take(i as int),
        decreases a.len() - i,
    {
        if a[i] != b[i] {
            return false;
        }
        i += 1;
        assert(a@.take(i as int) == a@.take(i - 1).push(a@[i - 1]));
        assert(b@.take(i as int) == b@.take(i - 1).push(b@[i - 1]));
    }
    assert(a@.take(i as int) == a@);
    assert(b@.take(i as int) == b@);
    true
}

/// Whether `needle` stands in `text` at position `i`.
pub(crate) fn stands_at(text: &Vec<char>, needle: &Vec<char>, i: usize) -> (found: bool)
    requires
        i + needle.len() <= text.len(),
    ensures
        found == occurs_at(text@, needle@, i as int),
{
    let mut j: usize = 0;
    while j < needle.len()
        invariant
            j <= needle.len(),
            i + needle.len() <= text.len(),
            text@.subrange(i as int, i + j) == needle@.take(j as int),
        decreases needle.len() - j,
    {
        if text[i + j] != needle[j] {
            assert(text@.subrange(i as int, i + needle.len())[j as int] != needle@[j as int]);
            return false;
        }
        j += 1;
        assert(text@.subrange(i as int, i + j) == text@.subrange(i as int, i + j - 1).push(
            text@[i + j - 1],
        ));
        assert(needle@.take(j as int) == needle@.take(j - 1).push(needle@[j - 1]));
    }
    assert(needle@.take(j as int) == needle@);
    true
}

/// Whether `needle` stands somewhere in `text`.
pub fn contains(text: &Vec<char>, needle: &Vec<char>) -> (found: bool)
    ensures
        found == has(text@, needle@),
{
    if needle.len() > text.len() {
        return false;
    }
    let last = text.len() - needle.len();
    let mut i: usize = 0;
    while i < last
        invariant
            i <= last,
            last == text.len() - needle.len(),
            forall|k: int| 0 <= k < i ==> !occurs_at(text@, needle@, k),
        decreases last - i,
    {
        if stands_at(text, needle, i) {
            return true;
        }
        i += 1;
    }
    stands_at(text, needle, last)
}

/// The pieces into which the separator cuts the characters.
pub fn split_chars(chars: &Vec<char>, separator: char) -> (pieces: Vec<Vec<char>>)
    ensures
        texts(pieces@) == split(chars@, separator),
{
    let mut pieces: Vec<Vec<char>> = Vec::new();
    let mut start: usize = 0;
    let mut i: usize = 0;
    while i < chars.len()
        invariant
            start <= i <= chars.len(),
            split(chars@.take(i as int), separator).len() >= 1,
            texts(pieces@) == split(chars@.take(i as int), separator).drop_last(),
            chars@.subrange(start as int, i as int) == split(
                chars@.take(i as int),
                separator,
            ).last(),
        decreases chars.len() - i,
    {
        let ghost before = split(chars@.take(i as int), separator);
        proof {
            assert(chars@.take(i + 1).drop_last() == chars@.take(i as int));
            lemma_split_is_not_empty(chars@.take(i + 1), separator);
        }
        if chars[i] == separator {
            let piece = slice_of(chars, start, i);
            let ghost old_pieces = pieces@;
            pieces.push(piece);
            start = i + 1;
            proof {
                assert(texts(pieces@) == texts(old_pieces).push(before.last()));
                assert(texts(old_pieces).push(before.last()) == before);
                assert(before.push(Seq::<char>::empty()).drop_last() == before);
                assert(chars@.subrange(start as int, i + 1) == Seq::<char>::empty());
            }
        } else {
            proof {
                assert(chars@.subrange(start as int, i + 1) == chars@.subrange(
                    start as int,
                    i as int,
                ).push(chars@[i as int]));
                assert(before.drop_last().push(before.last().push(chars@[i as int])).drop_last()
                    == before.drop_last());
            }
        }
        i += 1;
    }
    let ghost before = split(chars@, separator);
    proof {
        assert(chars@.take(i as int) == chars@);
    }
    let piece = slice_of(chars, start, i);
    let ghost old_pieces = pieces@;
    pieces.push(piece);
    proof {
        assert(texts(pieces@) == texts(old_pieces).push(before.last()));
        assert(texts(old_pieces).push(before.last()) == before);
    }
    pieces
}

/// The lines of a text.
pub fn lines_of(chars: &Vec<char>) -> (found: Vec<Vec<char>>)
    ensures
        texts(found@) == lines(chars@),
{
    let pieces = split_chars(chars, '\n');
    proof {
        lemma_split_is_not_empty(chars@, '\n');
    }
    let ghost all = split(chars@, '\n');
    let ghost ended = all.drop_last().map_values(|piece: Seq<char>| without_return(piece));
    let mut found: Vec<Vec<char>> = Vec::new();
    let last = pieces.len() - 1;
    let mut i: usize = 0;
    while i < last
        invariant
            i <= last,
            last == pieces.len() - 1,
            texts(pieces@) == all,
            ended == all.drop_last().map_values(|piece: Seq<char>| without_return(piece)),
            texts(found@) == ended.take(i as int),
        decreases last - i,
    {
        let piece = &pieces[i];
        assert(piece@ == texts(pieces@)[i as int]);
        let end = if piece.len() > 0 && piece[piece.len() - 1] == '\r' {
            piece.len() - 1
        } else {
            piece.len()
        };
        let line = slice_of(piece, 0, end);
        let ghost old_found = found@;
        found.push(line);
        proof {
            assert(line@ == without_return(piece@));
            assert(texts(found@) == texts(old_found).push(line@));
            assert(ended.take(i + 1) == ended.take(i as int).push(ended[i as int]));
        }
        i += 1;
    }
    assert(ended.take(i as int) == ended);
    let piece = &pieces[last];
    assert(piece@ == texts(pieces@)[last as int]);
    if piece.len() > 0 {
        let line = slice_of(piece, 0, piece.len());
        let ghost old_found = found@;
        found.push(line);
        proof {
            assert(line@ == piece@);
            assert(texts(found@) == texts(old_found).push(line@));
        }
    }
    found
}

} // verus!
