//! Text utilities with exact specifications: splitting at a separator,
//! splitting into lines, joining, and decoding bytes.
use vstd::prelude::*;
use vstd::string::*;

verus! {

/// The pieces `s` splits into at every occurrence of `sep`, as `str::split`
/// with a `char` pattern yields them (empty pieces included, at least one).
pub open spec fn split_pieces(s: Seq<char>, sep: char) -> Seq<Seq<char>>
    decreases s.len(),
{
    if s.len() == 0 {
        seq![Seq::<char>::empty()]
    } else {
        let prev = split_pieces(s.drop_last(), sep);
        if s.last() == sep {
            prev.push(Seq::<char>::empty())
        } else {
            prev.update(prev.len() - 1, prev.last().push(s.last()))
        }
    }
}

/// Splitting never yields an empty list of pieces.
pub proof fn lemma_split_pieces_nonempty(s: Seq<char>, sep: char)
    ensures
        split_pieces(s, sep).len() >= 1,
    decreases s.len(),
{
    if s.len() > 0 {
        lemma_split_pieces_nonempty(s.drop_last(), sep);
    }
}

/// Splitting text that holds no separator gives the text itself.
pub proof fn lemma_split_without_separator(s: Seq<char>, sep: char)
    requires
        !s.contains(sep),
    ensures
        split_pieces(s, sep) == seq![s],
    decreases s.len(),
{
    if s.len() > 0 {
        assert(!s.drop_last().contains(sep)) by {
            if s.drop_last().contains(sep) {
                let k = choose|k: int| 0 <= k < s.drop_last().len() && s.drop_last()[k] == sep;
                assert(s[k] == sep);
            }
        }
        lemma_split_without_separator(s.drop_last(), sep);
        assert(s[s.len() - 1] != sep);
        assert(s.drop_last().push(s.last()) =~= s);
        assert(split_pieces(s, sep) =~= seq![s]);
    } else {
        assert(s =~= Seq::<char>::empty());
    }
}

/// Splitting at a separator between two texts gives the pieces of the
/// first followed by the pieces of the second.
pub proof fn lemma_split_at_separator(a: Seq<char>, b: Seq<char>, sep: char)
    ensures
        split_pieces(a + seq![sep] + b, sep) == split_pieces(a, sep) + split_pieces(b, sep),
    decreases b.len(),
{
    let s = a + seq![sep] + b;
    if b.len() == 0 {
        assert(s.drop_last() =~= a);
        assert(split_pieces(b, sep) =~= seq![Seq::<char>::empty()]);
        assert(split_pieces(s, sep) =~= split_pieces(a, sep) + split_pieces(b, sep));
    } else {
        lemma_split_at_separator(a, b.drop_last(), sep);
        lemma_split_pieces_nonempty(a, sep);
        lemma_split_pieces_nonempty(b.drop_last(), sep);
        assert(s.drop_last() =~= a + seq![sep] + b.drop_last());
        assert(s.last() == b.last());
        assert(split_pieces(s, sep) =~= split_pieces(a, sep) + split_pieces(b, sep));
    }
}

/// Push of a character to a growing string.
#[verifier::external_body]
fn push_char(s: &mut String, c: char)
    ensures
        final(s)@ == old(s)@.push(c),
{
    s.push(c);
}

/// Splits `s` at every `sep`, as `s.split(sep)` does.
pub fn split_on(s: &str, sep: char) -> (pieces: Vec<String>)
    ensures
        pieces@.map_values(|p: String| p@) == split_pieces(s@, sep),
{
    let mut pieces: Vec<String> = Vec::new();
    let mut current = String::new();
    let ghost mut seen: Seq<char> = Seq::empty();
    for c in it: s.chars()
        invariant
            seen == it.seq().take(it.index() as int),
            it.seq() == s@,
            pieces@.map_values(|p: String| p@).push(current@) == split_pieces(seen, sep),
    {
        proof {
            assert(seen.push(c).drop_last() == seen);
            lemma_split_pieces_nonempty(seen, sep);
        }
        if c == sep {
            let done = current;
            pieces.push(done);
            current = String::new();
        } else {
            push_char(&mut current, c);
        }
        proof {
            seen = seen.push(c);
        }
    }
    assert(seen =~= s@);
    let ghost before = pieces@;
    pieces.push(current);
    assert(pieces@.map_values(|p: String| p@) =~= before.map_values(|p: String| p@).push(current@));
    pieces
}

/// `line` without one trailing carriage return, if it has one.
pub open spec fn strip_cr(line: Seq<char>) -> Seq<char> {
    if line.len() > 0 && line.last() == '\r' {
        line.drop_last()
    } else {
        line
    }
}

/// The lines of `s` as `str::lines` yields them: pieces between line feeds,
/// each ended line without a trailing carriage return, and no empty piece
/// after a final line feed.
pub open spec fn text_lines(s: Seq<char>) -> Seq<Seq<char>> {
    let pieces = split_pieces(s, '\n');
    let ended = pieces.drop_last().map_values(|l: Seq<char>| strip_cr(l));
    if pieces.last().len() == 0 {
        ended
    } else {
        ended.push(pieces.last())
    }
}

/// `line` without one trailing carriage return.
fn without_cr(line: &String) -> (r: String)
    ensures
        r@ == strip_cr(line@),
{
    let s = line.as_str();
    let n = s.unicode_len();
    if n > 0 && s.get_char(n - 1) == '\r' {
        s.substring_char(0, n - 1).to_string()
    } else {
        s.to_string()
    }
}

/// Splits `s` into lines, as `s.lines()` does.
pub fn lines(s: &str) -> (r: Vec<String>)
    ensures
        r@.map_values(|p: String| p@) == text_lines(s@),
{
    let pieces = split_on(s, '\n');
    let ghost pv = pieces@.map_values(|p: String| p@);
    proof {
        lemma_split_pieces_nonempty(s@, '\n');
    }
    let last = pieces.len() - 1;
    let mut out: Vec<String> = Vec::new();
    let mut i: usize = 0;
    while i < last
        invariant
            last + 1 == pieces.len(),
            pv == pieces@.map_values(|p: String| p@),
            i <= last,
            out@.map_values(|p: String| p@) == pv.take(i as int).map_values(|l: Seq<char>| strip_cr(l)),
        decreases last - i,
    {
        let line = without_cr(&pieces[i]);
        let ghost before = out@;
        out.push(line);
        proof {
            assert(out@.map_values(|p: String| p@) =~= before.map_values(|p: String| p@).push(line@));
            assert(pv.take(i + 1) =~= pv.take(i as int).push(pv[i as int]));
        }
        i = i + 1;
    }
    assert(pv.take(last as int) =~= pv.drop_last());
    if pieces[last].as_str().unicode_len() > 0 {
        let tail = pieces[last].clone();
        let ghost before = out@;
        out.push(tail);
        assert(out@.map_values(|p: String| p@) =~= before.map_values(|p: String| p@).push(tail@));
    }
    out
}

/// The text of `parts` with `sep` between each two of them.
pub open spec fn seq_join(parts: Seq<Seq<char>>, sep: Seq<char>) -> Seq<char>
    decreases parts.len(),
{
    if parts.len() == 0 {
        Seq::empty()
    } else if parts.len() == 1 {
        parts[0]
    } else {
        seq_join(parts.drop_last(), sep) + sep + parts.last()
    }
}

/// Joining the pieces of a split with the separator gives back the text.
pub proof fn law_join_undoes_split(s: Seq<char>, sep: char)
    ensures
        seq_join(split_pieces(s, sep), seq![sep]) == s,
    decreases s.len(),
{
    if s.len() > 0 {
        let prev = split_pieces(s.drop_last(), sep);
        law_join_undoes_split(s.drop_last(), sep);
        lemma_split_pieces_nonempty(s.drop_last(), sep);
        if s.last() == sep {
            let q = prev.push(Seq::<char>::empty());
            assert(q.drop_last() =~= prev);
            assert(seq_join(q, seq![sep]) =~= s);
        } else {
            let q = prev.update(prev.len() - 1, prev.last().push(s.last()));
            assert(s.drop_last().push(s.last()) =~= s);
            if prev.len() == 1 {
                assert(seq_join(prev, seq![sep]) == prev[0]);
                assert(q.len() == 1);
                assert(seq_join(q, seq![sep]) == q[0]);
            } else {
                assert(q.drop_last() =~= prev.drop_last());
                assert(seq_join(q, seq![sep]) =~= s);
            }
        }
    } else {
        assert(s =~= Seq::<char>::empty());
        assert(split_pieces(s, sep) =~= seq![s]);
    }
}

/// Splitting the join of pieces that hold no separator gives back the
/// pieces.
pub proof fn law_split_undoes_join(parts: Seq<Seq<char>>, sep: char)
    requires
        parts.len() > 0,
        forall|i: int| 0 <= i < parts.len() ==> !(#[trigger] parts[i]).contains(sep),
    ensures
        split_pieces(seq_join(parts, seq![sep]), sep) == parts,
    decreases parts.len(),
{
    if parts.len() == 1 {
        lemma_split_without_separator(parts[0], sep);
        assert(seq![parts[0]] =~= parts);
    } else {
        let init = parts.drop_last();
        assert forall|i: int| 0 <= i < init.len() implies !(#[trigger] init[i]).contains(sep) by {
            assert(init[i] == parts[i]);
        }
        law_split_undoes_join(init, sep);
        lemma_split_at_separator(seq_join(init, seq![sep]), parts.last(), sep);
        assert(!parts[parts.len() - 1].contains(sep));
        lemma_split_without_separator(parts.last(), sep);
        assert(init + seq![parts.last()] =~= parts);
    }
}

/// Joins `parts` with `sep` between them, as `[String]::join` does.
pub fn join(parts: &Vec<String>, sep: &str) -> (r: String)
    ensures
        r@ == seq_join(parts@.map_values(|p: String| p@), sep@),
{
    let ghost pv = parts@.map_values(|p: String| p@);
    let mut r = String::new();
    let mut i: usize = 0;
    while i < parts.len()
        invariant
            pv == parts@.map_values(|p: String| p@),
            i <= parts.len(),
            r@ == seq_join(pv.take(i as int), sep@),
        decreases parts.len() - i,
    {
        assert(pv.take(i + 1).drop_last() =~= pv.take(i as int));
        if i > 0 {
            r.append(sep);
        }
        r.append(parts[i].as_str());
        i = i + 1;
    }
    assert(pv.take(parts.len() as int) =~= pv);
    r
}

/// Decodes `bytes` as UTF-8 with `std::str::from_utf8`: the result is
/// present exactly when the bytes are well-formed UTF-8, and then holds the
/// characters they encode (vstd's `valid_utf8` and `decode_utf8`).
#[verifier::external_body]
pub(crate) fn decode_utf8(bytes: &[u8]) -> (r: Option<String>)
    ensures
        r is Some <==> vstd::utf8::valid_utf8(bytes@),
        r matches Some(s) ==> s@ == vstd::utf8::decode_utf8(bytes@),
{
    match std::str::from_utf8(bytes) {
        Ok(s) => Some(s.to_string()),
        Err(_) => None,
    }
}

/// What the `Debug` formatting of a string (`format!("{:?}", s)`) gives for
/// the characters `s`: the text in double quotes, with escapes.
pub uninterp spec fn debug_quoted(s: Seq<char>) -> Seq<char>;

/// Formats `s` with `Debug`, as `format!("{:?}", s)` does; the result is
/// named by `debug_quoted`.
#[verifier::external_body]
pub(crate) fn debug_quote(s: &str) -> (r: String)
    ensures
        r@ == debug_quoted(s@),
{
    format!("{:?}", s)
}

} // verus!
