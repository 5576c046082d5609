//! Request headers typed as `key:value` pairs separated by commas.

use vstd::prelude::*;
use vstd::string::*;
use crate::kv::{KeyValues, pairs_map, pairs_view};
use crate::utils::push_char;

verus! {

/// The pieces of `s` between the occurrences of `sep`, as `str::split` gives them.
pub open spec fn split_on(s: Seq<char>, sep: char) -> Seq<Seq<char>>
    decreases s.len(),
{
    if s.len() == 0 {
        seq![Seq::empty()]
    } else {
        let r = split_on(s.drop_last(), sep);
        if s.last() == sep {
            r.push(Seq::empty())
        } else {
            r.update(r.len() - 1, r.last().push(s.last()))
        }
    }
}

pub proof fn lemma_split_nonempty(s: Seq<char>, sep: char)
    ensures
        split_on(s, sep).len() >= 1,
    decreases s.len(),
{
    if s.len() > 0 {
        lemma_split_nonempty(s.drop_last(), sep);
    }
}

/// Splits `s` at every `sep`.
pub fn split_text(s: &str, sep: char) -> (r: Vec<String>)
    ensures
        r@.map_values(|p: String| p@) == split_on(s@, sep),
{
    let count = s.unicode_len();
    let mut pieces: Vec<String> = Vec::new();
    let mut current = String::new();
    let mut i: usize = 0;
    while i < count
        invariant
            i <= count,
            count == s@.len(),
            pieces@.map_values(|p: String| p@).push(current@) == split_on(s@.take(i as int), sep),
        decreases count - i,
    {
        let c = s.get_char(i);
        let ghost before = pieces@.map_values(|p: String| p@);
        let ghost cur = current@;
        proof {
            assert(s@.take(i + 1).drop_last() =~= s@.take(i as int));
            assert(s@.take(i + 1).last() == c);
            lemma_split_nonempty(s@.take(i as int), sep);
        }
        if c == sep {
            let mut done = String::new();
            std::mem::swap(&mut done, &mut current);
            pieces.push(done);
            assert(pieces@.map_values(|p: String| p@) =~= before.push(cur));
            assert(pieces@.map_values(|p: String| p@).push(current@) =~= split_on(s@.take(i + 1), sep));
        } else {
            push_char(&mut current, c);
            assert(pieces@.map_values(|p: String| p@).push(current@) =~= before.push(cur).update(before.len() as int, cur.push(c)));
        }
        i += 1;
    }
    assert(s@.take(count as int) =~= s@);
    let ghost before = pieces@.map_values(|p: String| p@);
    pieces.push(current);
    assert(pieces@.map_values(|p: String| p@) =~= before.push(current@));
    pieces
}

/// The header that a piece `key:value` stands for: what comes before the
/// first `:` and what comes between it and the next `:`; none without a `:`.
pub open spec fn header_entry(piece: Seq<char>) -> Option<(Seq<char>, Seq<char>)> {
    let parts = split_on(piece, ':');
    if parts.len() >= 2 {
        Some((parts[0], parts[1]))
    } else {
        None
    }
}

/// The headers of a text, in order; `None` when a piece is not a header.
/// With `skip_empty`, empty pieces are left out rather than refused.
pub open spec fn headers_of_pieces(pieces: Seq<Seq<char>>, skip_empty: bool) -> Option<Seq<(Seq<char>, Seq<char>)>>
    decreases pieces.len(),
{
    if pieces.len() == 0 {
        Some(Seq::empty())
    } else {
        match headers_of_pieces(pieces.drop_last(), skip_empty) {
            None => None,
            Some(prev) => {
                if skip_empty && pieces.last().len() == 0 {
                    Some(prev)
                } else {
                    match header_entry(pieces.last()) {
                        Some(e) => Some(prev.push(e)),
                        None => None,
                    }
                }
            },
        }
    }
}

pub open spec fn header_text_pairs(text: Seq<char>, skip_empty: bool) -> Option<Seq<(Seq<char>, Seq<char>)>> {
    headers_of_pieces(split_on(text, ','), skip_empty)
}

/// Once a prefix of the pieces is refused, every longer prefix is.
proof fn lemma_headers_none_extends(ps: Seq<Seq<char>>, k: int, skip_empty: bool)
    requires
        0 <= k <= ps.len(),
        headers_of_pieces(ps.take(k), skip_empty) is None,
    ensures
        headers_of_pieces(ps.take(ps.len() as int), skip_empty) is None,
    decreases ps.len() - k,
{
    if k < ps.len() {
        assert(ps.take(k + 1).drop_last() =~= ps.take(k));
        lemma_headers_none_extends(ps, k + 1, skip_empty);
    }
}

/// A piece of header text without a `:`.
#[derive(Debug, Clone, Copy, PartialEq, Eq, Structural)]
pub enum HeaderError {
    Invalid,
}

/// The header pairs typed in `text`, in order: pieces separated by `,`,
/// each `key:value`. With `skip_empty` an empty piece is left out;
/// otherwise it is refused, as is any piece without a `:`.
pub fn parse_header_pairs(text: &str, skip_empty: bool) -> (r: Result<Vec<(String, String)>, HeaderError>)
    ensures
        match header_text_pairs(text@, skip_empty) {
            Some(p) => r matches Ok(v) && pairs_view(v@) == p,
            None => r is Err,
        },
{
    let pieces = split_text(text, ',');
    let ghost ps = pieces@.map_values(|p: String| p@);
    let mut out: Vec<(String, String)> = Vec::new();
    let mut i: usize = 0;
    while i < pieces.len()
        invariant
            i <= pieces.len(),
            ps == pieces@.map_values(|p: String| p@),
            ps == split_on(text@, ','),
            headers_of_pieces(ps.take(i as int), skip_empty) == Some(pairs_view(out@)),
        decreases pieces.len() - i,
    {
        assert(ps.take(i + 1).drop_last() =~= ps.take(i as int));
        assert(ps.take(i + 1).last() == pieces@[i as int]@);
        let piece = pieces[i].as_str();
        if skip_empty && piece.is_empty() {
        } else {
            let parts = split_text(piece, ':');
            proof {
                lemma_split_nonempty(piece@, ':');
            }
            if parts.len() >= 2 {
                let ghost before = out@;
                out.push((parts[0].clone(), parts[1].clone()));
                assert(pairs_view(out@) =~= pairs_view(before).push((parts@[0]@, parts@[1]@)));
            } else {
                proof {
                    assert(split_on(piece@, ':').len() == parts@.len());
                    assert(header_entry(ps.take(i + 1).last()) is None);
                    assert(headers_of_pieces(ps.take(i + 1), skip_empty) is None);
                    lemma_headers_none_extends(ps, i + 1, skip_empty);
                    assert(ps.take(ps.len() as int) =~= ps);
                    assert(ps == split_on(text@, ','));
                    assert(header_text_pairs(text@, skip_empty) is None);
                }
                return Err(HeaderError::Invalid);
            }
        }
        i += 1;
    }
    assert(ps.take(pieces.len() as int) =~= ps);
    Ok(out)
}

/// The headers typed in `text`, a later header of the same key winning.
pub fn parse_headers(text: &str, skip_empty: bool) -> (r: Result<KeyValues, HeaderError>)
    ensures
        match header_text_pairs(text@, skip_empty) {
            Some(p) => r matches Ok(kv) && kv@ == pairs_map(p),
            None => r is Err,
        },
{
    match parse_header_pairs(text, skip_empty) {
        Ok(pairs) => Ok(KeyValues::from_pairs(&pairs)),
        Err(e) => Err(e),
    }
}

/// One header as `key:value`.
pub open spec fn entry_text(e: (Seq<char>, Seq<char>)) -> Seq<char> {
    e.0 + seq![':'] + e.1
}

/// Headers written as `key:value` pieces joined by `,`.
pub open spec fn headers_text(s: Seq<(Seq<char>, Seq<char>)>) -> Seq<char>
    decreases s.len(),
{
    if s.len() == 0 {
        Seq::empty()
    } else if s.len() == 1 {
        entry_text(s[0])
    } else {
        headers_text(s.drop_last()) + seq![','] + entry_text(s.last())
    }
}

/// The headers as `key:value` pieces joined by `,`, in their stored order.
pub fn format_headers(headers: &KeyValues) -> (r: String)
    ensures
        r@ == headers_text(headers.pairs()),
{
    let entries = headers.entries();
    let ghost es = pairs_view(entries@);
    let mut out = String::new();
    let mut i: usize = 0;
    while i < entries.len()
        invariant
            i <= entries.len(),
            es == pairs_view(entries@),
            out@ == headers_text(es.take(i as int)),
        decreases entries.len() - i,
    {
        assert(es.take(i + 1).drop_last() =~= es.take(i as int));
        assert(es[i as int] == (entries@[i as int].0@, entries@[i as int].1@));
        if i > 0 {
            push_char(&mut out, ',');
        }
        out.append(entries[i].0.as_str());
        push_char(&mut out, ':');
        out.append(entries[i].1.as_str());
        proof {
            if i == 0 {
                assert(out@ =~= entry_text(es[0]));
                assert(es.take(1)[0] == es[0]);
            } else {
                assert(out@ =~= headers_text(es.take(i as int)) + seq![','] + entry_text(es[i as int]));
            }
        }
        i += 1;
    }
    assert(es.take(entries.len() as int) =~= es);
    out
}

/// Splitting around a separator splits each side.
pub proof fn lemma_split_concat(x: Seq<char>, y: Seq<char>, sep: char)
    ensures
        split_on(x + seq![sep] + y, sep) == split_on(x, sep) + split_on(y, sep),
    decreases y.len(),
{
    let z = x + seq![sep] + y;
    lemma_split_nonempty(x, sep);
    if y.len() == 0 {
        assert(z.drop_last() =~= x);
        assert(split_on(y, sep) =~= seq![Seq::<char>::empty()]);
        assert(split_on(x, sep).push(Seq::empty()) =~= split_on(x, sep) + split_on(y, sep));
    } else {
        let y2 = y.drop_last();
        assert(z.drop_last() =~= x + seq![sep] + y2);
        lemma_split_concat(x, y2, sep);
        lemma_split_nonempty(y2, sep);
        let a = split_on(x, sep);
        let b = split_on(y2, sep);
        if y.last() == sep {
            assert((a + b).push(Seq::empty()) =~= a + b.push(Seq::empty()));
        } else {
            assert((a + b).update((a + b).len() - 1, (a + b).last().push(y.last()))
                =~= a + b.update(b.len() - 1, b.last().push(y.last())));
        }
    }
}

/// A text without the separator is one piece.
pub proof fn lemma_split_plain(t: Seq<char>, sep: char)
    requires
        !t.contains(sep),
    ensures
        split_on(t, sep) == seq![t],
    decreases t.len(),
{
    if t.len() > 0 {
        assert(!t.drop_last().contains(sep)) by {
            if t.drop_last().contains(sep) {
                let i = choose|i: int| 0 <= i < t.drop_last().len() && t.drop_last()[i] == sep;
                assert(t[i] == sep);
            }
        }
        lemma_split_plain(t.drop_last(), sep);
        assert(t.last() != sep) by {
            assert(t[t.len() - 1] == t.last());
        }
        assert(t.drop_last().push(t.last()) =~= t);
        assert(seq![t.drop_last()].update(0, t) =~= seq![t]);
    } else {
        assert(t =~= Seq::<char>::empty());
    }
}

/// A key or a value that can be written in header text: it holds neither
/// `,` nor `:`.
pub open spec fn plain_header_text(t: Seq<char>) -> bool {
    !t.contains(',') && !t.contains(':')
}

/// Whether all keys and values of the pairs can be written in header text.
pub open spec fn plain_pairs(s: Seq<(Seq<char>, Seq<char>)>) -> bool {
    forall|i: int| 0 <= i < s.len() ==> plain_header_text((#[trigger] s[i]).0) && plain_header_text(s[i].1)
}

/// A written header holds no `,`, and splits at `:` into its key and value.
proof fn lemma_entry_pieces(e: (Seq<char>, Seq<char>))
    requires
        plain_header_text(e.0),
        plain_header_text(e.1),
    ensures
        !entry_text(e).contains(','),
        split_on(entry_text(e), ':') == seq![e.0, e.1],
        header_entry(entry_text(e)) == Some(e),
{
    let t = entry_text(e);
    assert(!t.contains(',')) by {
        if t.contains(',') {
            let i = choose|i: int| 0 <= i < t.len() && t[i] == ',';
            if i < e.0.len() {
                assert(e.0[i] == ',');
            } else if i > e.0.len() {
                assert(e.1[i - e.0.len() - 1] == ',');
            }
        }
    }
    lemma_split_concat(e.0, e.1, ':');
    lemma_split_plain(e.0, ':');
    lemma_split_plain(e.1, ':');
    assert(seq![e.0] + seq![e.1] =~= seq![e.0, e.1]);
}

/// Written headers split at `,` into the written pairs.
proof fn lemma_headers_pieces(s: Seq<(Seq<char>, Seq<char>)>)
    requires
        s.len() > 0,
        plain_pairs(s),
    ensures
        split_on(headers_text(s), ',') == s.map_values(|e: (Seq<char>, Seq<char>)| entry_text(e)),
    decreases s.len(),
{
    let last = s.last();
    assert(plain_header_text(s[s.len() - 1].0) && plain_header_text(s[s.len() - 1].1));
    lemma_entry_pieces(last);
    if s.len() == 1 {
        lemma_split_plain(entry_text(s[0]), ',');
        assert(s.map_values(|e: (Seq<char>, Seq<char>)| entry_text(e)) =~= seq![entry_text(s[0])]);
    } else {
        let s2 = s.drop_last();
        assert(plain_pairs(s2)) by {
            assert forall|i: int| 0 <= i < s2.len() implies plain_header_text((#[trigger] s2[i]).0) && plain_header_text(s2[i].1) by {
                assert(s2[i] == s[i]);
            }
        }
        lemma_headers_pieces(s2);
        lemma_split_concat(headers_text(s2), entry_text(last), ',');
        lemma_split_plain(entry_text(last), ',');
        assert(s.map_values(|e: (Seq<char>, Seq<char>)| entry_text(e))
            =~= s2.map_values(|e: (Seq<char>, Seq<char>)| entry_text(e)) + seq![entry_text(last)]);
    }
}

/// Reading written pairs gives them back.
proof fn lemma_pieces_headers(s: Seq<(Seq<char>, Seq<char>)>, skip_empty: bool)
    requires
        plain_pairs(s),
    ensures
        headers_of_pieces(s.map_values(|e: (Seq<char>, Seq<char>)| entry_text(e)), skip_empty) == Some(s),
    decreases s.len(),
{
    let ps = s.map_values(|e: (Seq<char>, Seq<char>)| entry_text(e));
    if s.len() > 0 {
        let s2 = s.drop_last();
        assert(plain_pairs(s2)) by {
            assert forall|i: int| 0 <= i < s2.len() implies plain_header_text((#[trigger] s2[i]).0) && plain_header_text(s2[i].1) by {
                assert(s2[i] == s[i]);
            }
        }
        lemma_pieces_headers(s2, skip_empty);
        assert(ps.drop_last() =~= s2.map_values(|e: (Seq<char>, Seq<char>)| entry_text(e)));
        assert(plain_header_text(s[s.len() - 1].0) && plain_header_text(s[s.len() - 1].1));
        lemma_entry_pieces(s.last());
        assert(ps.last() == entry_text(s.last()));
        assert(s2.push(s.last()) =~= s);
    }
}

/// Header pairs written as text and read back are the same pairs, when no
/// key or value holds `,` or `:`; an empty list reads back only when empty
/// pieces are skipped.
pub proof fn law_headers_round_trip(s: Seq<(Seq<char>, Seq<char>)>, skip_empty: bool)
    requires
        plain_pairs(s),
        skip_empty || s.len() > 0,
    ensures
        header_text_pairs(headers_text(s), skip_empty) == Some(s),
{
    if s.len() == 0 {
        assert(s =~= Seq::<(Seq<char>, Seq<char>)>::empty());
        assert(headers_text(s) =~= Seq::<char>::empty());
        let pieces = split_on(Seq::<char>::empty(), ',');
        assert(pieces =~= seq![Seq::<char>::empty()]);
        assert(pieces.drop_last() =~= Seq::<Seq<char>>::empty());
        assert(headers_of_pieces(pieces.drop_last(), skip_empty) == Some(Seq::<(Seq<char>, Seq<char>)>::empty()));
    } else {
        lemma_headers_pieces(s);
        lemma_pieces_headers(s, skip_empty);
    }
}

/// Headers written by `format_headers` and read by `parse_headers` are the
/// same headers, when no key or value holds `,` or `:`.
pub proof fn law_parse_formatted_headers(h: KeyValues, skip_empty: bool)
    requires
        plain_pairs(h.pairs()),
        skip_empty || h.pairs().len() > 0,
    ensures
        header_text_pairs(headers_text(h.pairs()), skip_empty) matches Some(p) && pairs_map(p) == h@,
{
    h.lemma_view_of_pairs();
    law_headers_round_trip(h.pairs(), skip_empty);
}

} // verus!
