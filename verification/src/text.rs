//! Text shapes that the client builds and reads: lists joined by a
//! separator, and the segments of a separated string.
use vstd::prelude::*;

verus! {

/// The parts written one after the other, with `sep` between each two.
pub open spec fn joined(parts: Seq<Seq<char>>, sep: Seq<char>) -> Seq<char>
    decreases parts.len(),
{
    if parts.len() == 0 {
        Seq::empty()
    } else if parts.len() == 1 {
        parts[0]
    } else {
        joined(parts.drop_last(), sep) + sep + parts.last()
    }
}

/// The character sequences of a list of strings.
pub open spec fn string_views(list: Seq<String>) -> Seq<Seq<char>> {
    list.map_values(|s: String| s@)
}

/// Joins the strings of `list`, putting `sep` between each two.
pub fn join_with(list: &Vec<String>, sep: &str) -> (res: String)
    ensures
        res@ == joined(string_views(list@), sep@),
{
    let ghost parts = string_views(list@);
    let n = list.len();
    if n == 0 {
        return String::new();
    }
    let mut res = list[0].clone();
    let mut i: usize = 1;
    assert(parts.take(1) =~= seq![parts[0]]);
    while i < n
        invariant
            n == list@.len(),
            parts == string_views(list@),
            1 <= i <= n,
            res@ == joined(parts.take(i as int), sep@),
        decreases n - i,
    {
        res.append(sep);
        res.append(list[i].as_str());
        assert(parts.take(i + 1).drop_last() =~= parts.take(i as int));
        i = i + 1;
    }
    assert(parts.take(n as int) =~= parts);
    res
}

/// The segments of `s` between the occurrences of `sep`, as `str::split`
/// yields them: there is always at least one, and a string with `k`
/// separators has `k + 1`.
pub open spec fn segments(s: Seq<char>, sep: char) -> Seq<Seq<char>>
    decreases s.len(),
{
    if s.len() == 0 {
        seq![Seq::empty()]
    } else {
        let before = segments(s.drop_last(), sep);
        if s.last() == sep {
            before.push(Seq::empty())
        } else {
            before.update(before.len() - 1, before.last().push(s.last()))
        }
    }
}

/// The number of segments is one more than the number of separators.
pub proof fn lemma_segments_len(s: Seq<char>, sep: char)
    ensures
        segments(s, sep).len() >= 1,
    decreases s.len(),
{
    if s.len() > 0 {
        lemma_segments_len(s.drop_last(), sep);
    }
}

/// The segment at `index`, if `s` has that many.
pub open spec fn nth_segment(s: Seq<char>, sep: char, index: nat) -> Option<Seq<char>> {
    if index < segments(s, sep).len() {
        Some(segments(s, sep)[index as int])
    } else {
        None
    }
}

/// The second segment of `s` (what `s.split(sep).nth(1)` gives), as a new
/// string; `None` where `s` holds no `sep`.
pub fn second_segment(s: &str, sep: char) -> (res: Option<String>)
    ensures
        match res {
            Some(seg) => nth_segment(s@, sep, 1) == Some(seg@),
            None => nth_segment(s@, sep, 1) is None,
        },
{
    let n = s.unicode_len();
    // `seps` counts the separators seen, up to two; the second segment
    // runs from `start` to `end` (or to `i` while it is still open).
    let mut seps: usize = 0;
    let mut start: usize = 0;
    let mut end: usize = 0;
    let mut i: usize = 0;
    while i < n
        invariant
            n == s@.len(),
            0 <= i <= n,
            seps <= 2,
            seps <= i,
            seps == 0 ==> segments(s@.take(i as int), sep).len() == 1,
            seps == 1 ==> segments(s@.take(i as int), sep).len() == 2,
            seps == 2 ==> segments(s@.take(i as int), sep).len() >= 3,
            seps >= 1 ==> start <= i,
            seps == 1 ==> segments(s@.take(i as int), sep)[1] == s@.subrange(start as int, i as int),
            seps == 2 ==> start <= end <= i,
            seps == 2 ==> segments(s@.take(i as int), sep)[1] == s@.subrange(start as int, end as int),
        decreases n - i,
    {
        let c = s.get_char(i);
        let ghost prev = s@.take(i as int);
        proof {
            lemma_segments_len(prev, sep);
            assert(s@.take(i + 1).drop_last() =~= prev);
            assert(s@.take(i + 1).last() == c);
        }
        if c == sep {
            if seps == 0 {
                start = i + 1;
                seps = 1;
                assert(s@.subrange(start as int, (i + 1) as int) =~= Seq::<char>::empty());
            } else if seps == 1 {
                end = i;
                seps = 2;
            }
        } else {
            if seps == 1 {
                assert(s@.subrange(start as int, (i + 1) as int) =~= s@.subrange(start as int, i as int).push(c));
            }
        }
        i = i + 1;
    }
    assert(s@.take(n as int) =~= s@);
    if seps == 0 {
        None
    } else if seps == 1 {
        Some(String::from_str(s.substring_char(start, n)))
    } else {
        Some(String::from_str(s.substring_char(start, end)))
    }
}

} // verus!

verus! {

/// Whether `s` holds no `sep`.
pub open spec fn free_of(s: Seq<char>, sep: char) -> bool {
    forall|i: int| 0 <= i < s.len() ==> s[i] != sep
}

/// A string without separators is one segment.
pub proof fn lemma_segments_of_free(s: Seq<char>, sep: char)
    requires
        free_of(s, sep),
    ensures
        segments(s, sep) == seq![s],
    decreases s.len(),
{
    if s.len() > 0 {
        lemma_segments_of_free(s.drop_last(), sep);
        assert(s.drop_last().push(s.last()) =~= s);
        assert(seq![s.drop_last()].update(0, s.drop_last().push(s.last())) =~= seq![s]);
    } else {
        assert(s =~= Seq::<char>::empty());
    }
}

/// Text without separators that follows a string extends its last segment.
pub proof fn lemma_segments_extend(x: Seq<char>, y: Seq<char>, sep: char)
    requires
        free_of(y, sep),
    ensures
        segments(x + y, sep).len() == segments(x, sep).len(),
        segments(x + y, sep) == segments(x, sep).update(segments(x, sep).len() - 1, segments(x, sep).last() + y),
    decreases y.len(),
{
    lemma_segments_len(x, sep);
    if y.len() == 0 {
        assert(x + y =~= x);
        assert(segments(x, sep).last() + y =~= segments(x, sep).last());
        assert(segments(x, sep).update(segments(x, sep).len() - 1, segments(x, sep).last()) =~= segments(x, sep));
    } else {
        let y0 = y.drop_last();
        lemma_segments_extend(x, y0, sep);
        assert((x + y).drop_last() =~= x + y0);
        assert((x + y).last() == y.last());
        let before = segments(x + y0, sep);
        let segs = segments(x, sep);
        assert(before.last() == segs.last() + y0);
        assert((segs.last() + y0).push(y.last()) =~= segs.last() + y);
        assert(before.update(before.len() - 1, before.last().push(y.last())) =~= segs.update(segs.len() - 1, segs.last() + y));
    }
}

/// Splitting what was joined with a separator that no part holds gives the
/// parts back.
pub proof fn law_split_undoes_join(parts: Seq<Seq<char>>, sep: char)
    requires
        parts.len() >= 1,
        forall|i: int| 0 <= i < parts.len() ==> free_of(#[trigger] parts[i], sep),
    ensures
        segments(joined(parts, seq![sep]), sep) == parts,
    decreases parts.len(),
{
    if parts.len() == 1 {
        lemma_segments_of_free(parts[0], sep);
        assert(seq![parts[0]] =~= parts);
    } else {
        let front = parts.drop_last();
        let j = joined(front, seq![sep]);
        assert forall|i: int| 0 <= i < front.len() implies free_of(#[trigger] front[i], sep) by {
            assert(front[i] == parts[i]);
        }
        law_split_undoes_join(front, sep);
        lemma_segments_len(j, sep);
        assert(j + seq![sep] + parts.last() =~= j.push(sep) + parts.last());
        assert(j.push(sep).drop_last() =~= j);
        assert(free_of(parts.last(), sep)) by {
            assert(parts.last() == parts[parts.len() - 1]);
        }
        lemma_segments_extend(j.push(sep), parts.last(), sep);
        let pushed = segments(j, sep).push(Seq::<char>::empty());
        assert(Seq::<char>::empty() + parts.last() =~= parts.last());
        assert(pushed.update(pushed.len() - 1, pushed.last() + parts.last()) =~= parts);
    }
}

/// The payload of a token `header.payload.signature`, whose three parts
/// hold no dot, is its second segment.
pub proof fn law_second_segment_of_three(header: Seq<char>, payload: Seq<char>, signature: Seq<char>)
    requires
        free_of(header, '.'),
        free_of(payload, '.'),
        free_of(signature, '.'),
    ensures
        nth_segment(header + seq!['.'] + payload + seq!['.'] + signature, '.', 1) == Some(payload),
{
    let parts = seq![header, payload, signature];
    assert forall|i: int| 0 <= i < parts.len() implies free_of(#[trigger] parts[i], '.') by {
        if i == 0 {
            assert(parts[i] == header);
        } else if i == 1 {
            assert(parts[i] == payload);
        } else {
            assert(parts[i] == signature);
        }
    }
    law_split_undoes_join(parts, '.');
    assert(parts.drop_last().drop_last() =~= seq![header]);
    assert(parts.drop_last() =~= seq![header, payload]);
    assert(joined(seq![header], seq!['.']) == header);
    assert(joined(parts.drop_last(), seq!['.']) == header + seq!['.'] + payload);
    assert(parts.last() == signature);
    assert(joined(parts, seq!['.']) == header + seq!['.'] + payload + seq!['.'] + signature);
}

} // verus!
