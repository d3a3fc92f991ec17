use vstd::prelude::*;
use crate::buffer::EditBuffer;
use crate::text::{copy_chars, has_prefix, same_chars, views};

verus! {

/// Where the token under the cursor starts: just after the last space
/// before the cursor, or at the start of the line.
pub open spec fn token_start(s: Seq<char>, cursor: int) -> int
    decreases cursor,
{
    if cursor <= 0 {
        0
    } else if s[cursor - 1] == ' ' {
        cursor
    } else {
        token_start(s, cursor - 1)
    }
}

/// The token under the cursor.
pub open spec fn token_at(s: Seq<char>, cursor: int) -> Seq<char> {
    s.subrange(token_start(s, cursor), cursor)
}

/// Whether `word` completes `tok`: the token is long enough and a prefix of it.
pub open spec fn eligible(word: Seq<char>, tok: Seq<char>, min_len: nat) -> bool {
    tok.len() >= min_len && tok.is_prefix_of(word)
}

/// The words of `pool` that complete `tok`, in pool order, each once.
pub open spec fn matching(pool: Seq<Seq<char>>, tok: Seq<char>, min_len: nat) -> Seq<Seq<char>>
    decreases pool.len(),
{
    if pool.len() == 0 {
        Seq::empty()
    } else {
        let prev = matching(pool.drop_last(), tok, min_len);
        let w = pool.last();
        if eligible(w, tok, min_len) && !prev.contains(w) {
            prev.push(w)
        } else {
            prev
        }
    }
}

/// Whether `p` is a prefix of every candidate.
pub open spec fn is_common_prefix(p: Seq<char>, cands: Seq<Seq<char>>) -> bool {
    forall|i: int| 0 <= i < cands.len() ==> p.is_prefix_of(#[trigger] cands[i])
}

/// Whether `p` is the longest common prefix of a non-empty candidate list.
pub open spec fn is_longest_common_prefix(p: Seq<char>, cands: Seq<Seq<char>>) -> bool {
    &&& is_common_prefix(p, cands)
    &&& forall|c: char| !is_common_prefix(#[trigger] p.push(c), cands)
}

/// What one completion request did to the buffer.
#[derive(Debug, PartialEq, Eq, Structural, Clone, Copy)]
pub enum CompletionOutcome {
    /// No candidate: the buffer is unchanged.
    NoMatch,
    /// Exactly one candidate, which replaced the token.
    Completed,
    /// Several candidates: the token was extended to their longest common
    /// prefix and a menu should show them.
    MenuRequested,
}

/// The start of the token under `cursor`.
pub fn find_token_start(s: &Vec<char>, cursor: usize) -> (r: usize)
    requires
        cursor <= s.len(),
    ensures
        r == token_start(s@, cursor as int),
        r <= cursor,
{
    let mut k: usize = cursor;
    while k > 0 && s[k - 1] != ' '
        invariant
            k <= cursor <= s.len(),
            token_start(s@, k as int) == token_start(s@, cursor as int),
        decreases k,
    {
        k = k - 1;
    }
    k
}

/// Whether `v` holds a vector with the characters of `x`.
pub fn contains_chars(v: &Vec<Vec<char>>, x: &Vec<char>) -> (r: bool)
    ensures
        r == views(v@).contains(x@),
{
    let mut i: usize = 0;
    while i < v.len()
        invariant
            i <= v.len(),
            forall|j: int| 0 <= j < i ==> v@[j]@ != x@,
        decreases v.len() - i,
    {
        if same_chars(&v[i], x) {
            assert(views(v@)[i as int] == x@);
            return true;
        }
        i = i + 1;
    }
    proof {
        if views(v@).contains(x@) {
            let j = choose|j: int| 0 <= j < views(v@).len() && views(v@)[j] == x@;
            assert(v@[j]@ == x@);
        }
    }
    false
}

/// Appends to `acc` the words of `src` that complete `tok` and are not in it yet.
fn extend_matches(
    acc: &mut Vec<Vec<char>>,
    src: &Vec<Vec<char>>,
    tok: &Vec<char>,
    min_len: usize,
    base: Ghost<Seq<Seq<char>>>,
)
    requires
        views(old(acc)@) == matching(base@, tok@, min_len as nat),
    ensures
        views(final(acc)@) == matching(base@ + views(src@), tok@, min_len as nat),
{
    let ghost pool = base@ + views(src@);
    assert(pool.take(base@.len() as int) =~= base@);
    let mut i: usize = 0;
    while i < src.len()
        invariant
            i <= src.len(),
            pool == base@ + views(src@),
            views(acc@) == matching(pool.take(base@.len() + i), tok@, min_len as nat),
        decreases src.len() - i,
    {
        let w = &src[i];
        let ghost at = base@.len() + i;
        assert(w@ == pool[at]);
        assert(pool.take(at + 1).drop_last() =~= pool.take(at));
        assert(pool.take(at + 1).last() == pool[at]);
        if tok.len() >= min_len && has_prefix(w, tok) && !contains_chars(acc, w) {
            let ghost before = acc@;
            acc.push(copy_chars(w));
            assert(views(acc@) =~= views(before).push(w@));
        }
        i = i + 1;
    }
    assert(pool.take(pool.len() as int) =~= pool);
}

/// The completion candidates for token `tok`: the words of `words`, then of
/// `observed`, that complete it, in that order and without repeats.
pub fn candidates_for(
    words: &Vec<Vec<char>>,
    observed: &Vec<Vec<char>>,
    tok: &Vec<char>,
    min_len: usize,
) -> (r: Vec<Vec<char>>)
    ensures
        views(r@) == matching(views(words@) + views(observed@), tok@, min_len as nat),
{
    let mut r: Vec<Vec<char>> = Vec::new();
    assert(views(r@) =~= Seq::<Seq<char>>::empty());
    extend_matches(&mut r, words, tok, min_len, Ghost(Seq::empty()));
    assert(Seq::<Seq<char>>::empty() + views(words@) =~= views(words@));
    extend_matches(&mut r, observed, tok, min_len, Ghost(views(words@)));
    r
}

/// Every candidate comes from the word list or the observed commands, and
/// has the token as a prefix.
pub proof fn candidates_are_sound(pool: Seq<Seq<char>>, tok: Seq<char>, min_len: nat)
    ensures
        forall|i: int|
            0 <= i < matching(pool, tok, min_len).len() ==> pool.contains(
                #[trigger] matching(pool, tok, min_len)[i],
            ) && eligible(matching(pool, tok, min_len)[i], tok, min_len),
    decreases pool.len(),
{
    if pool.len() > 0 {
        candidates_are_sound(pool.drop_last(), tok, min_len);
        let prev = matching(pool.drop_last(), tok, min_len);
        assert forall|i: int| 0 <= i < prev.len() implies pool.contains(#[trigger] prev[i]) by {
            let j = choose|j: int| 0 <= j < pool.drop_last().len() && pool.drop_last()[j] == prev[i];
            assert(pool[j] == prev[i]);
        }
        assert(pool[pool.len() - 1] == pool.last());
    }
}

/// The longest common prefix of a non-empty list of candidates.
pub fn longest_common_prefix(cands: &Vec<Vec<char>>) -> (r: Vec<char>)
    requires
        cands.len() > 0,
    ensures
        is_longest_common_prefix(r@, views(cands@)),
{
    let first = &cands[0];
    let mut k: usize = 0;
    let mut done = false;
    while k < first.len() && !done
        invariant
            cands.len() > 0,
            first == cands[0],
            k <= first.len(),
            is_common_prefix(first@.take(k as int), views(cands@)),
            done ==> forall|c: char| !is_common_prefix(#[trigger] first@.take(k as int).push(c), views(cands@)),
        decreases first.len() - k + if done { 0int } else { 1int },
    {
        let c = first[k];
        let mut j: usize = 1;
        let mut all = true;
        while j < cands.len() && all
            invariant
                1 <= j <= cands.len(),
                k < first.len(),
                first == cands[0],
                c == first@[k as int],
                all ==> forall|m: int| 0 <= m < j ==> k < cands@[m]@.len() && cands@[m]@[k as int] == c,
                !all ==> exists|m: int| 0 <= m < cands.len() && !(k < cands@[m]@.len() && cands@[m]@[k as int] == c),
            decreases cands.len() - j + if all { 1int } else { 0int },
        {
            let other = &cands[j];
            if k < other.len() && other[k] == c {
                j = j + 1;
            } else {
                all = false;
            }
        }
        let ghost p = first@.take(k as int);
        if all {
            assert forall|m: int| 0 <= m < views(cands@).len() implies first@.take(k + 1).is_prefix_of(#[trigger] views(cands@)[m]) by {
                assert(p.is_prefix_of(views(cands@)[m]));
                assert(first@.take(k + 1) =~= p.push(c));
                assert forall|t: int| 0 <= t < k + 1 implies first@.take(k + 1)[t] == views(cands@)[m][t] by {
                    if t < k {
                        assert(p[t] == views(cands@)[m][t]);
                    }
                }
            }
            k = k + 1;
        } else {
            assert forall|d: char| !is_common_prefix(#[trigger] p.push(d), views(cands@)) by {
                let m = choose|m: int| 0 <= m < cands.len() && !(k < cands@[m]@.len() && cands@[m]@[k as int] == c);
                if is_common_prefix(p.push(d), views(cands@)) {
                    assert(p.push(d).is_prefix_of(views(cands@)[0]));
                    assert(p.push(d)[k as int] == first@[k as int]);
                    assert(p.push(d).is_prefix_of(views(cands@)[m]));
                    assert(p.push(d)[k as int] == cands@[m]@[k as int]);
                }
            }
            done = true;
        }
    }
    let ghost p = first@.take(k as int);
    if !done {
        assert forall|d: char| !is_common_prefix(#[trigger] p.push(d), views(cands@)) by {
            if is_common_prefix(p.push(d), views(cands@)) {
                assert(p.push(d).is_prefix_of(views(cands@)[0]));
            }
        }
    }
    let mut r: Vec<char> = Vec::new();
    let mut t: usize = 0;
    while t < k
        invariant
            t <= k <= first.len(),
            r@ == first@.take(t as int),
        decreases k - t,
    {
        r.push(first[t]);
        t = t + 1;
        assert(r@ =~= first@.take(t as int));
    }
    r
}

/// Whether completing the token under the cursor of `before` against `pool`
/// may give `after` with outcome `r`: with no candidate nothing changes; with
/// one the token is replaced by it; with several it is extended to their
/// longest common prefix. Where the result fits in memory the outcome is owed.
pub open spec fn completion_effect(
    before: EditBuffer,
    after: EditBuffer,
    pool: Seq<Seq<char>>,
    min_len: nat,
    r: CompletionOutcome,
) -> bool {
    let s = before.chars@;
    let cur = before.cursor as int;
    let start = token_start(s, cur);
    let cands = matching(pool, token_at(s, cur), min_len);
    &&& cands.len() == 0 ==> r == CompletionOutcome::NoMatch
    &&& r == CompletionOutcome::NoMatch ==> after == before
    &&& r == CompletionOutcome::Completed ==> cands.len() == 1 && after.chars@ == s.take(start)
        + cands[0] + s.skip(cur) && after.cursor == start + cands[0].len()
    &&& r == CompletionOutcome::MenuRequested ==> cands.len() > 1 && exists|p: Seq<char>|
        is_longest_common_prefix(p, cands) && after.chars@ == s.take(start) + p + s.skip(cur)
            && after.cursor == start + p.len()
    &&& cands.len() == 1 && s.len() + cands[0].len() < usize::MAX ==> r
        == CompletionOutcome::Completed
    &&& cands.len() > 1 && s.len() + cands[0].len() < usize::MAX ==> r
        == CompletionOutcome::MenuRequested
}

/// Completes the token under the cursor. With one candidate the token is
/// replaced by it; with several it is extended to their longest common prefix
/// and a menu is asked for; with none, or where the result would not fit in
/// memory, the buffer is left as it is.
pub fn complete(
    buf: &mut EditBuffer,
    words: &Vec<Vec<char>>,
    observed: &Vec<Vec<char>>,
    min_len: usize,
) -> (r: CompletionOutcome)
    requires
        old(buf).wf(),
    ensures
        final(buf).wf(),
        completion_effect(*old(buf), *final(buf), views(words@) + views(observed@), min_len as nat, r),
{
    let start = find_token_start(&buf.chars, buf.cursor);
    let mut tok: Vec<char> = Vec::new();
    let mut i: usize = start;
    while i < buf.cursor
        invariant
            start <= i <= buf.cursor <= buf.chars.len(),
            tok@ == buf.chars@.subrange(start as int, i as int),
        decreases buf.cursor - i,
    {
        tok.push(buf.chars[i]);
        i = i + 1;
        assert(tok@ =~= buf.chars@.subrange(start as int, i as int));
    }
    assert(tok@ == token_at(old(buf).chars@, old(buf).cursor as int));
    let cands = candidates_for(words, observed, &tok, min_len);
    let ghost s0 = old(buf).chars@;
    let ghost c0 = old(buf).cursor as int;
    if cands.len() == 0 {
        return CompletionOutcome::NoMatch;
    }
    if cands[0].len() >= usize::MAX - buf.chars.len() {
        return CompletionOutcome::NoMatch;
    }
    assert(views(cands@)[0] == cands@[0]@);
    if cands.len() == 1 {
        buf.replace_before_cursor(start, &cands[0]);
        CompletionOutcome::Completed
    } else {
        let p = longest_common_prefix(&cands);
        proof {
            assert(p@.is_prefix_of(views(cands@)[0]));
        }
        buf.replace_before_cursor(start, &p);
        assert(is_longest_common_prefix(p@, views(cands@)) && buf.chars@ == s0.take(start as int)
            + p@ + s0.skip(c0) && buf.cursor == start + p@.len());
        CompletionOutcome::MenuRequested
    }
}

} // verus!
