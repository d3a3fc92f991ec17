use vstd::prelude::*;
use crate::text::{has_prefix, views};

verus! {

/// Whether history line `h` can complete `line`: it extends it strictly.
pub open spec fn extends(h: Seq<char>, line: Seq<char>) -> bool {
    line.len() > 0 && line.is_prefix_of(h) && h.len() > line.len()
}

/// The hint for `line`: the rest of the most recent history line that
/// extends it, or nothing.
pub open spec fn hint_of(line: Seq<char>, hist: Seq<Seq<char>>) -> Seq<char>
    decreases hist.len(),
{
    if hist.len() == 0 {
        Seq::empty()
    } else if extends(hist.last(), line) {
        hist.last().skip(line.len() as int)
    } else {
        hint_of(line, hist.drop_last())
    }
}

/// Suggests how `line` may go on, from `hist` (oldest first). Purely
/// advisory: nothing is changed.
pub fn hint_for(line: &Vec<char>, hist: &Vec<Vec<char>>) -> (r: Vec<char>)
    ensures
        r@ == hint_of(line@, views(hist@)),
{
    let ghost hs = views(hist@);
    let mut k: usize = hist.len();
    assert(hs.take(hs.len() as int) =~= hs);
    while k > 0
        invariant
            k <= hist.len(),
            hs == views(hist@),
            hint_of(line@, hs) == hint_of(line@, hs.take(k as int)),
        decreases k,
    {
        let h = &hist[k - 1];
        assert(hs.take(k as int).last() == h@);
        assert(hs.take(k as int).drop_last() =~= hs.take(k - 1));
        if line.len() > 0 && h.len() > line.len() && has_prefix(h, line) {
            let mut r: Vec<char> = Vec::new();
            let mut i: usize = line.len();
            while i < h.len()
                invariant
                    line.len() <= i <= h.len(),
                    r@ == h@.subrange(line.len() as int, i as int),
                decreases h.len() - i,
            {
                r.push(h[i]);
                i = i + 1;
                assert(r@ =~= h@.subrange(line.len() as int, i as int));
            }
            assert(r@ =~= h@.skip(line.len() as int));
            return r;
        }
        k = k - 1;
    }
    assert(hs.take(0) =~= Seq::<Seq<char>>::empty());
    Vec::new()
}

} // verus!
