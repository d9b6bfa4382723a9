//! Change detection between two polls of the input-device list.

use vstd::prelude::*;
use crate::text::{has_string, string_views};

verus! {

/// Device ids that appeared and disappeared between two polls.
#[derive(Debug, Clone)]
pub struct DevicesChangedPayload {
    pub added: Vec<String>,
    pub removed: Vec<String>,
}

proof fn lemma_push_contains(s: Seq<Seq<char>>, a: Seq<char>, y: Seq<char>)
    ensures
        s.push(a).contains(y) <==> (s.contains(y) || y == a),
{
    if s.contains(y) {
        let j = choose|j: int| 0 <= j < s.len() && s[j] == y;
        assert(s.push(a)[j] == y);
    }
    if y == a {
        assert(s.push(a)[s.len() as int] == y);
    }
    if s.push(a).contains(y) {
        let j = choose|j: int| 0 <= j < s.push(a).len() && s.push(a)[j] == y;
        if j < s.len() {
            assert(s[j] == y);
        }
    }
}

/// The distinct ids of `from` that are not in `other`, in first-seen order.
fn ids_not_in(from: &Vec<String>, other: &Vec<String>) -> (out: Vec<String>)
    ensures
        string_views(out@).no_duplicates(),
        string_views(out@).to_set() == string_views(from@).to_set().difference(
            string_views(other@).to_set(),
        ),
{
    let ghost f = string_views(from@);
    let ghost o = string_views(other@);
    let mut out: Vec<String> = Vec::new();
    let mut i: usize = 0;
    while i < from.len()
        invariant
            f == string_views(from@),
            o == string_views(other@),
            i <= from@.len(),
            string_views(out@).no_duplicates(),
            forall|x: Seq<char>|
                #![trigger string_views(out@).contains(x)]
                string_views(out@).contains(x) <==> (f.take(i as int).contains(x) && !o.contains(x)),
        decreases from@.len() - i,
    {
        let x = &from[i];
        let ghost before = string_views(out@);
        assert(f.take(i + 1) =~= f.take(i as int).push(x@));
        if !has_string(other, x) && !has_string(&out, x) {
            out.push(x.clone());
            assert(string_views(out@) =~= before.push(x@));
        } else {
            assert(string_views(out@) =~= before);
        }
        assert forall|y: Seq<char>|
            #![trigger string_views(out@).contains(y)]
            string_views(out@).contains(y) <==> (f.take(i + 1).contains(y) && !o.contains(y)) by {
            lemma_push_contains(f.take(i as int), x@, y);
            lemma_push_contains(before, x@, y);
        }
        i = i + 1;
    }
    assert(f.take(from@.len() as int) =~= f);
    assert(string_views(out@).to_set() =~= f.to_set().difference(o.to_set()));
    out
}

/// The change between the ids known from the last poll and the current ids,
/// both taken as sets: `None` when they hold the same ids, otherwise the ids
/// that were added and those that were removed, each without repetition.
pub fn device_changes(known: &Vec<String>, current: &Vec<String>) -> (change: Option<DevicesChangedPayload>)
    ensures
        ({
            let k = string_views(known@).to_set();
            let c = string_views(current@).to_set();
            match change {
                None => k == c,
                Some(p) => {
                    &&& k != c
                    &&& string_views(p.added@).no_duplicates()
                    &&& string_views(p.removed@).no_duplicates()
                    &&& string_views(p.added@).to_set() == c.difference(k)
                    &&& string_views(p.removed@).to_set() == k.difference(c)
                }
            }
        }),
{
    let added = ids_not_in(current, known);
    let removed = ids_not_in(known, current);
    let ghost k = string_views(known@).to_set();
    let ghost c = string_views(current@).to_set();
    if added.len() == 0 && removed.len() == 0 {
        assert(k =~= c) by {
            assert forall|x: Seq<char>| c.contains(x) implies k.contains(x) by {
                if !k.contains(x) {
                    assert(string_views(added@).to_set().contains(x));
                    assert(string_views(added@).contains(x));
                }
            }
            assert forall|x: Seq<char>| k.contains(x) implies c.contains(x) by {
                if !c.contains(x) {
                    assert(string_views(removed@).to_set().contains(x));
                    assert(string_views(removed@).contains(x));
                }
            }
        }
        None
    } else {
        assert(k != c) by {
            if k == c {
                if added.len() > 0 {
                    assert(string_views(added@).contains(string_views(added@)[0]));
                    assert(string_views(added@).to_set().contains(string_views(added@)[0]));
                } else {
                    assert(string_views(removed@).contains(string_views(removed@)[0]));
                    assert(string_views(removed@).to_set().contains(string_views(removed@)[0]));
                }
            }
        }
        Some(DevicesChangedPayload { added, removed })
    }
}

} // verus!
