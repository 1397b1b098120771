//! String helpers: quote escaping and the filtering of header entries.
use vstd::prelude::*;

verus! {

/// `s` with every occurrence of `q` preceded by a backslash.
pub open spec fn escaped(s: Seq<char>, q: char) -> Seq<char>
    decreases s.len(),
{
    if s.len() == 0 {
        Seq::empty()
    } else if s.last() == q {
        escaped(s.drop_last(), q) + seq!['\\', q]
    } else {
        escaped(s.drop_last(), q).push(s.last())
    }
}

/// The entries of `s` whose value is present, in order, with the value unwrapped.
pub open spec fn text_entries(s: Seq<(String, Option<String>)>) -> Seq<(String, String)>
    decreases s.len(),
{
    if s.len() == 0 {
        Seq::empty()
    } else {
        let rest = text_entries(s.drop_last());
        match s.last().1 {
            Some(v) => rest.push((s.last().0, v)),
            None => rest,
        }
    }
}

/// The texts of each name-value pair.
pub open spec fn pairs_view(h: Seq<(String, String)>) -> Seq<(Seq<char>, Seq<char>)> {
    h.map_values(|p: (String, String)| (p.0@, p.1@))
}

/// No two entries share a name.
pub open spec fn keys_distinct<V>(h: Seq<(Seq<char>, V)>) -> bool {
    forall|i: int, j: int| 0 <= i < j < h.len() ==> h[i].0 != h[j].0
}

/// Escapes the quote character `q` in `s` with a backslash.
pub fn escape_quote(s: &str, q: char) -> (r: String)
    ensures
        r@ == escaped(s@, q),
{
    let n = s.unicode_len();
    let mut r = String::new();
    let mut i: usize = 0;
    while i < n
        invariant
            n == s@.len(),
            i <= n,
            r@ == escaped(s@.subrange(0, i as int), q),
        decreases n - i,
    {
        let c = s.get_char(i);
        proof {
            assert(s@.subrange(0, i + 1).drop_last() =~= s@.subrange(0, i as int));
        }
        if c == q {
            r.append("\\");
            r.append(s.substring_char(i, i + 1));
            proof {
                assert("\\"@ =~= seq!['\\']) by {
                    reveal_strlit("\\");
                }
                assert(r@ =~= escaped(s@.subrange(0, i + 1), q));
            }
        } else {
            r.append(s.substring_char(i, i + 1));
            proof {
                assert(r@ =~= escaped(s@.subrange(0, i + 1), q));
            }
        }
        i = i + 1;
    }
    proof {
        assert(s@.subrange(0, n as int) =~= s@);
    }
    r
}

/// Keeps the entries whose value is present, in order, dropping the others.
pub fn keep_text_entries(entries: &Vec<(String, Option<String>)>) -> (r: Vec<(String, String)>)
    ensures
        r@ == text_entries(entries@),
{
    let mut r: Vec<(String, String)> = Vec::new();
    let mut i: usize = 0;
    while i < entries.len()
        invariant
            i <= entries@.len(),
            r@ == text_entries(entries@.subrange(0, i as int)),
        decreases entries@.len() - i,
    {
        proof {
            assert(entries@.subrange(0, i + 1).drop_last() =~= entries@.subrange(0, i as int));
        }
        let entry = &entries[i];
        match &entry.1 {
            Some(v) => {
                r.push((entry.0.clone(), v.clone()));
            },
            None => {},
        }
        i = i + 1;
    }
    proof {
        assert(entries@.subrange(0, entries@.len() as int) =~= entries@);
    }
    r
}

} // verus!
