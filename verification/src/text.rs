//! Small string helpers shared by the other modules.

use vstd::prelude::*;

verus! {

/// `s`, followed by as many spaces as it takes to reach `width` characters.
/// A string that is already that long is left as it is.
pub open spec fn padded(s: Seq<char>, width: nat) -> Seq<char> {
    if s.len() >= width {
        s
    } else {
        s + Seq::new((width - s.len()) as nat, |i: int| ' ')
    }
}

/// The strings of `parts`, each followed by `sep`, in order.
pub open spec fn terminated(parts: Seq<Seq<char>>, sep: Seq<char>) -> Seq<char>
    decreases parts.len(),
{
    if parts.len() == 0 {
        Seq::<char>::empty()
    } else {
        terminated(parts.drop_last(), sep) + parts.last() + sep
    }
}

/// The views of the strings of `v`, in order.
pub open spec fn views(v: Seq<String>) -> Seq<Seq<char>> {
    Seq::new(v.len(), |i: int| v[i]@)
}

/// The views of a list with one more string are the views of the list with
/// one more view.
pub proof fn lemma_views_push(v: Seq<String>, s: String)
    ensures
        views(v.push(s)) == views(v).push(s@),
{
    assert(views(v.push(s)) =~= views(v).push(s@));
}

/// Concatenation of two strings.
pub fn splice(a: &str, b: &str) -> (s: String)
    ensures
        s@ == a@ + b@,
{
    let mut s = a.to_owned();
    s.append(b);
    s
}

/// Concatenation of three strings.
pub fn splice3(a: &str, b: &str, c: &str) -> (s: String)
    ensures
        s@ == a@ + b@ + c@,
{
    let mut s = a.to_owned();
    s.append(b);
    s.append(c);
    s
}

/// Left-aligns `s` in a field of `width` characters.
pub fn pad_right(s: &str, width: usize) -> (out: String)
    ensures
        out@ == padded(s@, width as nat),
{
    let len: usize = s.unicode_len();
    let mut out = s.to_owned();
    if len >= width {
        return out;
    }
    let mut i: usize = len;
    while i < width
        invariant
            len <= i <= width,
            len == s@.len(),
            out@ == s@ + Seq::new((i - len) as nat, |k: int| ' '),
        decreases width - i,
    {
        proof {
            reveal_strlit(" ");
        }
        out.append(" ");
        i = i + 1;
        assert(out@ =~= s@ + Seq::new((i - len) as nat, |k: int| ' '));
    }
    out
}

/// Every string of `parts` followed by `sep`, joined into one string.
pub fn join_terminated(parts: &Vec<String>, sep: &str) -> (out: String)
    ensures
        out@ == terminated(views(parts@), sep@),
{
    let mut out = String::new();
    let mut i: usize = 0;
    while i < parts.len()
        invariant
            i <= parts.len(),
            out@ == terminated(views(parts@).take(i as int), sep@),
        decreases parts.len() - i,
    {
        out.append(parts[i].as_str());
        out.append(sep);
        proof {
            let all = views(parts@);
            assert(all.take(i + 1).drop_last() =~= all.take(i as int));
            assert(all.take(i + 1).last() == parts@[i as int]@);
        }
        i = i + 1;
    }
    proof {
        assert(views(parts@).take(parts.len() as int) =~= views(parts@));
    }
    out
}

} // verus!
