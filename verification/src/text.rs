//! Character-level string helpers: equality and splitting on a delimiter,
//! with a mathematical model of the split that the parsing contracts use.

use vstd::prelude::*;
use vstd::string::*;

verus! {

/// The fields of `s` split on the delimiter `d`, leftmost delimiter first:
/// one (possibly empty) field more than there are delimiters, with an empty
/// field between two adjacent delimiters, as `str::split` yields them.
pub open spec fn split_on(s: Seq<char>, d: char) -> Seq<Seq<char>>
    decreases s.len(),
{
    if s.len() == 0 {
        seq![Seq::<char>::empty()]
    } else if s[0] == d {
        seq![Seq::<char>::empty()] + split_on(s.drop_first(), d)
    } else {
        let rest = split_on(s.drop_first(), d);
        seq![seq![s[0]] + rest[0]] + rest.drop_first()
    }
}

/// A split always yields at least one field.
pub proof fn lemma_split_on_len(s: Seq<char>, d: char)
    ensures
        split_on(s, d).len() >= 1,
    decreases s.len(),
{
    if s.len() > 0 {
        lemma_split_on_len(s.drop_first(), d);
    }
}

/// The first field of a split, extended at the front by `pre`; used to
/// describe a split whose first field is still being scanned.
pub open spec fn extend_first(pre: Seq<char>, fields: Seq<Seq<char>>) -> Seq<Seq<char>>
    recommends
        fields.len() >= 1,
{
    seq![pre + fields[0]] + fields.drop_first()
}

/// The views of a vector of strings.
pub open spec fn views_of(v: Seq<String>) -> Seq<Seq<char>> {
    v.map_values(|x: String| x@)
}

/// Whether two string slices hold the same characters.
pub fn str_eq(a: &str, b: &str) -> (r: bool)
    ensures
        r == (a@ == b@),
{
    let n = a.unicode_len();
    if n != b.unicode_len() {
        return false;
    }
    let mut i: usize = 0;
    while i < n
        invariant
            i <= n,
            n == a@.len(),
            n == b@.len(),
            forall|j: int| 0 <= j < i ==> a@[j] == b@[j],
        decreases n - i,
    {
        if a.get_char(i) != b.get_char(i) {
            return false;
        }
        i = i + 1;
    }
    proof {
        assert(a@ =~= b@);
    }
    true
}

/// Splits `s` on the delimiter `d` into its fields, in order.
pub fn split_str(s: &str, d: char) -> (parts: Vec<String>)
    ensures
        views_of(parts@) =~~= split_on(s@, d),
{
    let n = s.unicode_len();
    let mut parts: Vec<String> = Vec::new();
    let mut start: usize = 0;
    let mut i: usize = 0;
    proof {
        lemma_split_on_len(s@, d);
        assert(s@.skip(0) =~= s@);
        assert(s@.subrange(0, 0) =~= Seq::<char>::empty());
        assert(s@.subrange(0, 0) + split_on(s@, d)[0] =~= split_on(s@, d)[0]);
        assert(extend_first(s@.subrange(0, 0), split_on(s@, d)) =~~= split_on(s@, d));
    }
    while i < n
        invariant
            start <= i <= n,
            n == s@.len(),
            split_on(s@, d) =~~= views_of(parts@) + extend_first(
                s@.subrange(start as int, i as int),
                split_on(s@.skip(i as int), d),
            ),
        decreases n - i,
    {
        proof {
            lemma_split_on_len(s@.skip(i as int + 1), d);
            assert(s@.skip(i as int).drop_first() =~= s@.skip(i as int + 1));
        }
        let c = s.get_char(i);
        if c == d {
            let field = s.substring_char(start, i);
            parts.push(String::from_str(field));
            proof {
                assert(views_of(parts@) =~~= views_of(parts@.drop_last()) + seq![
                    s@.subrange(start as int, i as int),
                ]);
            }
            start = i + 1;
        } else {
            proof {
                let rest = split_on(s@.skip(i as int + 1), d);
                assert(s@.subrange(start as int, i as int) + (seq![s@[i as int]] + rest[0])
                    =~= s@.subrange(start as int, i as int + 1) + rest[0]);
            }
        }
        i = i + 1;
    }
    proof {
        assert(s@.skip(n as int) =~= Seq::<char>::empty());
    }
    let last = s.substring_char(start, n);
    parts.push(String::from_str(last));
    proof {
        assert(views_of(parts@) =~~= views_of(parts@.drop_last()) + seq![
            s@.subrange(start as int, n as int),
        ]);
    }
    parts
}

} // verus!
