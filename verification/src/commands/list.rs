//! `list`: the projects of the configuration directory, by name.
use vstd::prelude::*;
use crate::cmux::text_views;
use crate::paths::{yml_ext, yaml_ext};
use crate::text::{chars_of, ends_with, has_suffix};

verus! {

/// The project that a file of the configuration directory holds: the file
/// name without its `.yml` or `.yaml` extension.
pub open spec fn project_stem(name: Seq<char>) -> Option<Seq<char>> {
    if has_suffix(name, yml_ext()) && name.len() > 4 {
        Some(name.take(name.len() - 4))
    } else if has_suffix(name, yaml_ext()) && name.len() > 5 {
        Some(name.take(name.len() - 5))
    } else {
        None
    }
}

/// `a` comes before `b` in the order of `String`: lexicographic by
/// character.
pub open spec fn text_lt(a: Seq<char>, b: Seq<char>) -> bool
    decreases a.len(),
{
    if a.len() == 0 {
        b.len() > 0
    } else if b.len() == 0 {
        false
    } else if a[0] != b[0] {
        (a[0] as int) < (b[0] as int)
    } else {
        text_lt(a.skip(1), b.skip(1))
    }
}

/// Each name comes before the next: sorted, and no name twice.
pub open spec fn strictly_sorted(s: Seq<Seq<char>>) -> bool {
    forall|i: int, j: int| 0 <= i < j < s.len() ==> text_lt(#[trigger] s[i], #[trigger] s[j])
}

/// The projects that a list of file names holds.
pub open spec fn listed(names: Seq<Seq<char>>, s: Seq<char>) -> bool {
    exists|i: int| 0 <= i < names.len() && #[trigger] project_stem(names[i]) == Some(s)
}

pub proof fn lemma_text_lt_irreflexive(a: Seq<char>)
    ensures
        !text_lt(a, a),
    decreases a.len(),
{
    if a.len() > 0 {
        lemma_text_lt_irreflexive(a.skip(1));
    }
}

pub proof fn lemma_text_lt_transitive(a: Seq<char>, b: Seq<char>, c: Seq<char>)
    requires
        text_lt(a, b),
        text_lt(b, c),
    ensures
        text_lt(a, c),
    decreases a.len(),
{
    if a.len() > 0 && b.len() > 0 && c.len() > 0 && a[0] == b[0] && b[0] == c[0] {
        lemma_text_lt_transitive(a.skip(1), b.skip(1), c.skip(1));
    }
}

pub proof fn lemma_text_lt_total(a: Seq<char>, b: Seq<char>)
    requires
        a != b,
    ensures
        text_lt(a, b) || text_lt(b, a),
    decreases a.len(),
{
    if a.len() > 0 && b.len() > 0 {
        if a[0] == b[0] {
            if a.skip(1) == b.skip(1) {
                assert(a =~= seq![a[0]] + a.skip(1));
                assert(b =~= seq![b[0]] + b.skip(1));
            }
            lemma_text_lt_total(a.skip(1), b.skip(1));
        } else {
            assert((a[0] as int) != (b[0] as int));
        }
    } else if a.len() == 0 && b.len() == 0 {
        assert(a =~= b);
    }
}

/// Whether `a` comes before `b`.
pub fn text_less(a: &str, b: &str) -> (r: bool)
    ensures
        r == text_lt(a@, b@),
{
    let x = chars_of(a);
    let y = chars_of(b);
    let mut i: usize = 0;
    assert(a@.skip(0) =~= a@);
    assert(b@.skip(0) =~= b@);
    while i < x.len() && i < y.len()
        invariant
            x@ == a@,
            y@ == b@,
            i <= x.len(),
            i <= y.len(),
            forall|k: int| 0 <= k < i ==> x@[k] == y@[k],
            text_lt(a@, b@) == text_lt(a@.skip(i as int), b@.skip(i as int)),
        decreases x.len() - i,
    {
        if x[i] != y[i] {
            let less = x[i] < y[i];
            assert(a@.skip(i as int)[0] == x@[i as int]);
            assert(b@.skip(i as int)[0] == y@[i as int]);
            return less;
        }
        assert(a@.skip(i as int).skip(1) =~= a@.skip(i + 1));
        assert(b@.skip(i as int).skip(1) =~= b@.skip(i + 1));
        i = i + 1;
    }
    i == x.len() && i < y.len()
}

/// The project that a file name holds, if any.
pub fn stem_of(name: &str) -> (r: Option<String>)
    ensures
        match r {
            Some(s) => project_stem(name@) == Some(s@),
            None => project_stem(name@) is None,
        },
{
    let n: usize = name.unicode_len();
    let yml = ends_with(name, ".yml");
    let yaml = ends_with(name, ".yaml");
    proof {
        reveal_strlit(".yml");
        reveal_strlit(".yaml");
        assert(".yml"@ =~= yml_ext());
        assert(".yaml"@ =~= yaml_ext());
    }
    if yml && n > 4 {
        Some(String::from_str(name.substring_char(0, n - 4)))
    } else if yaml && n > 5 {
        Some(String::from_str(name.substring_char(0, n - 5)))
    } else {
        None
    }
}

/// Inserts `s` into a strictly sorted list, unless it is there already.
fn insert_sorted(out: &mut Vec<String>, s: String)
    requires
        strictly_sorted(text_views(old(out)@)),
    ensures
        strictly_sorted(text_views(final(out)@)),
        forall|t: Seq<char>|
            text_views(final(out)@).contains(t) <==> (text_views(old(out)@).contains(t) || t
                == s@),
{
    let ghost before = text_views(out@);
    let mut p: usize = 0;
    while p < out.len() && text_less(out[p].as_str(), s.as_str())
        invariant
            p <= out.len(),
            before == text_views(out@),
            strictly_sorted(before),
            forall|k: int| 0 <= k < p ==> text_lt(#[trigger] before[k], s@),
        decreases out.len() - p,
    {
        p = p + 1;
    }
    if p < out.len() {
        if !text_less(s.as_str(), out[p].as_str()) {
            proof {
                if before[p as int] != s@ {
                    lemma_text_lt_total(before[p as int], s@);
                }
            }
            assert(before.contains(s@) == true) by {
                assert(before[p as int] == s@);
            }
            return;
        }
    }
    out.insert(p, s);
    proof {
        let after = text_views(out@);
        assert(after =~= before.insert(p as int, s@));
        assert forall|i: int, j: int| 0 <= i < j < after.len() implies text_lt(
            #[trigger] after[i],
            #[trigger] after[j],
        ) by {
            if j < p {
            } else if j == p {
            } else if i < p {
                // before[i] < s < before[p] <= before[j - 1]
                if j - 1 > p {
                    lemma_text_lt_transitive(s@, before[p as int], before[j - 1]);
                }
                lemma_text_lt_transitive(before[i], s@, before[j - 1]);
            } else if i == p {
                if j - 1 > p {
                    lemma_text_lt_transitive(s@, before[p as int], before[j - 1]);
                }
            } else {
            }
        }
        assert forall|t: Seq<char>| after.contains(t) <==> (before.contains(t) || t == s@) by {
            if after.contains(t) {
                let k = choose|k: int| 0 <= k < after.len() && after[k] == t;
                if k < p {
                    assert(before[k] == t);
                } else if k > p {
                    assert(before[k - 1] == t);
                }
            }
            if before.contains(t) {
                let k = choose|k: int| 0 <= k < before.len() && before[k] == t;
                if k < p {
                    assert(after[k] == t);
                } else {
                    assert(after[k + 1] == t);
                }
            }
            if t == s@ {
                assert(after[p as int] == t);
            }
        }
    }
}

/// The projects held by the files named `file_names`, sorted, each once.
pub fn run(file_names: &Vec<String>) -> (r: Vec<String>)
    ensures
        strictly_sorted(text_views(r@)),
        forall|s: Seq<char>|
            text_views(r@).contains(s) <==> listed(text_views(file_names@), s),
{
    let ghost names = text_views(file_names@);
    let mut out: Vec<String> = Vec::new();
    let mut i: usize = 0;
    while i < file_names.len()
        invariant
            i <= file_names.len(),
            names == text_views(file_names@),
            strictly_sorted(text_views(out@)),
            forall|s: Seq<char>|
                text_views(out@).contains(s) <==> listed(names.take(i as int), s),
        decreases file_names.len() - i,
    {
        let stem = stem_of(file_names[i].as_str());
        let ghost old_out = text_views(out@);
        if let Some(s) = stem {
            insert_sorted(&mut out, s);
        }
        proof {
            assert forall|s: Seq<char>|
                text_views(out@).contains(s) <==> listed(names.take(i + 1), s) by {
                if listed(names.take(i + 1), s) {
                    let k = choose|k: int|
                        0 <= k < i + 1 && #[trigger] project_stem(names.take(i + 1)[k]) == Some(s);
                    if k < i {
                        assert(names.take(i as int)[k] == names.take(i + 1)[k]);
                        assert(listed(names.take(i as int), s));
                    }
                }
                if listed(names.take(i as int), s) {
                    let k = choose|k: int|
                        0 <= k < i && #[trigger] project_stem(names.take(i as int)[k]) == Some(s);
                    assert(names.take(i as int)[k] == names.take(i + 1)[k]);
                    assert(listed(names.take(i + 1), s));
                }
                if project_stem(names[i as int]) == Some(s) {
                    assert(names.take(i + 1)[i as int] == names[i as int]);
                    assert(listed(names.take(i + 1), s));
                }
            }
        }
        i = i + 1;
    }
    assert(names.take(file_names.len() as int) =~= names);
    out
}

/// Two strictly sorted lists with the same names are the same list: the
/// listing depends on the set of project files alone, not on the order in
/// which the directory is read.
pub proof fn lemma_sorted_listing_unique(a: Seq<Seq<char>>, b: Seq<Seq<char>>)
    requires
        strictly_sorted(a),
        strictly_sorted(b),
        forall|s: Seq<char>| a.contains(s) <==> b.contains(s),
    ensures
        a == b,
    decreases a.len(),
{
    if a.len() == 0 {
        if b.len() > 0 {
            assert(b.contains(b[0]));
        }
        assert(a =~= b);
    } else if b.len() == 0 {
        assert(a.contains(a[0]));
    } else {
        // The least elements agree.
        assert(a.contains(a[0]));
        assert(b.contains(b[0]));
        let ka = choose|k: int| 0 <= k < b.len() && b[k] == a[0];
        let kb = choose|k: int| 0 <= k < a.len() && a[k] == b[0];
        if a[0] != b[0] {
            if ka > 0 && kb > 0 {
                lemma_text_lt_transitive(a[0], a[kb], a[0]);
                lemma_text_lt_irreflexive(a[0]);
            } else if ka == 0 {
            } else {
            }
        }
        assert(a[0] == b[0]);
        let a1 = a.skip(1);
        let b1 = b.skip(1);
        assert forall|s: Seq<char>| a1.contains(s) <==> b1.contains(s) by {
            if a1.contains(s) {
                let k = choose|k: int| 0 <= k < a1.len() && a1[k] == s;
                assert(a[k + 1] == s);
                assert(a.contains(s));
                let m = choose|m: int| 0 <= m < b.len() && b[m] == s;
                if m == 0 {
                    lemma_text_lt_irreflexive(s);
                }
                assert(b1[m - 1] == s);
            }
            if b1.contains(s) {
                let k = choose|k: int| 0 <= k < b1.len() && b1[k] == s;
                assert(b[k + 1] == s);
                assert(b.contains(s));
                let m = choose|m: int| 0 <= m < a.len() && a[m] == s;
                if m == 0 {
                    lemma_text_lt_irreflexive(s);
                }
                assert(a1[m - 1] == s);
            }
        }
        lemma_sorted_listing_unique(a1, b1);
        assert(a =~= seq![a[0]] + a1);
        assert(b =~= seq![b[0]] + b1);
    }
}

} // verus!
