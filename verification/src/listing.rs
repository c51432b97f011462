//! The page-listing engine.
//!
//! A directory walk yields entries (directories and files); this module holds
//! the traversal filter that decides which directories the walk may enter,
//! and the accumulation step that turns the walked entries into a sorted,
//! duplicate-free sequence of page names.

use vstd::prelude::*;
use crate::order::{lex_lt, str_lt, str_eq};
use crate::order::{lemma_lex_lt_irrefl, lemma_lex_lt_connex, lemma_lex_lt_trans};
use crate::paths::{md_stem, page_stem};

verus! {

/// One entry met by the directory walk: whether it is a regular file, and its
/// bare file name (no directory components).
pub struct WalkEntry {
    pub is_file: bool,
    pub name: String,
}

/// Whether the traversal may keep an entry: directories only when they are
/// the `common` tier or the active platform tier, files always.
pub open spec fn spec_entry_allowed(
    is_dir: bool,
    name: Seq<char>,
    token: Option<Seq<char>>,
) -> bool {
    if is_dir {
        name == "common"@ || token == Some(name)
    } else {
        true
    }
}

/// The traversal filter: directories other than `common` and the active
/// platform tier are pruned, so the walk never descends into page tiers of
/// other platforms.
pub fn entry_allowed(is_dir: bool, name: &str, token: Option<&str>) -> (r: bool)
    ensures
        r == spec_entry_allowed(
            is_dir,
            name@,
            match token {
                Some(t) => Some(t@),
                None => None,
            },
        ),
{
    if !is_dir {
        return true;
    }
    if str_eq(name, "common") {
        return true;
    }
    match token {
        Some(t) => str_eq(name, t),
        None => false,
    }
}

/// Whether some string in `s` holds exactly the characters `x`.
pub open spec fn has_name(s: Seq<String>, x: Seq<char>) -> bool {
    exists|i: int| 0 <= i < s.len() && s[i]@ == x
}

/// Whether the strings in `s` are in strictly ascending lexicographic order.
pub open spec fn strictly_sorted(s: Seq<String>) -> bool {
    forall|i: int, j: int| 0 <= i < j < s.len() ==> lex_lt(s[i]@, s[j]@)
}

/// Whether entry `k` of `entries` contributes the page name `x`: it is a
/// regular file whose name carries the page extension, and `x` is the name
/// with the extension stripped.
pub open spec fn entry_yields(entries: Seq<WalkEntry>, k: int, x: Seq<char>) -> bool {
    0 <= k < entries.len() && entries[k].is_file && md_stem(entries[k].name@) == Some(x)
}

/// A strictly sorted sequence never holds the same characters twice.
pub proof fn lemma_strictly_sorted_distinct(s: Seq<String>)
    requires
        strictly_sorted(s),
    ensures
        forall|i: int, j: int| 0 <= i < j < s.len() ==> s[i]@ != s[j]@,
{
    assert forall|i: int, j: int| 0 <= i < j < s.len() implies s[i]@ != s[j]@ by {
        lemma_lex_lt_irrefl(s[i]@);
    }
}

/// Inserts `s` into the strictly sorted `v`, keeping the order and dropping
/// the insertion when an equal string is already present.
fn insert_sorted_unique(v: &mut Vec<String>, s: String)
    requires
        strictly_sorted(old(v)@),
    ensures
        strictly_sorted(final(v)@),
        forall|x: Seq<char>|
            has_name(final(v)@, x) <==> (has_name(old(v)@, x) || x == s@),
{
    let mut idx: usize = 0;
    while idx < v.len() && str_lt(v[idx].as_str(), s.as_str())
        invariant
            idx <= v@.len(),
            strictly_sorted(v@),
            v@ == old(v)@,
            forall|j: int| 0 <= j < idx ==> lex_lt(v@[j]@, s@),
        decreases v@.len() - idx,
    {
        idx = idx + 1;
    }
    if idx < v.len() && !str_lt(s.as_str(), v[idx].as_str()) {
        // An equal name is already in place: nothing to add.
        proof {
            lemma_lex_lt_connex(v@[idx as int]@, s@);
            assert(v@[idx as int]@ == s@);
            assert(has_name(v@, s@));
        }
    } else {
        proof {
            if idx < v@.len() {
                assert forall|j: int| idx <= j < v@.len() implies lex_lt(s@, v@[j]@) by {
                    if j > idx {
                        lemma_lex_lt_trans(s@, v@[idx as int]@, v@[j]@);
                    }
                }
            }
        }
        let ghost prev = v@;
        v.insert(idx, s);
        proof {
            prev.insert_ensures(idx as int, s);
            assert forall|x: Seq<char>|
                has_name(v@, x) <==> (has_name(prev, x) || x == s@) by {
                if has_name(v@, x) {
                    let i = choose|i: int| 0 <= i < v@.len() && v@[i]@ == x;
                    if i < idx {
                        assert(prev[i]@ == x);
                    } else if i > idx {
                        assert(prev[i - 1]@ == x);
                    }
                }
                if has_name(prev, x) {
                    let i = choose|i: int| 0 <= i < prev.len() && prev[i]@ == x;
                    if i < idx {
                        assert(v@[i]@ == x);
                    } else {
                        assert(v@[i + 1]@ == x);
                    }
                }
                if x == s@ {
                    assert(v@[idx as int]@ == x);
                }
            }
        }
    }
}

/// A strictly sorted listing is determined, position by position, by the set
/// of names it holds: two strictly sorted listings with the same names are
/// the same listing. So repeated listings of an unchanged tree agree, and
/// the output order never depends on the order the entries were met in.
pub proof fn lemma_listing_deterministic(a: Seq<String>, b: Seq<String>)
    requires
        strictly_sorted(a),
        strictly_sorted(b),
        forall|x: Seq<char>| has_name(a, x) <==> has_name(b, x),
    ensures
        a.len() == b.len(),
        forall|i: int| 0 <= i < a.len() ==> a[i]@ == b[i]@,
    decreases a.len(),
{
    if a.len() == 0 {
        if b.len() > 0 {
            assert(has_name(b, b[0]@));
            assert(false);
        }
    } else {
        assert(has_name(a, a[0]@));
        assert(has_name(b, b[0]@));
        let j = choose|j: int| 0 <= j < b.len() && b[j]@ == a[0]@;
        let k = choose|k: int| 0 <= k < a.len() && a[k]@ == b[0]@;
        if j > 0 && k > 0 {
            lemma_lex_lt_trans(a[0]@, b[0]@, a[0]@);
            lemma_lex_lt_irrefl(a[0]@);
        }
        assert(a[0]@ == b[0]@);
        let at = a.drop_first();
        let bt = b.drop_first();
        assert forall|x: Seq<char>| has_name(at, x) implies has_name(bt, x) by {
            let i = choose|i: int| 0 <= i < at.len() && at[i]@ == x;
            assert(a[i + 1]@ == x);
            assert(has_name(a, x));
            let m = choose|m: int| 0 <= m < b.len() && b[m]@ == x;
            if m == 0 {
                // the head cannot reappear later in a strictly sorted sequence
                lemma_lex_lt_irrefl(a[0]@);
            }
            assert(bt[m - 1]@ == x);
        }
        assert forall|x: Seq<char>| has_name(bt, x) implies has_name(at, x) by {
            let i = choose|i: int| 0 <= i < bt.len() && bt[i]@ == x;
            assert(b[i + 1]@ == x);
            assert(has_name(b, x));
            let m = choose|m: int| 0 <= m < a.len() && a[m]@ == x;
            if m == 0 {
                lemma_lex_lt_irrefl(b[0]@);
            }
            assert(at[m - 1]@ == x);
        }
        lemma_listing_deterministic(at, bt);
        assert forall|i: int| 0 <= i < a.len() implies a[i]@ == b[i]@ by {
            if i > 0 {
                assert(at[i - 1]@ == bt[i - 1]@);
            }
        }
    }
}

/// Collects the page names among the walked entries into a strictly sorted
/// sequence: a name appears in the result exactly when some walked regular
/// file carries it with the page extension, and it appears once however many
/// entries carry it.
pub fn pages_from_entries(entries: &Vec<WalkEntry>) -> (r: Vec<String>)
    ensures
        strictly_sorted(r@),
        forall|x: Seq<char>|
            has_name(r@, x) <==> exists|k: int| entry_yields(entries@, k, x),
{
    let mut out: Vec<String> = Vec::new();
    let mut i: usize = 0;
    while i < entries.len()
        invariant
            i <= entries@.len(),
            strictly_sorted(out@),
            forall|x: Seq<char>|
                has_name(out@, x) <==> exists|k: int| k < i && entry_yields(entries@, k, x),
        decreases entries@.len() - i,
    {
        if entries[i].is_file {
            match page_stem(entries[i].name.as_str()) {
                Some(stem) => {
                    proof {
                        assert(entry_yields(entries@, i as int, stem@));
                    }
                    insert_sorted_unique(&mut out, stem);
                }
                None => {
                    proof {
                        assert forall|x: Seq<char>, k: int|
                            k < i + 1 && entry_yields(entries@, k, x) implies k < i by {}
                    }
                }
            }
        }
        i = i + 1;
    }
    out
}

} // verus!
