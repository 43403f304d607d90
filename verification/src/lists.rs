//! Domain-list selection logic.
//!
//! The domain selector offers the `list-*.txt` files of the lists directory
//! and merges the chosen ones into one combined list. Which files qualify,
//! and what the merged contents are, is verified here; reading and writing
//! the files is the surrounding driver's job.

use core::cmp::Ordering;
use vstd::prelude::*;
use vstd::string::*;

use crate::catalog::{cmp_str, lemma_lex_flip, lex_cmp};
use crate::domain::{trim_str, trimmed};
use crate::text::{eq_str, ends_with_str, is_prefix_of, is_suffix_of, starts_with_str};

verus! {

/// A selectable domain-list file: named `list-*.txt`, but not the combined
/// list itself.
pub open spec fn is_list_name(name: Seq<char>) -> bool {
    &&& is_prefix_of(name, "list-"@)
    &&& is_suffix_of(name, ".txt"@)
    &&& name != "list-ultimate.txt"@
}

/// Whether `name` names a selectable domain-list file.
pub fn is_list_file_name(name: &str) -> (r: bool)
    ensures
        r == is_list_name(name@),
{
    starts_with_str(name, "list-") && ends_with_str(name, ".txt") && !eq_str(
        name,
        "list-ultimate.txt",
    )
}

/// What selecting an entry of the domain-list menu means: one of the two
/// fixed control entries, or a list file whose selection is toggled.
#[derive(Debug, PartialEq, Eq, Structural, Clone, Copy)]
pub enum ListMenuKind {
    SaveList,
    Cancel,
    ToggleFile,
}

/// The meaning of the menu entry `name`.
pub open spec fn list_menu_kind_of(name: Seq<char>) -> ListMenuKind {
    if name == "SAVE LIST"@ {
        ListMenuKind::SaveList
    } else if name == "CANCEL"@ {
        ListMenuKind::Cancel
    } else {
        ListMenuKind::ToggleFile
    }
}

/// Classifies a selected entry of the domain-list menu.
pub fn list_menu_kind(name: &str) -> (r: ListMenuKind)
    ensures
        r == list_menu_kind_of(name@),
{
    if eq_str(name, "SAVE LIST") {
        ListMenuKind::SaveList
    } else if eq_str(name, "CANCEL") {
        ListMenuKind::Cancel
    } else {
        ListMenuKind::ToggleFile
    }
}

/// `a` is not after `b` in plain name order.
pub open spec fn name_le(a: Seq<char>, b: Seq<char>) -> bool {
    lex_cmp(a, b) != Ordering::Greater
}

/// The names stand in plain lexicographic order: every adjacent pair is
/// ordered.
pub open spec fn sorted_by_name(v: Seq<String>) -> bool {
    forall|i: int| #![trigger v[i]] 0 <= i && i + 1 < v.len() ==> name_le(v[i]@, v[i + 1]@)
}

/// Inserts `x` into a name-ordered list, keeping the order.
fn insert_by_name(out: &mut Vec<String>, x: String)
    requires
        sorted_by_name(old(out)@),
    ensures
        sorted_by_name(final(out)@),
        final(out)@.to_multiset() == old(out)@.to_multiset().insert(x),
        final(out)@.len() == old(out)@.len() + 1,
{
    broadcast use vstd::seq_lib::group_to_multiset_ensures;

    let n = out.len();
    let mut p: usize = 0;
    while p < n
        invariant
            n == out@.len(),
            p <= n,
            forall|k: int| 0 <= k < p ==> name_le(out@[k]@, x@),
        ensures
            p <= n,
            n == out@.len(),
            forall|k: int| 0 <= k < p ==> name_le(out@[k]@, x@),
            p < n ==> lex_cmp(out@[p as int]@, x@) == Ordering::Greater,
        decreases n - p,
    {
        let o = cmp_str(out[p].as_str(), x.as_str());
        let is_greater = match o {
            Ordering::Greater => true,
            _ => false,
        };
        if is_greater {
            break ;
        }
        p = p + 1;
    }
    proof {
        old(out)@.insert_ensures(p as int, x);
        if p < n {
            lemma_lex_flip(out@[p as int]@, x@);
        }
    }
    out.insert(p, x);
    proof {
        let w = out@;
        let prev = old(out)@;
        assert forall|i: int| #![trigger w[i]] 0 <= i && i + 1 < w.len() implies name_le(
            w[i]@,
            w[i + 1]@,
        ) by {
            if i + 1 < p {
                assert(w[i] == prev[i] && w[i + 1] == prev[i + 1]);
            } else if i + 1 == p {
                assert(w[i] == prev[i] && w[i + 1] == x);
            } else if i == p {
                assert(w[i] == x && w[i + 1] == prev[i]);
            } else {
                assert(w[i] == prev[i - 1] && w[i + 1] == prev[i]);
            }
        }
    }
}

/// Sorts list-file names into plain lexicographic order. The result is a
/// rearrangement of the input: same names, same multiplicities.
pub fn sort_names(names: &mut Vec<String>)
    ensures
        final(names)@.to_multiset() == old(names)@.to_multiset(),
        final(names)@.len() == old(names)@.len(),
        sorted_by_name(final(names)@),
{
    broadcast use vstd::seq_lib::group_to_multiset_ensures;

    let n = names.len();
    let mut out: Vec<String> = Vec::new();
    proof {
        assert(names@.take(0) =~= Seq::<String>::empty());
        assert(Seq::<String>::empty().to_multiset() =~= out@.to_multiset());
    }
    let mut i: usize = 0;
    while i < n
        invariant
            n == names@.len(),
            i <= n,
            sorted_by_name(out@),
            out@.len() == i,
            out@.to_multiset() == names@.take(i as int).to_multiset(),
        decreases n - i,
    {
        let x = names[i].clone();
        insert_by_name(&mut out, x);
        proof {
            let prefix = names@.take(i as int);
            let e = names@[i as int];
            vstd::seq_lib::to_multiset_build(prefix, e);
            assert(prefix.push(e).to_multiset() =~= prefix.to_multiset().insert(e));
            assert(names@.take(i + 1) =~= prefix.push(e));
        }
        i = i + 1;
    }
    proof {
        assert(names@.take(n as int) =~= names@);
    }
    *names = out;
}

/// The merged list: each file's contents trimmed, each followed by one
/// newline, in selection order.
pub open spec fn merged_lists(contents: Seq<String>) -> Seq<char>
    decreases contents.len(),
{
    if contents.len() == 0 {
        Seq::<char>::empty()
    } else {
        merged_lists(contents.drop_last()) + trimmed(contents.last()@) + "\n"@
    }
}

/// Merges the selected files' contents into the combined list.
pub fn merge_contents(contents: &Vec<String>) -> (r: String)
    ensures
        r@ == merged_lists(contents@),
{
    let n = contents.len();
    let mut out = String::new();
    let mut i: usize = 0;
    proof {
        assert(contents@.take(0) =~= Seq::<String>::empty());
    }
    while i < n
        invariant
            n == contents@.len(),
            i <= n,
            out@ == merged_lists(contents@.take(i as int)),
        decreases n - i,
    {
        proof {
            assert(contents@.take(i + 1).drop_last() =~= contents@.take(i as int));
            assert(contents@.take(i + 1).last() == contents@[i as int]);
        }
        let piece = trim_str(contents[i].as_str());
        out.append(piece.as_str());
        out.append("\n");
        i = i + 1;
    }
    proof {
        assert(contents@.take(n as int) =~= contents@);
    }
    out
}

} // verus!
