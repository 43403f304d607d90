//! Candidate-catalog ordering.
//!
//! Batch-file names follow the shape `base_variant (provider).bat`. The
//! catalog lists them hierarchically: by base name, then by variant, with a
//! provider-less entry before its provider variants, and provider entries
//! by provider name. Splitting a name into these components and the
//! resulting order are verified here.

use core::cmp::Ordering;
use vstd::prelude::*;
use vstd::string::*;

use crate::text::{ends_with_str, find_char_from, first_char_from, is_suffix_of};

verus! {

/// The name with every trailing `.bat` removed.
pub open spec fn strip_bat(s: Seq<char>) -> Seq<char>
    decreases s.len(),
{
    if s.len() >= 4 && is_suffix_of(s, ".bat"@) {
        strip_bat(s.take(s.len() - 4))
    } else {
        s
    }
}

/// A name splits cleanly when its first parenthesis, if any, is not the
/// very first character: the splitter drops the separator character before
/// the parenthesis, so there has to be one.
pub open spec fn splits_cleanly_spec(name: Seq<char>) -> bool {
    first_char_from(strip_bat(name), '(', 0) != 0
}

/// The part of the stripped name before the provider parenthesis (less the
/// separator character), or all of it when there is no parenthesis.
pub open spec fn main_of(name: Seq<char>) -> Seq<char> {
    let t = strip_bat(name);
    let p = first_char_from(t, '(', 0);
    if p < t.len() {
        t.subrange(0, p - 1)
    } else {
        t
    }
}

/// The provider parenthesis of the stripped name, or empty when there is
/// none.
pub open spec fn provider_of(name: Seq<char>) -> Seq<char> {
    let t = strip_bat(name);
    let p = first_char_from(t, '(', 0);
    if p < t.len() {
        t.subrange(p, t.len() as int)
    } else {
        Seq::<char>::empty()
    }
}

/// The base component: the main part up to its first underscore.
pub open spec fn base_of(name: Seq<char>) -> Seq<char> {
    let m = main_of(name);
    m.subrange(0, first_char_from(m, '_', 0))
}

/// The variant component: the main part after its first underscore, or
/// empty when there is none.
pub open spec fn variant_of(name: Seq<char>) -> Seq<char> {
    let m = main_of(name);
    let u = first_char_from(m, '_', 0);
    if u < m.len() {
        m.subrange(u + 1, m.len() as int)
    } else {
        Seq::<char>::empty()
    }
}

/// The name carries a provider parenthesis.
pub open spec fn has_provider_of(name: Seq<char>) -> bool {
    provider_of(name).len() > 0
}

/// Whether the splitter accepts this name: its first parenthesis, if any,
/// is not the leading character.
pub fn splits_cleanly(name: &str) -> (r: bool)
    ensures
        r == splits_cleanly_spec(name@),
{
    let stripped = strip_bat_str(name);
    let p = find_char_from(stripped.as_str(), '(', 0);
    p != 0
}

/// The name with every trailing `.bat` removed.
pub fn strip_bat_str(name: &str) -> (r: String)
    ensures
        r@ == strip_bat(name@),
{
    let mut cur = String::from_str(name);
    while cur.unicode_len() >= 4 && ends_with_str(cur.as_str(), ".bat")
        invariant
            strip_bat(name@) == strip_bat(cur@),
        decreases cur@.len(),
    {
        let l = cur.unicode_len();
        proof {
            assert(strip_bat(cur@) == strip_bat(cur@.take(cur@.len() - 4)));
        }
        let shorter = String::from_str(cur.as_str().substring_char(0, l - 4));
        cur = shorter;
    }
    cur
}

/// Splits a batch-file name into base, variant, provider and whether it has
/// a provider.
pub fn split_filename(name: &str) -> (r: (String, String, String, bool))
    requires
        splits_cleanly_spec(name@),
    ensures
        r.0@ == base_of(name@),
        r.1@ == variant_of(name@),
        r.2@ == provider_of(name@),
        r.3 == has_provider_of(name@),
{
    let stripped = strip_bat_str(name);
    let t = stripped.as_str();
    let tl = t.unicode_len();
    let p = find_char_from(t, '(', 0);
    let main_s: String;
    let paren_s: String;
    if p < tl {
        main_s = String::from_str(t.substring_char(0, p - 1));
        paren_s = String::from_str(t.substring_char(p, tl));
    } else {
        main_s = String::from_str(t);
        paren_s = String::new();
    }
    let m = main_s.as_str();
    let ml = m.unicode_len();
    let u = find_char_from(m, '_', 0);
    let base = String::from_str(m.substring_char(0, u));
    let variant = if u < ml {
        String::from_str(m.substring_char(u + 1, ml))
    } else {
        String::new()
    };
    let has = paren_s.unicode_len() > 0;
    (base, variant, paren_s, has)
}

/// Lexicographic comparison of two character sequences by code point, the
/// order `str` comparison uses.
pub open spec fn lex_cmp(x: Seq<char>, y: Seq<char>) -> Ordering
    decreases x.len(),
{
    if x.len() == 0 && y.len() == 0 {
        Ordering::Equal
    } else if x.len() == 0 {
        Ordering::Less
    } else if y.len() == 0 {
        Ordering::Greater
    } else if (x[0] as u32) < (y[0] as u32) {
        Ordering::Less
    } else if (x[0] as u32) > (y[0] as u32) {
        Ordering::Greater
    } else {
        lex_cmp(x.skip(1), y.skip(1))
    }
}

/// Lexicographic comparison of two string slices.
pub fn cmp_str(a: &str, b: &str) -> (r: Ordering)
    ensures
        r == lex_cmp(a@, b@),
{
    let na = a.unicode_len();
    let nb = b.unicode_len();
    proof {
        assert(a@.skip(0) =~= a@);
        assert(b@.skip(0) =~= b@);
    }
    let mut i: usize = 0;
    while i < na && i < nb
        invariant
            na == a@.len(),
            nb == b@.len(),
            i <= na,
            i <= nb,
            lex_cmp(a@, b@) == lex_cmp(a@.skip(i as int), b@.skip(i as int)),
        decreases na - i,
    {
        let ca = a.get_char(i);
        let cb = b.get_char(i);
        proof {
            assert(a@.skip(i as int)[0] == a@[i as int]);
            assert(b@.skip(i as int)[0] == b@[i as int]);
            assert(a@.skip(i as int).skip(1) =~= a@.skip(i + 1));
            assert(b@.skip(i as int).skip(1) =~= b@.skip(i + 1));
        }
        if (ca as u32) < (cb as u32) {
            return Ordering::Less;
        }
        if (ca as u32) > (cb as u32) {
            return Ordering::Greater;
        }
        i = i + 1;
    }
    if na == nb {
        Ordering::Equal
    } else if na < nb {
        Ordering::Less
    } else {
        Ordering::Greater
    }
}

/// The catalog order on two batch-file names: by base, then by variant,
/// then provider-less before provider, then by provider name.
pub open spec fn catalog_cmp(a: Seq<char>, b: Seq<char>) -> Ordering {
    let ob = lex_cmp(base_of(a), base_of(b));
    if ob != Ordering::Equal {
        ob
    } else {
        let ov = lex_cmp(variant_of(a), variant_of(b));
        if ov != Ordering::Equal {
            ov
        } else {
            if !has_provider_of(a) && has_provider_of(b) {
                Ordering::Less
            } else if has_provider_of(a) && !has_provider_of(b) {
                Ordering::Greater
            } else {
                lex_cmp(provider_of(a), provider_of(b))
            }
        }
    }
}

/// Compares two batch-file names in catalog order.
pub fn custom_sort(a: &str, b: &str) -> (r: Ordering)
    requires
        splits_cleanly_spec(a@),
        splits_cleanly_spec(b@),
    ensures
        r == catalog_cmp(a@, b@),
{
    let (a_base, a_variant, a_provider, a_has) = split_filename(a);
    let (b_base, b_variant, b_provider, b_has) = split_filename(b);
    match cmp_str(a_base.as_str(), b_base.as_str()) {
        Ordering::Equal => {
            match cmp_str(a_variant.as_str(), b_variant.as_str()) {
                Ordering::Equal => {
                    if !a_has && b_has {
                        Ordering::Less
                    } else if a_has && !b_has {
                        Ordering::Greater
                    } else {
                        cmp_str(a_provider.as_str(), b_provider.as_str())
                    }
                },
                other => other,
            }
        },
        other => other,
    }
}

/// Lexicographic comparison is antisymmetric.
pub proof fn lemma_lex_flip(x: Seq<char>, y: Seq<char>)
    ensures
        (lex_cmp(x, y) == Ordering::Less) <==> (lex_cmp(y, x) == Ordering::Greater),
        (lex_cmp(x, y) == Ordering::Equal) <==> (lex_cmp(y, x) == Ordering::Equal),
    decreases x.len(),
{
    if x.len() > 0 && y.len() > 0 && (x[0] as u32) == (y[0] as u32) {
        lemma_lex_flip(x.skip(1), y.skip(1));
    }
}

/// Catalog comparison is antisymmetric: a name ordered after another is
/// ordered before it from the other side.
pub proof fn lemma_catalog_flip(a: Seq<char>, b: Seq<char>)
    ensures
        (catalog_cmp(a, b) == Ordering::Greater) ==> (catalog_cmp(b, a) == Ordering::Less),
{
    lemma_lex_flip(base_of(a), base_of(b));
    lemma_lex_flip(variant_of(a), variant_of(b));
    lemma_lex_flip(provider_of(a), provider_of(b));
}

/// `a` is not after `b` in catalog order.
pub open spec fn catalog_le(a: Seq<char>, b: Seq<char>) -> bool {
    catalog_cmp(a, b) != Ordering::Greater
}

/// The names stand in catalog order: every adjacent pair is ordered.
pub open spec fn sorted_by_catalog(v: Seq<String>) -> bool {
    forall|i: int| #![trigger v[i]] 0 <= i && i + 1 < v.len() ==> catalog_le(v[i]@, v[i + 1]@)
}

/// Every name in the list splits cleanly.
pub open spec fn all_split_cleanly(v: Seq<String>) -> bool {
    forall|i: int| 0 <= i < v.len() ==> splits_cleanly_spec(v[i]@)
}

/// Whether an ordering says "after".
fn ord_is_greater(o: Ordering) -> (r: bool)
    ensures
        r == (o == Ordering::Greater),
{
    match o {
        Ordering::Greater => true,
        _ => false,
    }
}

/// Inserts `x` into a catalog-ordered list, keeping the order: `x` goes in
/// front of the first entry ordered after it.
fn insert_in_order(out: &mut Vec<String>, x: String)
    requires
        sorted_by_catalog(old(out)@),
        all_split_cleanly(old(out)@),
        splits_cleanly_spec(x@),
    ensures
        sorted_by_catalog(final(out)@),
        all_split_cleanly(final(out)@),
        final(out)@.to_multiset() == old(out)@.to_multiset().insert(x),
        final(out)@.len() == old(out)@.len() + 1,
{
    broadcast use vstd::seq_lib::group_to_multiset_ensures;

    let n = out.len();
    let mut p: usize = 0;
    while p < n
        invariant
            n == out@.len(),
            p <= n,
            all_split_cleanly(out@),
            splits_cleanly_spec(x@),
            forall|k: int| 0 <= k < p ==> catalog_le(out@[k]@, x@),
        ensures
            p <= n,
            n == out@.len(),
            forall|k: int| 0 <= k < p ==> catalog_le(out@[k]@, x@),
            p < n ==> catalog_cmp(out@[p as int]@, x@) == Ordering::Greater,
        decreases n - p,
    {
        let o = custom_sort(out[p].as_str(), x.as_str());
        if ord_is_greater(o) {
            break ;
        }
        p = p + 1;
    }
    proof {
        old(out)@.insert_ensures(p as int, x);
        if p < n {
            lemma_catalog_flip(out@[p as int]@, x@);
        }
    }
    out.insert(p, x);
    proof {
        let w = out@;
        let prev = old(out)@;
        assert forall|i: int| #![trigger w[i]] 0 <= i && i + 1 < w.len() implies catalog_le(
            w[i]@,
            w[i + 1]@,
        ) by {
            if i + 1 < p {
                assert(w[i] == prev[i] && w[i + 1] == prev[i + 1]);
            } else if i + 1 == p {
                assert(w[i] == prev[i] && w[i + 1] == x);
            } else if i == p {
                assert(w[i] == x && w[i + 1] == prev[i]);
            } else {
                assert(w[i] == prev[i - 1] && w[i + 1] == prev[i]);
            }
        }
        assert forall|i: int| 0 <= i < w.len() implies splits_cleanly_spec(w[i]@) by {
            if i < p {
                assert(w[i] == prev[i]);
            } else if i == p {
                assert(w[i] == x);
            } else {
                assert(w[i] == prev[i - 1]);
            }
        }
    }
}

/// Sorts a list of batch-file names into catalog order. The result is a
/// rearrangement of the input: same names, same multiplicities.
pub fn sort_batch_names(names: &mut Vec<String>)
    requires
        all_split_cleanly(old(names)@),
    ensures
        final(names)@.to_multiset() == old(names)@.to_multiset(),
        final(names)@.len() == old(names)@.len(),
        sorted_by_catalog(final(names)@),
{
    broadcast use vstd::seq_lib::group_to_multiset_ensures;

    let n = names.len();
    let mut out: Vec<String> = Vec::new();
    proof {
        assert(names@.take(0) =~= Seq::<String>::empty());
        assert(Seq::<String>::empty().to_multiset() =~= out@.to_multiset());
    }
    let mut i: usize = 0;
    while i < n
        invariant
            n == names@.len(),
            i <= n,
            all_split_cleanly(names@),
            sorted_by_catalog(out@),
            all_split_cleanly(out@),
            out@.len() == i,
            out@.to_multiset() == names@.take(i as int).to_multiset(),
        decreases n - i,
    {
        let x = names[i].clone();
        proof {
            assert(names@.take(i + 1) =~= names@.take(i as int).push(names@[i as int]));
        }
        insert_in_order(&mut out, x);
        proof {
            let prefix = names@.take(i as int);
            let e = names@[i as int];
            vstd::seq_lib::to_multiset_build(prefix, e);
            assert(prefix.push(e).to_multiset() =~= prefix.to_multiset().insert(e));
            assert(names@.take(i + 1).to_multiset() == prefix.push(e).to_multiset());
        }
        i = i + 1;
    }
    proof {
        assert(names@.take(n as int) =~= names@);
    }
    *names = out;
}

} // verus!
