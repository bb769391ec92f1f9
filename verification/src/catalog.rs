//! The ordered catalog of ROM file names.
//!
//! A raw directory listing is filtered down to the names with the recognized
//! extension and then ordered: names on a fixed priority list come first, in
//! priority order; all other names keep their listing order and follow.
use vstd::prelude::*;
use vstd::string::StrSliceExecFns;

verus! {

/// Rank of names that match no entry of the priority list; such names sort
/// after every priority match.
pub const UNRANKED: usize = 3;

/// A name is eligible for the catalog when it ends, case-insensitively, with
/// the `.sfc` extension.
pub open spec fn spec_is_rom_name(s: Seq<char>) -> bool {
    &&& s.len() >= 4
    &&& s[s.len() - 4] == '.'
    &&& (s[s.len() - 3] == 's' || s[s.len() - 3] == 'S')
    &&& (s[s.len() - 2] == 'f' || s[s.len() - 2] == 'F')
    &&& (s[s.len() - 1] == 'c' || s[s.len() - 1] == 'C')
}

/// Position of a name on the fixed priority list, or [`UNRANKED`] when it is
/// not listed.
pub open spec fn spec_priority_rank(s: Seq<char>) -> int {
    if s == "smb1.sfc"@ {
        0
    } else if s == "smbll.sfc"@ {
        1
    } else if s == "smw.sfc"@ {
        2
    } else {
        UNRANKED as int
    }
}

/// The subsequence of `names` whose priority rank is exactly `k`, in their
/// original order.
pub open spec fn spec_with_rank(names: Seq<String>, k: int) -> Seq<String>
    decreases names.len(),
{
    if names.len() == 0 {
        Seq::empty()
    } else {
        let rest = spec_with_rank(names.drop_last(), k);
        if spec_priority_rank(names.last()@) == k {
            rest.push(names.last())
        } else {
            rest
        }
    }
}

/// The catalog order: priority matches first, rank by rank, then the
/// unmatched names in their original relative order.
pub open spec fn spec_ordered(names: Seq<String>) -> Seq<String> {
    spec_with_rank(names, 0) + spec_with_rank(names, 1) + spec_with_rank(names, 2)
        + spec_with_rank(names, UNRANKED as int)
}

/// The subsequence of eligible ROM names in a raw listing, in listing order.
pub open spec fn spec_rom_names(listing: Seq<String>) -> Seq<String>
    decreases listing.len(),
{
    if listing.len() == 0 {
        Seq::empty()
    } else {
        let rest = spec_rom_names(listing.drop_last());
        if spec_is_rom_name(listing.last()@) {
            rest.push(listing.last())
        } else {
            rest
        }
    }
}

/// Tests whether a file name ends, case-insensitively, with `.sfc`.
pub fn is_rom_file_name(name: &str) -> (r: bool)
    ensures
        r == spec_is_rom_name(name@),
{
    let n = name.unicode_len();
    if n < 4 {
        return false;
    }
    let dot = name.get_char(n - 4);
    let c1 = name.get_char(n - 3);
    let c2 = name.get_char(n - 2);
    let c3 = name.get_char(n - 1);
    dot == '.' && (c1 == 's' || c1 == 'S') && (c2 == 'f' || c2 == 'F') && (c3 == 'c' || c3 == 'C')
}

/// Computes a name's position on the priority list, or [`UNRANKED`].
pub fn priority_rank(name: &String) -> (r: usize)
    ensures
        r == spec_priority_rank(name@),
{
    let p0: String = "smb1.sfc".to_owned();
    let p1: String = "smbll.sfc".to_owned();
    let p2: String = "smw.sfc".to_owned();
    if *name == p0 {
        0
    } else if *name == p1 {
        1
    } else if *name == p2 {
        2
    } else {
        UNRANKED
    }
}

/// Collects, in order, the names of `names` whose priority rank is `k`.
fn collect_rank(names: &Vec<String>, k: usize) -> (r: Vec<String>)
    ensures
        r@ == spec_with_rank(names@, k as int),
{
    let mut r: Vec<String> = Vec::new();
    let mut i: usize = 0;
    while i < names.len()
        invariant
            i <= names@.len(),
            r@ == spec_with_rank(names@.take(i as int), k as int),
        decreases names@.len() - i,
    {
        proof {
            assert(names@.take(i + 1).drop_last() =~= names@.take(i as int));
            assert(names@.take(i + 1).last() == names@[i as int]);
        }
        if priority_rank(&names[i]) == k {
            r.push(names[i].clone());
        }
        i += 1;
    }
    proof {
        assert(names@.take(names@.len() as int) =~= names@);
    }
    r
}

/// Orders a set of eligible names: priority matches first, in priority
/// order, then the rest in their original relative order.
pub fn order_catalog(names: &Vec<String>) -> (r: Vec<String>)
    ensures
        r@ == spec_ordered(names@),
{
    let mut r = collect_rank(names, 0);
    let mut r1 = collect_rank(names, 1);
    let mut r2 = collect_rank(names, 2);
    let mut r3 = collect_rank(names, UNRANKED);
    r.append(&mut r1);
    r.append(&mut r2);
    r.append(&mut r3);
    r
}

/// Builds the catalog from a raw directory listing: keeps the names with the
/// recognized extension and puts them in catalog order. An empty listing
/// (for instance, from an unreadable directory) yields an empty catalog.
pub fn build_catalog(listing: &Vec<String>) -> (r: Vec<String>)
    ensures
        r@ == spec_ordered(spec_rom_names(listing@)),
{
    let mut roms: Vec<String> = Vec::new();
    let mut i: usize = 0;
    while i < listing.len()
        invariant
            i <= listing@.len(),
            roms@ == spec_rom_names(listing@.take(i as int)),
        decreases listing@.len() - i,
    {
        proof {
            assert(listing@.take(i + 1).drop_last() =~= listing@.take(i as int));
            assert(listing@.take(i + 1).last() == listing@[i as int]);
        }
        if is_rom_file_name(listing[i].as_str()) {
            roms.push(listing[i].clone());
        }
        i += 1;
    }
    proof {
        assert(listing@.take(listing@.len() as int) =~= listing@);
    }
    order_catalog(&roms)
}

} // verus!
