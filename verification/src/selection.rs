//! Choosing items by number: lists such as `1-3,5`, and which items are
//! fetched when some of their files exist already.

use std::collections::BTreeSet;
use vstd::prelude::*;
use vstd::slice::slice_subrange;
use crate::ordered::{has_number, insert_number};
use crate::text::{
    chars_of, find_char, first_char, parse_unsigned, trim, trimmed, unsigned_number,
};

verus! {

/// The number that `s` writes, if it fits `usize`.
pub open spec fn index_number(s: Seq<char>) -> Option<usize> {
    match unsigned_number(s, usize::MAX as nat) {
        Some(n) => Some(n as usize),
        None => None,
    }
}

/// The numbers that one part of a list names: a single number, or every
/// number of a range `a-b`, both ends included. A part that is empty or
/// cannot be read names none, and so does a range whose first end is the
/// larger one.
pub open spec fn part_numbers(part: Seq<char>) -> Set<usize> {
    let p = trimmed(part);
    if p.len() == 0 {
        Set::empty()
    } else {
        match first_char(p, '-', 0) {
            Some(d) => match (index_number(trimmed(p.take(d))), index_number(
                trimmed(p.skip(d + 1)),
            )) {
                (Some(a), Some(b)) => Set::new(|n: usize| a <= n <= b),
                _ => Set::empty(),
            },
            None => match index_number(p) {
                Some(n) => Set::empty().insert(n),
                None => Set::empty(),
            },
        }
    }
}

/// The numbers that a list names: those of each of its parts, which
/// commas separate.
pub open spec fn list_numbers(s: Seq<char>) -> Set<usize>
    decreases s.len(),
{
    match first_char(s, ',', 0) {
        Some(c) => if 0 <= c < s.len() {
            part_numbers(s.take(c)).union(list_numbers(s.skip(c + 1)))
        } else {
            part_numbers(s)
        },
        None => part_numbers(s),
    }
}

fn parse_index(s: &[char]) -> (r: Option<usize>)
    ensures
        r == index_number(s@),
{
    match parse_unsigned(s, usize::MAX as u64) {
        Some(n) => Some(n as usize),
        None => None,
    }
}

fn insert_range(set: &mut BTreeSet<usize>, a: usize, b: usize)
    ensures
        final(set)@ == old(set)@.union(Set::new(|n: usize| a <= n <= b)),
{
    if a > b {
        assert(set@ =~= old(set)@.union(Set::new(|n: usize| a <= n <= b)));
        return ;
    }
    let mut i: usize = a;
    loop
        invariant_except_break
            set@ == old(set)@.union(Set::new(|n: usize| a <= n < i)),
        invariant
            a <= i <= b,
        ensures
            set@ == old(set)@.union(Set::new(|n: usize| a <= n <= b)),
        decreases b - i,
    {
        insert_number(set, i);
        if i == b {
            assert(set@ =~= old(set)@.union(Set::new(|n: usize| a <= n <= b)));
            break ;
        }
        i += 1;
        assert(set@ =~= old(set)@.union(Set::new(|n: usize| a <= n < i)));
    }
}

fn insert_part(set: &mut BTreeSet<usize>, part: &[char])
    ensures
        final(set)@ == old(set)@.union(part_numbers(part@)),
{
    let p = trim(part);
    if p.len() == 0 {
        assert(set@ =~= old(set)@.union(part_numbers(part@)));
        return ;
    }
    match find_char(p, '-', 0) {
        Some(d) => {
            let left = slice_subrange(p, 0, d);
            let right = slice_subrange(p, d + 1, p.len());
            assert(left@ =~= p@.take(d as int));
            assert(right@ =~= p@.skip(d + 1));
            match (parse_index(trim(left)), parse_index(trim(right))) {
                (Some(a), Some(b)) => {
                    insert_range(set, a, b);
                },
                _ => {
                    assert(set@ =~= old(set)@.union(part_numbers(part@)));
                },
            }
        },
        None => match parse_index(p) {
            Some(n) => {
                insert_number(set, n);
                assert(set@ =~= old(set)@.union(part_numbers(part@)));
            },
            None => {
                assert(set@ =~= old(set)@.union(part_numbers(part@)));
            },
        },
    }
}

/// Reads a list of numbers and ranges such as `1-3,5`.
pub fn parse_number_ranges(s: &str) -> (result: BTreeSet<usize>)
    ensures
        result@ == list_numbers(s@),
{
    let chars = chars_of(s);
    let n = chars.len();
    let mut result: BTreeSet<usize> = BTreeSet::new();
    let mut start: usize = 0;
    assert(chars@.skip(0) =~= chars@);
    loop
        invariant_except_break
            result@.union(list_numbers(chars@.skip(start as int))) == list_numbers(chars@),
        invariant
            start <= n,
            n == chars@.len(),
        ensures
            result@ == list_numbers(chars@),
        decreases n - start,
    {
        let rest = slice_subrange(chars.as_slice(), start, n);
        assert(rest@ =~= chars@.skip(start as int));
        match find_char(rest, ',', 0) {
            Some(c) => {
                let part = slice_subrange(rest, 0, c);
                assert(part@ =~= rest@.take(c as int));
                let ghost before = result@;
                insert_part(&mut result, part);
                assert(rest@.skip(c + 1) =~= chars@.skip(start + c + 1));
                assert(result@.union(list_numbers(chars@.skip(start + c + 1))) =~= before.union(
                    list_numbers(rest@),
                ));
                start = start + c + 1;
            },
            None => {
                let ghost before = result@;
                insert_part(&mut result, rest);
                assert(result@ =~= before.union(list_numbers(rest@)));
                break ;
            },
        }
    }
    result
}

/// Which of the first `n` items are fetched: an item whose file does not
/// exist, and one whose number, counted from one, stands in `overwrite`.
pub open spec fn kept(exists: Seq<bool>, overwrite: Set<usize>, n: nat) -> Seq<usize>
    decreases n,
{
    if n == 0 || n > exists.len() {
        seq![]
    } else if overwrite.contains(n as usize) || !exists[n - 1] {
        kept(exists, overwrite, (n - 1) as nat).push((n - 1) as usize)
    } else {
        kept(exists, overwrite, (n - 1) as nat)
    }
}

/// The positions of the items to fetch, in order. `exists` says of each
/// item whether its file is there already, `overwrite` holds the numbers
/// that the user chose to fetch again.
pub fn select_downloads(exists: &Vec<bool>, overwrite: &BTreeSet<usize>) -> (r: Vec<usize>)
    ensures
        r@ == kept(exists@, overwrite@, exists@.len()),
{
    let mut r: Vec<usize> = Vec::new();
    let mut i: usize = 0;
    while i < exists.len()
        invariant
            i <= exists@.len(),
            r@ == kept(exists@, overwrite@, i as nat),
        decreases exists@.len() - i,
    {
        if has_number(overwrite, i + 1) || !exists[i] {
            r.push(i);
        }
        i += 1;
    }
    r
}

/// Where no file exists, every item is fetched.
pub proof fn law_new_files_are_all_kept(exists: Seq<bool>, overwrite: Set<usize>, n: nat)
    requires
        n <= exists.len(),
        n <= usize::MAX,
        forall|i: int| 0 <= i < n ==> !exists[i],
    ensures
        kept(exists, overwrite, n) == Seq::new(n, |i: int| i as usize),
    decreases n,
{
    if n > 0 {
        law_new_files_are_all_kept(exists, overwrite, (n - 1) as nat);
        assert(kept(exists, overwrite, n) =~= Seq::new(n, |i: int| i as usize));
    } else {
        assert(kept(exists, overwrite, n) =~= Seq::new(n, |i: int| i as usize));
    }
}

} // verus!
