//! What is worked out from the names that the groups of a pattern bear.

use vstd::prelude::*;
use vstd::string::StringSliceAdditionalSpecFns;

use crate::bytes::{copy, equal};
use crate::exception::{Exception, Kind};
use crate::regexp::backend::{table_view, NilableString};
use crate::regexp::backend::capture::{nilable_view, nilables_view};
use crate::types::Int;

verus! {

/// The least of the group numbers, or the greatest size where there is none.
pub open spec fn least(groups: Seq<usize>) -> usize
    decreases groups.len(),
{
    if groups.len() == 0 {
        usize::MAX
    } else {
        let before = least(groups.drop_last());
        if groups.last() < before {
            groups.last()
        } else {
            before
        }
    }
}

/// Where `rank` goes in a list of ranks in rising order: behind the last that
/// is not greater.
pub open spec fn place_of(ranks: Seq<usize>, rank: usize) -> int
    decreases ranks.len(),
{
    if ranks.len() == 0 {
        0
    } else if ranks.last() <= rank {
        ranks.len() as int
    } else {
        place_of(ranks.drop_last(), rank)
    }
}

/// The names of a table ordered by the least group number of each, a name
/// that comes earlier in the table before one of the same rank that comes
/// later, with the rank beside each name.
pub open spec fn ranked(table: Seq<(Seq<u8>, Seq<usize>)>) -> Seq<(usize, Seq<u8>)>
    decreases table.len(),
{
    if table.len() == 0 {
        Seq::empty()
    } else {
        let before = ranked(table.drop_last());
        let rank = least(table.last().1);
        before.insert(
            place_of(before.map_values(|entry: (usize, Seq<u8>)| entry.0), rank),
            (rank, table.last().0),
        )
    }
}

/// The names of a list, each once, where it first occurs.
pub open spec fn distinct(names: Seq<(usize, Seq<u8>)>) -> Seq<Seq<u8>>
    decreases names.len(),
{
    if names.len() == 0 {
        Seq::empty()
    } else {
        let before = distinct(names.drop_last());
        if before.contains(names.last().1) {
            before
        } else {
            before.push(names.last().1)
        }
    }
}

/// What `names` gives: the group names, each once, ordered by the least
/// number of the groups that bear it.
pub open spec fn names_spec(table: Seq<(Seq<u8>, Seq<usize>)>) -> Seq<Seq<u8>> {
    distinct(ranked(table))
}

/// A list of byte strings, each seen as a sequence.
pub open spec fn strings_view(strings: Seq<Vec<u8>>) -> Seq<Seq<u8>> {
    strings.map_values(|string: Vec<u8>| string@)
}

/// A list of ranked names, each name seen as a sequence.
pub open spec fn ranked_view(names: Seq<(usize, Vec<u8>)>) -> Seq<(usize, Seq<u8>)> {
    names.map_values(|entry: (usize, Vec<u8>)| (entry.0, entry.1@))
}

/// The least of the group numbers, or the greatest size where there is none.
pub fn least_group(groups: &Vec<usize>) -> (r: usize)
    ensures
        r == least(groups@),
{
    let mut found: usize = usize::MAX;
    let mut i: usize = 0;
    while i < groups.len()
        invariant
            i <= groups@.len(),
            found == least(groups@.take(i as int)),
        decreases groups@.len() - i,
    {
        proof {
            assert(groups@.take(i + 1).drop_last() =~= groups@.take(i as int));
        }
        if groups[i] < found {
            found = groups[i];
        }
        i += 1;
    }
    assert(groups@.take(groups@.len() as int) =~= groups@);
    found
}

/// Where `rank` goes in a list of ranked names in rising order.
fn place(names: &Vec<(usize, Vec<u8>)>, rank: usize) -> (r: usize)
    ensures
        r == place_of(ranked_view(names@).map_values(|entry: (usize, Seq<u8>)| entry.0), rank),
        r <= names@.len(),
{
    let ghost ranks = ranked_view(names@).map_values(|entry: (usize, Seq<u8>)| entry.0);
    let mut at: usize = names.len();
    assert(ranks.take(at as int) =~= ranks);
    while at > 0
        invariant
            at <= names@.len(),
            ranks == ranked_view(names@).map_values(|entry: (usize, Seq<u8>)| entry.0),
            place_of(ranks, rank) == place_of(ranks.take(at as int), rank),
        decreases at,
    {
        proof {
            assert(ranks.take(at as int).drop_last() =~= ranks.take(at - 1));
        }
        if names[at - 1].0 <= rank {
            return at;
        }
        at -= 1;
    }
    0
}

/// The group names of a pattern, each once, ordered by the least number of
/// the groups that bear it.
pub fn names(table: &Vec<(Vec<u8>, Vec<usize>)>) -> (r: Vec<Vec<u8>>)
    ensures
        strings_view(r@) == names_spec(table_view(table@)),
{
    let ghost all = table_view(table@);
    let mut sorted: Vec<(usize, Vec<u8>)> = Vec::new();
    let mut i: usize = 0;
    while i < table.len()
        invariant
            i <= table@.len(),
            all == table_view(table@),
            ranked_view(sorted@) == ranked(all.take(i as int)),
        decreases table@.len() - i,
    {
        proof {
            assert(all.take(i + 1).drop_last() =~= all.take(i as int));
        }
        let rank: usize = least_group(&table[i].1);
        let at: usize = place(&sorted, rank);
        let name: Vec<u8> = copy(table[i].0.as_slice());
        sorted.insert(at, (rank, name));
        i += 1;
    }
    assert(all.take(table@.len() as int) =~= all);
    let ghost order = ranked_view(sorted@);
    let mut out: Vec<Vec<u8>> = Vec::new();
    let mut j: usize = 0;
    while j < sorted.len()
        invariant
            j <= sorted@.len(),
            order == ranked_view(sorted@),
            strings_view(out@) == distinct(order.take(j as int)),
        decreases sorted@.len() - j,
    {
        proof {
            assert(order.take(j + 1).drop_last() =~= order.take(j as int));
        }
        let known: bool = contains(&out, sorted[j].1.as_slice());
        if !known {
            let name: Vec<u8> = copy(sorted[j].1.as_slice());
            out.push(name);
        }
        j += 1;
    }
    assert(order.take(sorted@.len() as int) =~= order);
    out
}

/// Whether a list of byte strings holds `name`.
pub fn contains(strings: &Vec<Vec<u8>>, name: &[u8]) -> (r: bool)
    ensures
        r == strings_view(strings@).contains(name@),
{
    let mut i: usize = 0;
    while i < strings.len()
        invariant
            i <= strings@.len(),
            forall|k: int| 0 <= k < i ==> strings_view(strings@)[k] != name@,
        decreases strings@.len() - i,
    {
        if equal(strings[i].as_slice(), name) {
            assert(strings_view(strings@)[i as int] == name@);
            return true;
        }
        i += 1;
    }
    false
}

/// The first entry of the table that bears `name`, if any.
pub open spec fn find_name(table: Seq<(Seq<u8>, Seq<usize>)>, name: Seq<u8>) -> Option<int>
    decreases table.len(),
{
    if table.len() == 0 {
        None
    } else {
        match find_name(table.drop_last(), name) {
            Some(at) => Some(at),
            None => if table.last().0 == name {
                Some(table.len() - 1)
            } else {
                None
            },
        }
    }
}

/// What `capture_indexes_for_name` gives: the numbers of the groups that
/// bear `name`, or nothing where no group does.
pub open spec fn indexes_for_name_spec(table: Seq<(Seq<u8>, Seq<usize>)>, name: Seq<u8>) -> Option<
    Seq<usize>,
> {
    match find_name(table, name) {
        Some(at) => Some(table[at].1),
        None => None,
    }
}

/// The numbers of the groups that bear `name`, or nothing where no group
/// does.
pub fn capture_indexes_for_name(table: &Vec<(Vec<u8>, Vec<usize>)>, name: &[u8]) -> (r: Option<
    Vec<usize>,
>)
    ensures
        match r {
            Some(indexes) => indexes_for_name_spec(table_view(table@), name@) == Some(indexes@),
            None => indexes_for_name_spec(table_view(table@), name@) is None,
        },
{
    let ghost all = table_view(table@);
    let mut i: usize = 0;
    while i < table.len()
        invariant
            i <= table@.len(),
            all == table_view(table@),
            find_name(all.take(i as int), name@) is None,
        decreases table@.len() - i,
    {
        proof {
            assert(all.take(i + 1).drop_last() =~= all.take(i as int));
        }
        if equal(table[i].0.as_slice(), name) {
            proof {
                lemma_find_name_prefix(all, i as int + 1, name@);
            }
            return Some(table[i].1.clone());
        }
        i += 1;
    }
    assert(all.take(table@.len() as int) =~= all);
    None
}

/// A name that is found in the first `n` entries of a table is found at the
/// same place in the whole table.
pub proof fn lemma_find_name_prefix(table: Seq<(Seq<u8>, Seq<usize>)>, n: int, name: Seq<u8>)
    requires
        0 <= n <= table.len(),
        find_name(table.take(n), name) is Some,
    ensures
        find_name(table, name) == find_name(table.take(n), name),
        find_name(table, name) matches Some(at) && 0 <= at < n,
    decreases table.len() - n,
{
    lemma_find_name_bound(table.take(n), name);
    if n == table.len() {
        assert(table.take(n) =~= table);
    } else {
        assert(table.take(n + 1).drop_last() =~= table.take(n));
        lemma_find_name_prefix(table, n + 1, name);
    }
}

/// A name is found at a place inside the table.
pub proof fn lemma_find_name_bound(table: Seq<(Seq<u8>, Seq<usize>)>, name: Seq<u8>)
    ensures
        find_name(table, name) matches Some(at) ==> 0 <= at < table.len() && table[at].0 == name,
    decreases table.len(),
{
    if table.len() > 0 {
        lemma_find_name_bound(table.drop_last(), name);
    }
}

/// The message of the error raised for a group number that is more than the
/// interpreter's integers hold.
pub open spec fn group_index_message() -> Seq<u8> {
    "Regexp#named_captures group index does not fit in Integer max".spec_bytes()
}

/// Whether every group number of the table is one that the interpreter's
/// integers hold.
pub open spec fn indexes_fit(table: Seq<(Seq<u8>, Seq<usize>)>) -> bool {
    forall|i: int, j: int|
        0 <= i < table.len() && 0 <= j < table[i].1.len() ==> #[trigger] table[i].1[j] <= Int::MAX
}

/// The table with its group numbers as integers of the interpreter.
pub open spec fn as_ints(table: Seq<(Seq<u8>, Seq<usize>)>) -> Seq<(Seq<u8>, Seq<Int>)> {
    table.map_values(
        |entry: (Seq<u8>, Seq<usize>)| (entry.0, entry.1.map_values(|group: usize| group as Int)),
    )
}

/// A name table with each name and each list of integers seen as a sequence.
pub open spec fn int_table_view(table: Seq<(Vec<u8>, Vec<Int>)>) -> Seq<(Seq<u8>, Seq<Int>)> {
    table.map_values(|entry: (Vec<u8>, Vec<Int>)| (entry.0@, entry.1@))
}

/// Each group name of a pattern with the numbers of the groups that bear it,
/// in the engine's order. A group number that is more than the interpreter's
/// integers hold is a `Fatal` error.
pub fn named_captures(table: &Vec<(Vec<u8>, Vec<usize>)>) -> (r: Result<
    Vec<(Vec<u8>, Vec<Int>)>,
    Exception,
>)
    ensures
        match r {
            Ok(map) => indexes_fit(table_view(table@)) && int_table_view(map@) == as_ints(
                table_view(table@),
            ),
            Err(e) => !indexes_fit(table_view(table@)) && e@ == (
                Kind::Fatal,
                group_index_message(),
            ),
        },
{
    let ghost all = table_view(table@);
    let mut map: Vec<(Vec<u8>, Vec<Int>)> = Vec::new();
    let mut i: usize = 0;
    while i < table.len()
        invariant
            i <= table@.len(),
            all == table_view(table@),
            map@.len() == i,
            forall|k: int, j: int|
                0 <= k < i && 0 <= j < all[k].1.len() ==> #[trigger] all[k].1[j] <= Int::MAX,
            forall|k: int|
                0 <= k < i ==> (#[trigger] map@[k]).0@ == all[k].0 && map@[k].1@
                    == all[k].1.map_values(|group: usize| group as Int),
        decreases table@.len() - i,
    {
        let groups: &Vec<usize> = &table[i].1;
        let mut indexes: Vec<Int> = Vec::new();
        let mut j: usize = 0;
        while j < groups.len()
            invariant
                j <= groups@.len(),
                indexes@.len() == j,
                groups@ == all[i as int].1,
                all == table_view(table@),
                0 <= i < all.len(),
                forall|k: int| 0 <= k < j ==> groups@[k] <= Int::MAX,
                forall|k: int| 0 <= k < j ==> indexes@[k] == groups@[k] as Int,
            decreases groups@.len() - j,
        {
            match Int::try_from(groups[j]) {
                Ok(index) => {
                    indexes.push(index);
                },
                Err(_) => {
                    return Err(
                        Exception::new(
                            Kind::Fatal,
                            "Regexp#named_captures group index does not fit in Integer max",
                        ),
                    );
                },
            }
            j += 1;
        }
        let name: Vec<u8> = copy(table[i].0.as_slice());
        map.push((name, indexes));
        i += 1;
    }
    Ok(map)
}

/// The capture of the last of the groups `indexes` that took part in the
/// match, or nothing where none of them did.
pub open spec fn last_capture(captures: Seq<Option<Seq<u8>>>, indexes: Seq<usize>) -> Option<
    Seq<u8>,
>
    decreases indexes.len(),
{
    if indexes.len() == 0 {
        None
    } else {
        let index = indexes.last() as int;
        if index < captures.len() && captures[index] is Some {
            captures[index]
        } else {
            last_capture(captures, indexes.drop_last())
        }
    }
}

/// The capture of the last of the groups `indexes` that took part in the
/// match, or nothing where none of them did.
pub fn last_captured<'c>(captures: &'c Vec<NilableString>, indexes: &Vec<usize>) -> (r: Option<
    &'c [u8],
>)
    ensures
        match r {
            Some(bytes) => last_capture(nilables_view(captures@), indexes@) == Some(bytes@),
            None => last_capture(nilables_view(captures@), indexes@) is None,
        },
{
    let ghost all = nilables_view(captures@);
    let mut at: usize = indexes.len();
    assert(indexes@.take(at as int) =~= indexes@);
    while at > 0
        invariant
            at <= indexes@.len(),
            all == nilables_view(captures@),
            last_capture(all, indexes@) == last_capture(all, indexes@.take(at as int)),
        decreases at,
    {
        proof {
            assert(indexes@.take(at as int).drop_last() =~= indexes@.take(at - 1));
        }
        let index: usize = indexes[at - 1];
        if index < captures.len() {
            if let Some(bytes) = &captures[index] {
                return Some(bytes.as_slice());
            }
        }
        at -= 1;
    }
    None
}

/// What `named_captures_for_haystack` gives for a match: each group name, in
/// the engine's order, with the capture of the last group of that name that
/// took part in the match.
pub open spec fn named_captures_of(
    table: Seq<(Seq<u8>, Seq<usize>)>,
    captures: Seq<Option<Seq<u8>>>,
) -> Seq<(Seq<u8>, Option<Seq<u8>>)> {
    table.map_values(|entry: (Seq<u8>, Seq<usize>)| (entry.0, last_capture(captures, entry.1)))
}

/// A list of names with their captures, each seen as a sequence.
pub open spec fn named_view(named: Seq<(Vec<u8>, NilableString)>) -> Seq<
    (Seq<u8>, Option<Seq<u8>>),
> {
    named.map_values(|entry: (Vec<u8>, NilableString)| (entry.0@, nilable_view(entry.1)))
}

/// Each group name, in the engine's order, with the capture of the last
/// group of that name that took part in the match.
pub fn named_captures_for(
    table: &Vec<(Vec<u8>, Vec<usize>)>,
    captures: &Vec<NilableString>,
) -> (r: Vec<(Vec<u8>, NilableString)>)
    ensures
        named_view(r@) == named_captures_of(table_view(table@), nilables_view(captures@)),
{
    let ghost all = table_view(table@);
    let ghost caps = nilables_view(captures@);
    let mut named: Vec<(Vec<u8>, NilableString)> = Vec::new();
    let mut i: usize = 0;
    while i < table.len()
        invariant
            i <= table@.len(),
            all == table_view(table@),
            caps == nilables_view(captures@),
            named@.len() == i,
            forall|k: int|
                0 <= k < i ==> (#[trigger] named@[k]).0@ == all[k].0 && nilable_view(named@[k].1)
                    == last_capture(caps, all[k].1),
        decreases table@.len() - i,
    {
        let capture: NilableString = match last_captured(captures, &table[i].1) {
            Some(bytes) => Some(copy(bytes)),
            None => None,
        };
        let name: Vec<u8> = copy(table[i].0.as_slice());
        named.push((name, capture));
        i += 1;
    }
    named
}

} // verus!
