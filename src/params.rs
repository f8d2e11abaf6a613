use vstd::prelude::*;

use crate::status::Status;

verus! {

/// A list of (name, value) pairs, as a mathematical sequence.
pub type Entries = Seq<(Seq<char>, Seq<char>)>;

/// The value of the first entry named `key`, if any.
pub open spec fn lookup(entries: Entries, key: Seq<char>) -> Option<Seq<char>>
    decreases entries.len(),
{
    if entries.len() == 0 {
        None
    } else if entries[0].0 == key {
        Some(entries[0].1)
    } else {
        lookup(entries.drop_first(), key)
    }
}

/// Every one of `keys` has an entry.
pub open spec fn has_all(entries: Entries, keys: Seq<Seq<char>>) -> bool {
    forall|i: int| 0 <= i < keys.len() ==> (#[trigger] lookup(entries, keys[i])) is Some
}

pub open spec fn pair_view(p: (String, String)) -> (Seq<char>, Seq<char>) {
    (p.0@, p.1@)
}

/// The entries that validation yields for `keys`: each key with its value in
/// `route`, in the order of `keys`.
pub open spec fn extracted(route: Entries, keys: Seq<Seq<char>>) -> Entries {
    keys.map_values(|k: Seq<char>| (k, lookup(route, k)->0))
}

proof fn lemma_lookup_suffix(entries: Entries, i: int, key: Seq<char>)
    requires
        0 <= i < entries.len(),
        entries[i].0 != key,
    ensures
        lookup(entries.subrange(i, entries.len() as int), key) == lookup(
            entries.subrange(i + 1, entries.len() as int),
            key,
        ),
{
    assert(entries.subrange(i, entries.len() as int).drop_first() =~= entries.subrange(
        i + 1,
        entries.len() as int,
    ));
}

/// A key found among `keys` is found with the same value in the entries
/// extracted for them.
pub proof fn lemma_extracted_lookup(route: Entries, keys: Seq<Seq<char>>, k: Seq<char>)
    requires
        has_all(route, keys),
        keys.contains(k),
    ensures
        lookup(extracted(route, keys), k) == lookup(route, k),
    decreases keys.len(),
{
    let e = extracted(route, keys);
    if keys[0] == k {
        assert(lookup(route, keys[0]) is Some);
    } else {
        let j = choose|j: int| 0 <= j < keys.len() && keys[j] == k;
        assert(keys.drop_first()[j - 1] == k);
        assert(has_all(route, keys.drop_first())) by {
            assert forall|i: int| 0 <= i < keys.drop_first().len() implies (#[trigger] lookup(
                route,
                keys.drop_first()[i],
            )) is Some by {
                assert(keys.drop_first()[i] == keys[i + 1]);
            }
        }
        lemma_extracted_lookup(route, keys.drop_first(), k);
        assert(e.drop_first() =~= extracted(route, keys.drop_first()));
    }
}

/// Path parameters that the router extracted from a request.
pub struct RouteParams {
    pub entries: Vec<(String, String)>,
}

impl View for RouteParams {
    type V = Entries;

    open spec fn view(&self) -> Entries {
        self.entries@.map_values(|p: (String, String)| pair_view(p))
    }
}

/// The value of the first entry of `entries` named `key`.
fn find_in(entries: &Vec<(String, String)>, key: &String) -> (r: Option<String>)
    ensures
        r matches Some(v) ==> lookup(
            entries@.map_values(|p: (String, String)| pair_view(p)),
            key@,
        ) == Some(v@),
        r is None ==> lookup(entries@.map_values(|p: (String, String)| pair_view(p)), key@) is None,
{
    let ghost all = entries@.map_values(|p: (String, String)| pair_view(p));
    proof {
        assert(all.subrange(0, all.len() as int) =~= all);
    }
    let mut i: usize = 0;
    while i < entries.len()
        invariant
            0 <= i <= entries.len(),
            all == entries@.map_values(|p: (String, String)| pair_view(p)),
            lookup(all, key@) == lookup(all.subrange(i as int, all.len() as int), key@),
        decreases entries.len() - i,
    {
        if entries[i].0 == *key {
            proof {
                let rest = all.subrange(i as int, all.len() as int);
                assert(rest[0] == all[i as int]);
            }
            return Some(entries[i].1.clone());
        }
        proof {
            lemma_lookup_suffix(all, i as int, key@);
        }
        i = i + 1;
    }
    proof {
        assert(all.subrange(i as int, all.len() as int).len() == 0);
    }
    None
}

impl RouteParams {
    /// The value of the parameter named `key`, if the route has one.
    pub fn find(&self, key: &String) -> (r: Option<String>)
        ensures
            r matches Some(v) ==> lookup(self@, key@) == Some(v@),
            r is None ==> lookup(self@, key@) is None,
    {
        find_in(&self.entries, key)
    }
}

/// Parameters that passed validation: each required name with its value.
pub struct ValidatedParams {
    pub entries: Vec<(String, String)>,
}

impl View for ValidatedParams {
    type V = Entries;

    open spec fn view(&self) -> Entries {
        self.entries@.map_values(|p: (String, String)| pair_view(p))
    }
}

impl ValidatedParams {
    /// The value validated under `key`, if any.
    pub fn get(&self, key: &String) -> (r: Option<String>)
        ensures
            r matches Some(v) ==> lookup(self@, key@) == Some(v@),
            r is None ==> lookup(self@, key@) is None,
    {
        find_in(&self.entries, key)
    }
}

/// Extracts each parameter named in `expected` from the route. Fails with
/// `BadRequest`, and yields nothing, when any one of them is missing.
pub fn validate_params(route: &RouteParams, expected: &Vec<String>) -> (r: Result<
    ValidatedParams,
    Status,
>)
    ensures
        r is Err <==> !has_all(route@, expected@.map_values(|k: String| k@)),
        r matches Err(s) ==> s == Status::BadRequest,
        r matches Ok(p) ==> p@ == extracted(route@, expected@.map_values(|k: String| k@)),
{
    let ghost keys = expected@.map_values(|k: String| k@);
    let mut res: Vec<(String, String)> = Vec::new();
    let mut i: usize = 0;
    while i < expected.len()
        invariant
            0 <= i <= expected.len(),
            res.len() == i,
            keys == expected@.map_values(|k: String| k@),
            forall|j: int| 0 <= j < i ==> (#[trigger] lookup(route@, keys[j])) is Some,
            res@.map_values(|p: (String, String)| pair_view(p)) =~= extracted(
                route@,
                keys.subrange(0, i as int),
            ),
        decreases expected.len() - i,
    {
        match route.find(&expected[i]) {
            None => {
                proof {
                    assert(lookup(route@, keys[i as int]) is None);
                }
                return Err(Status::BadRequest);
            },
            Some(v) => {
                let ghost before = res@;
                res.push((expected[i].clone(), v));
                proof {
                    assert(res@.map_values(|p: (String, String)| pair_view(p)) =~= before.map_values(
                        |p: (String, String)| pair_view(p),
                    ).push(pair_view(res@[i as int])));
                    assert(keys.subrange(0, i + 1) =~= keys.subrange(0, i as int).push(keys[i as int]));
                }
            },
        }
        i = i + 1;
    }
    proof {
        assert(keys.subrange(0, i as int) =~= keys);
    }
    Ok(ValidatedParams { entries: res })
}

} // verus!
