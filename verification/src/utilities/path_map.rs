//! A mapping from absolute paths to names, as it is handed between the
//! browser and the pipeline.

use vstd::prelude::*;

verus! {

/// The mapping that a sequence of `(path, name)` pairs stands for: each pair
/// maps its path to its name, and a later pair replaces an earlier one with
/// the same path.
pub open spec fn pairs_map(pairs: Seq<(Seq<char>, Seq<char>)>) -> Map<Seq<char>, Seq<char>>
    decreases pairs.len(),
{
    if pairs.len() == 0 {
        Map::empty()
    } else {
        pairs_map(pairs.drop_last()).insert(pairs.last().0, pairs.last().1)
    }
}

/// Whether no two pairs share a path.
pub open spec fn distinct_paths(pairs: Seq<(Seq<char>, Seq<char>)>) -> bool {
    forall|i: int, j: int| 0 <= i < j < pairs.len() ==> pairs[i].0 != pairs[j].0
}

/// A pair's path is in the mapping, and no other path is.
pub proof fn lemma_pairs_map_domain(pairs: Seq<(Seq<char>, Seq<char>)>, path: Seq<char>)
    ensures
        pairs_map(pairs).contains_key(path) <==> exists|i: int|
            0 <= i < pairs.len() && #[trigger] pairs[i].0 == path,
    decreases pairs.len(),
{
    if pairs.len() > 0 {
        let front = pairs.drop_last();
        lemma_pairs_map_domain(front, path);
        if pairs_map(pairs).contains_key(path) {
            if pairs.last().0 == path {
                assert(pairs[pairs.len() - 1].0 == path);
            } else {
                let i = choose|i: int| 0 <= i < front.len() && #[trigger] front[i].0 == path;
                assert(pairs[i].0 == path);
            }
        }
        if exists|i: int| 0 <= i < pairs.len() && #[trigger] pairs[i].0 == path {
            let i = choose|i: int| 0 <= i < pairs.len() && #[trigger] pairs[i].0 == path;
            if i < pairs.len() - 1 {
                assert(front[i].0 == path);
            }
        }
    }
}

/// Where the paths are distinct, each pair's path maps to that pair's name.
pub proof fn lemma_pairs_map_value(pairs: Seq<(Seq<char>, Seq<char>)>, i: int)
    requires
        distinct_paths(pairs),
        0 <= i < pairs.len(),
    ensures
        pairs_map(pairs).contains_key(pairs[i].0),
        pairs_map(pairs)[pairs[i].0] == pairs[i].1,
    decreases pairs.len(),
{
    let front = pairs.drop_last();
    if i < pairs.len() - 1 {
        assert(distinct_paths(front)) by {
            assert forall|a: int, b: int| 0 <= a < b < front.len() implies front[a].0
                != front[b].0 by {
                assert(pairs[a].0 != pairs[b].0);
            }
        }
        lemma_pairs_map_value(front, i);
        assert(front[i] == pairs[i]);
        assert(pairs[i].0 != pairs[pairs.len() - 1].0);
    }
}

/// The position of the pair with `path`, if there is one.
pub open spec fn position_of(pairs: Seq<(Seq<char>, Seq<char>)>, path: Seq<char>) -> Option<int> {
    if exists|i: int| 0 <= i < pairs.len() && #[trigger] pairs[i].0 == path {
        Some(choose|i: int| 0 <= i < pairs.len() && #[trigger] pairs[i].0 == path)
    } else {
        None
    }
}

/// The pairs after `path` has been mapped to `name`: the pair with that
/// path gets the new name where it stands, and a path that was not there
/// comes last.
pub open spec fn upserted(
    pairs: Seq<(Seq<char>, Seq<char>)>,
    path: Seq<char>,
    name: Seq<char>,
) -> Seq<(Seq<char>, Seq<char>)> {
    match position_of(pairs, path) {
        Some(at) => pairs.update(at, (path, name)),
        None => pairs.push((path, name)),
    }
}

/// Mapping a path to a name keeps the paths distinct and is an insertion
/// into the mapping that the pairs stand for.
pub proof fn lemma_upserted(pairs: Seq<(Seq<char>, Seq<char>)>, path: Seq<char>, name: Seq<char>)
    requires
        distinct_paths(pairs),
    ensures
        distinct_paths(upserted(pairs, path, name)),
        pairs_map(upserted(pairs, path, name)) == pairs_map(pairs).insert(path, name),
{
    let after = upserted(pairs, path, name);
    match position_of(pairs, path) {
        Some(at) => {
            lemma_pairs_map_update(pairs, at, name);
            assert forall|a: int, b: int| 0 <= a < b < after.len() implies after[a].0
                != after[b].0 by {
                assert(pairs[a].0 != pairs[b].0);
            }
        },
        None => {
            assert(after.drop_last() == pairs);
            assert forall|a: int, b: int| 0 <= a < b < after.len() implies after[a].0
                != after[b].0 by {
                if b < pairs.len() {
                    assert(pairs[a].0 != pairs[b].0);
                } else {
                    assert(pairs[a].0 != path);
                }
            }
        },
    }
}

/// Replacing the name of the pair at `at` is inserting the new name under
/// that pair's path.
pub proof fn lemma_pairs_map_update(
    pairs: Seq<(Seq<char>, Seq<char>)>,
    at: int,
    name: Seq<char>,
)
    requires
        distinct_paths(pairs),
        0 <= at < pairs.len(),
    ensures
        pairs_map(pairs.update(at, (pairs[at].0, name))) == pairs_map(pairs).insert(
            pairs[at].0,
            name,
        ),
    decreases pairs.len(),
{
    let path = pairs[at].0;
    let updated = pairs.update(at, (path, name));
    let front = pairs.drop_last();
    if at == pairs.len() - 1 {
        assert(updated.drop_last() == front);
        assert(pairs_map(updated) == pairs_map(pairs).insert(path, name));
    } else {
        assert(distinct_paths(front)) by {
            assert forall|a: int, b: int| 0 <= a < b < front.len() implies front[a].0
                != front[b].0 by {
                assert(pairs[a].0 != pairs[b].0);
            }
        }
        lemma_pairs_map_update(front, at, name);
        assert(front[at] == pairs[at]);
        assert(updated.drop_last() == front.update(at, (path, name)));
        assert(updated.last() == pairs.last());
        assert(pairs[at].0 != pairs[pairs.len() - 1].0);
        assert(pairs_map(updated) == pairs_map(pairs).insert(path, name));
    }
}

/// The pairs that a vector of strings stands for.
pub open spec fn pairs_of(pairs: Seq<(String, String)>) -> Seq<(Seq<char>, Seq<char>)> {
    pairs.map_values(|pair: (String, String)| (pair.0@, pair.1@))
}

/// The position of `path` among `pairs`, if it is there.
fn position(pairs: &Vec<(String, String)>, path: &String) -> (found: Option<usize>)
    ensures
        match found {
            Some(at) => at < pairs@.len() && pairs@[at as int].0@ == path@,
            None => forall|i: int| 0 <= i < pairs@.len() ==> (#[trigger] pairs@[i]).0@ != path@,
        },
{
    let mut i: usize = 0;
    while i < pairs.len()
        invariant
            i <= pairs@.len(),
            forall|j: int| 0 <= j < i ==> (#[trigger] pairs@[j]).0@ != path@,
        decreases pairs@.len() - i,
    {
        if pairs[i].0 == *path {
            return Some(i);
        }
        i = i + 1;
    }
    None
}

/// A finite mapping from absolute paths to names.
pub struct PathMap {
    pairs: Vec<(String, String)>,
}

impl PathMap {
    /// The `(path, name)` pairs of the mapping, in the order in which their
    /// paths were first inserted.
    pub closed spec fn entries(&self) -> Seq<(Seq<char>, Seq<char>)> {
        pairs_of(self.pairs@)
    }

    #[verifier::type_invariant]
    spec fn well_formed(self) -> bool {
        distinct_paths(self.entries())
    }
}

impl View for PathMap {
    type V = Map<Seq<char>, Seq<char>>;

    open spec fn view(&self) -> Map<Seq<char>, Seq<char>> {
        pairs_map(self.entries())
    }
}

impl PathMap {
    /// The empty mapping.
    pub fn new() -> (map: Self)
        ensures
            map.entries() == Seq::<(Seq<char>, Seq<char>)>::empty(),
            map@ == Map::<Seq<char>, Seq<char>>::empty(),
    {
        let map = PathMap { pairs: Vec::new() };
        map
    }

    /// The number of paths in the mapping.
    pub fn len(&self) -> (count: usize)
        ensures
            count == self.entries().len(),
            distinct_paths(self.entries()),
    {
        proof {
            use_type_invariant(self);
        }
        self.pairs.len()
    }

    /// The path and the name of the pair at `index`.
    pub fn entry(&self, index: usize) -> (pair: (&String, &String))
        requires
            index < self.entries().len(),
        ensures
            (pair.0@, pair.1@) == self.entries()[index as int],
    {
        (&self.pairs[index].0, &self.pairs[index].1)
    }

    /// The name that `path` maps to, if it maps to one.
    pub fn get(&self, path: &str) -> (name: Option<&String>)
        ensures
            match name {
                Some(found) => self@.contains_key(path@) && self@[path@] == found@,
                None => !self@.contains_key(path@),
            },
    {
        proof {
            use_type_invariant(self);
            lemma_pairs_map_domain(self.entries(), path@);
        }
        let wanted = path.to_owned();
        match position(&self.pairs, &wanted) {
            Some(at) => {
                proof {
                    lemma_pairs_map_value(self.entries(), at as int);
                }
                Some(&self.pairs[at].1)
            },
            None => None,
        }
    }

    /// Maps `path` to `name`, in place of the name it mapped to before, if
    /// any.
    pub fn insert(&mut self, path: String, name: String)
        ensures
            final(self).entries() == upserted(old(self).entries(), path@, name@),
            final(self)@ == old(self)@.insert(path@, name@),
    {
        proof {
            use_type_invariant(&*self);
        }
        let ghost before = self.entries();
        proof {
            lemma_upserted(before, path@, name@);
        }
        let mut pairs: Vec<(String, String)> = Vec::new();
        std::mem::swap(&mut self.pairs, &mut pairs);
        match position(&pairs, &path) {
            Some(at) => {
                assert(before[at as int].0 == path@);
                assert(position_of(before, path@) == Some(at as int));
                pairs.set(at, (path, name));
                assert(pairs_of(pairs@) == before.update(at as int, (path@, name@)));
            },
            None => {
                pairs.push((path, name));
                assert(pairs_of(pairs@) == before.push((path@, name@)));
            },
        }
        self.pairs = pairs;
    }
}

} // verus!
