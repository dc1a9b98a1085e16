//! Config values that hold a comma-separated list, such as a block list of
//! IP addresses, read as a set and written back.

use vstd::prelude::*;

verus! {

/// The pieces of `s` between the separators, in order; there is always one
/// more piece than there are separators.
pub open spec fn split_on(s: Seq<char>, sep: char) -> Seq<Seq<char>>
    decreases s.len(),
{
    if s.len() == 0 {
        seq![Seq::<char>::empty()]
    } else {
        let earlier = split_on(s.drop_last(), sep);
        if s.last() == sep {
            earlier.push(Seq::<char>::empty())
        } else {
            earlier.update(earlier.len() - 1, earlier.last().push(s.last()))
        }
    }
}

/// The parts written one after another with `sep` between two neighbours.
pub open spec fn joined(parts: Seq<Seq<char>>, sep: char) -> Seq<char>
    decreases parts.len(),
{
    if parts.len() == 0 {
        Seq::empty()
    } else if parts.len() == 1 {
        parts[0]
    } else {
        joined(parts.drop_last(), sep).push(sep) + parts.last()
    }
}

/// The parts that are not empty, in order.
pub open spec fn non_empty(parts: Seq<Seq<char>>) -> Seq<Seq<char>>
    decreases parts.len(),
{
    if parts.len() == 0 {
        Seq::empty()
    } else {
        let earlier = non_empty(parts.drop_last());
        if parts.last().len() > 0 {
            earlier.push(parts.last())
        } else {
            earlier
        }
    }
}

/// A set of strings that keeps the order in which they were first added.
pub struct ConfigValueSet {
    values: Vec<String>,
}

impl View for ConfigValueSet {
    type V = Seq<Seq<char>>;

    closed spec fn view(&self) -> Seq<Seq<char>> {
        self.values@.map_values(|v: String| v@)
    }
}

impl ConfigValueSet {
    /// No value is held twice.
    pub open spec fn wf(&self) -> bool {
        self@.no_duplicates()
    }

    pub fn new() -> (r: ConfigValueSet)
        ensures
            r.wf(),
            r@ == Seq::<Seq<char>>::empty(),
    {
        let r = ConfigValueSet { values: Vec::new() };
        assert(r@ =~= Seq::<Seq<char>>::empty());
        r
    }

    pub fn len(&self) -> (r: usize)
        ensures
            r == self@.len(),
    {
        self.values.len()
    }

    pub fn is_empty(&self) -> (r: bool)
        ensures
            r == (self@.len() == 0),
    {
        self.values.len() == 0
    }

    /// The value at position `i`, in order of first insertion.
    pub fn get(&self, i: usize) -> (r: &String)
        requires
            i < self@.len(),
        ensures
            r@ == self@[i as int],
    {
        &self.values[i]
    }

    fn position(&self, value: &str) -> (r: Option<usize>)
        ensures
            r is None <==> !self@.contains(value@),
            r is Some ==> r->0 < self@.len() && self@[r->0 as int] == value@,
    {
        let target = String::from_str(value);
        let mut i: usize = 0;
        while i < self.values.len()
            invariant
                0 <= i <= self.values@.len(),
                target@ == value@,
                forall|k: int| 0 <= k < i ==> self@[k] != value@,
            decreases self.values@.len() - i,
        {
            if self.values[i] == target {
                assert(self@[i as int] == value@);
                return Some(i);
            }
            i = i + 1;
        }
        None
    }

    pub fn contains(&self, value: &str) -> (r: bool)
        ensures
            r == self@.contains(value@),
    {
        self.position(value).is_some()
    }

    /// Adds `value` unless it is already held; says whether it was added.
    pub fn insert(&mut self, value: String) -> (added: bool)
        requires
            old(self).wf(),
        ensures
            final(self).wf(),
            added == !old(self)@.contains(value@),
            final(self)@ == if added {
                old(self)@.push(value@)
            } else {
                old(self)@
            },
    {
        if self.contains(value.as_str()) {
            false
        } else {
            let ghost before = self@;
            self.values.push(value);
            assert(self@ =~= before.push(value@));
            true
        }
    }

    /// Takes `value` out if it is held; says whether it was.
    pub fn remove(&mut self, value: &str) -> (removed: bool)
        requires
            old(self).wf(),
        ensures
            final(self).wf(),
            removed == old(self)@.contains(value@),
            forall|x: Seq<char>| #[trigger]
                final(self)@.contains(x) <==> old(self)@.contains(x) && x != value@,
    {
        match self.position(value) {
            None => false,
            Some(i) => {
                let ghost before = self@;
                self.values.remove(i);
                assert(self@ =~= before.remove(i as int));
                assert forall|x: Seq<char>| #[trigger]
                    self@.contains(x) <==> before.contains(x) && x != value@ by {
                    if before.contains(x) && x != value@ {
                        let k = choose|k: int| 0 <= k < before.len() && before[k] == x;
                        if k < i {
                            assert(self@[k] == x);
                        } else {
                            assert(self@[k - 1] == x);
                        }
                    }
                    if self@.contains(x) {
                        let k = choose|k: int| 0 <= k < self@.len() && self@[k] == x;
                        if k < i {
                            assert(before[k] == x);
                        } else {
                            assert(before[k + 1] == x);
                        }
                    }
                }
                true
            },
        }
    }
}

/// Reads a comma-separated config value as the set of its pieces.
pub fn parse_config_value_set(config_value: String) -> (r: ConfigValueSet)
    ensures
        r.wf(),
        forall|x: Seq<char>| #[trigger]
            r@.contains(x) <==> split_on(config_value@, ',').contains(x),
{
    let s = config_value.as_str();
    let n = s.unicode_len();
    let mut pieces: Vec<String> = Vec::new();
    let mut start: usize = 0;
    let mut i: usize = 0;
    assert(pieces@.map_values(|p: String| p@).push(s@.subrange(0, 0)) =~~= split_on(
        s@.subrange(0, 0),
        ',',
    ));
    while i < n
        invariant
            0 <= start <= i <= n,
            n == s@.len(),
            s@ == config_value@,
            pieces@.map_values(|p: String| p@).push(s@.subrange(start as int, i as int))
                == split_on(s@.subrange(0, i as int), ','),
        decreases n - i,
    {
        let c = s.get_char(i);
        let ghost prefix = s@.subrange(0, i + 1);
        assert(prefix.drop_last() =~= s@.subrange(0, i as int));
        if c == ',' {
            let ghost old_pieces = pieces@.map_values(|p: String| p@);
            let piece = String::from_str(s.substring_char(start, i));
            pieces.push(piece);
            assert(pieces@.map_values(|p: String| p@) =~= old_pieces.push(
                s@.subrange(start as int, i as int),
            ));
            start = i + 1;
            assert(pieces@.map_values(|p: String| p@).push(s@.subrange(start as int, (i + 1) as int))
                =~~= split_on(prefix, ','));
        } else {
            let ghost earlier = split_on(s@.subrange(0, i as int), ',');
            assert(s@.subrange(start as int, (i + 1) as int) =~= s@.subrange(start as int, i as int).push(c));
            assert(pieces@.map_values(|p: String| p@).push(s@.subrange(start as int, (i + 1) as int))
                =~= earlier.update(earlier.len() - 1, earlier.last().push(c)));
        }
        i = i + 1;
    }
    pieces.push(String::from_str(s.substring_char(start, n)));
    assert(s@.subrange(0, n as int) =~= s@);
    let ghost all = pieces@.map_values(|p: String| p@);
    assert(all == split_on(config_value@, ','));
    let mut r = ConfigValueSet::new();
    let mut k: usize = 0;
    while k < pieces.len()
        invariant
            0 <= k <= pieces@.len(),
            all == pieces@.map_values(|p: String| p@),
            r.wf(),
            forall|x: Seq<char>| #[trigger]
                r@.contains(x) <==> all.subrange(0, k as int).contains(x),
        decreases pieces@.len() - k,
    {
        let ghost before = r@;
        r.insert(pieces[k].clone());
        assert forall|x: Seq<char>| #[trigger]
            r@.contains(x) <==> all.subrange(0, k + 1).contains(x) by {
            let next = all.subrange(0, k + 1);
            assert(next =~= all.subrange(0, k as int).push(all[k as int]));
            if all.subrange(0, k as int).contains(x) {
                let j = choose|j: int| 0 <= j < k && all.subrange(0, k as int)[j] == x;
                assert(next[j] == x);
            }
            if next.contains(x) && x != all[k as int] {
                let j = choose|j: int| 0 <= j < k + 1 && next[j] == x;
                assert(all.subrange(0, k as int)[j] == x);
            }
            if r@.contains(x) && !before.contains(x) {
                assert(r@[r@.len() - 1] == x);
            }
            if x == all[k as int] {
                assert(next[k as int] == x);
                if !before.contains(x) {
                    assert(r@[r@.len() - 1] == x);
                }
            }
            if before.contains(x) {
                let j = choose|j: int| 0 <= j < before.len() && before[j] == x;
                assert(r@[j] == x);
            }
        }
        k = k + 1;
    }
    assert(all.subrange(0, pieces@.len() as int) =~= all);
    r
}

/// Writes a set back as a config value: its non-empty values, in order,
/// separated by commas.
pub fn parse_config_value_string(config_value: ConfigValueSet) -> (r: String)
    ensures
        r@ == joined(non_empty(config_value@), ','),
{
    let mut r = String::new();
    let ghost mut kept: Seq<Seq<char>> = Seq::empty();
    let n = config_value.len();
    let mut first = true;
    let mut i: usize = 0;
    while i < n
        invariant
            0 <= i <= n,
            first == (kept.len() == 0),
            n == config_value@.len(),
            kept == non_empty(config_value@.subrange(0, i as int)),
            r@ == joined(kept, ','),
        decreases n - i,
    {
        let value = config_value.get(i);
        let ghost prefix = config_value@.subrange(0, i + 1);
        assert(prefix.drop_last() =~= config_value@.subrange(0, i as int));
        if value.unicode_len() > 0 {
            proof {
                reveal_strlit(",");
            }
            if !first {
                r.append(",");
            }
            r.append(value.as_str());
            first = false;
            proof {
                kept = kept.push(value@);
                assert(kept.drop_last() =~= non_empty(config_value@.subrange(0, i as int)));
            }
        }
        assert(kept =~= non_empty(prefix));
        i = i + 1;
    }
    assert(config_value@.subrange(0, n as int) =~= config_value@);
    r
}

} // verus!
