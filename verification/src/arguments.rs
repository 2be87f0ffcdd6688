//! Arguments by name, and the lists that they are given as.

use crate::text::{
    has_char, law_joining_undoes_splitting, law_texts_split_at_the_separator, same_text, split_on,
    split_pieces, texts,
};
use vstd::prelude::*;

verus! {

/// The map that pairs make when they are entered one after the other.
pub open spec fn pairs_map<K, V>(pairs: Seq<(K, V)>) -> Map<K, V>
    decreases pairs.len(),
{
    if pairs.len() == 0 {
        Map::empty()
    } else {
        pairs_map(pairs.drop_last()).insert(pairs.last().0, pairs.last().1)
    }
}

/// No two pairs have the same key.
pub open spec fn keys_differ<K, V>(pairs: Seq<(K, V)>) -> bool {
    forall|i: int, j: int| 0 <= i < j < pairs.len() ==> pairs[i].0 != pairs[j].0
}

/// The map binds the keys of the pairs and no others; where the keys differ, each to the value of
/// its pair.
pub proof fn lemma_pairs_map<K, V>(pairs: Seq<(K, V)>)
    ensures
        forall|k: K| #[trigger]
            pairs_map(pairs).contains_key(k) <==> exists|i: int|
                0 <= i < pairs.len() && (#[trigger] pairs[i]).0 == k,
        keys_differ(pairs) ==> forall|i: int|
            0 <= i < pairs.len() ==> pairs_map(pairs)[(#[trigger] pairs[i]).0] == pairs[i].1,
        keys_differ(pairs) ==> pairs_map(pairs).dom().finite() && pairs_map(pairs).dom().len()
            == pairs.len(),
    decreases pairs.len(),
{
    if pairs.len() > 0 {
        let init = pairs.drop_last();
        lemma_pairs_map(init);
        let m = pairs_map(pairs);
        assert forall|k: K| #[trigger] m.contains_key(k) <==> exists|i: int|
            0 <= i < pairs.len() && (#[trigger] pairs[i]).0 == k by {
            if pairs_map(init).contains_key(k) {
                let i = choose|i: int| 0 <= i < init.len() && (#[trigger] init[i]).0 == k;
                assert(pairs[i].0 == k);
            }
            if exists|i: int| 0 <= i < pairs.len() && (#[trigger] pairs[i]).0 == k {
                let i = choose|i: int| 0 <= i < pairs.len() && (#[trigger] pairs[i]).0 == k;
                if i < init.len() {
                    assert(init[i].0 == k);
                }
            }
            if k == pairs.last().0 {
                assert(pairs[pairs.len() - 1].0 == k);
            }
        }
        if keys_differ(pairs) {
            assert forall|i: int, j: int| 0 <= i < j < init.len() implies init[i].0 != init[j].0 by {
                assert(pairs[i].0 != pairs[j].0);
            }
            assert forall|i: int| 0 <= i < pairs.len() implies m[(#[trigger] pairs[i]).0]
                == pairs[i].1 by {
                if i < init.len() {
                    assert(init[i] == pairs[i]);
                    assert(pairs[i].0 != pairs[pairs.len() - 1].0);
                }
            }
            assert(!pairs_map(init).contains_key(pairs.last().0)) by {
                if pairs_map(init).contains_key(pairs.last().0) {
                    let i = choose|i: int|
                        0 <= i < init.len() && (#[trigger] init[i]).0 == pairs.last().0;
                    assert(pairs[i].0 != pairs[pairs.len() - 1].0);
                }
            }
            assert(m.dom() =~= pairs_map(init).dom().insert(pairs.last().0));
        }
    } else {
        assert(pairs_map(pairs).dom() =~= Set::empty());
    }
}

/// Replacing the value of one pair rebinds its key.
proof fn lemma_pairs_replace<K, V>(pairs: Seq<(K, V)>, at: int, v: V)
    requires
        keys_differ(pairs),
        0 <= at < pairs.len(),
    ensures
        keys_differ(pairs.update(at, (pairs[at].0, v))),
        pairs_map(pairs.update(at, (pairs[at].0, v))) == pairs_map(pairs).insert(pairs[at].0, v),
{
    let now = pairs.update(at, (pairs[at].0, v));
    assert forall|i: int, j: int| 0 <= i < j < now.len() implies now[i].0 != now[j].0 by {
        assert(pairs[i].0 != pairs[j].0);
    }
    lemma_pairs_map(pairs);
    lemma_pairs_map(now);
    let want = pairs_map(pairs).insert(pairs[at].0, v);
    assert forall|k: K| #[trigger] pairs_map(now).contains_key(k) <==> want.contains_key(k) by {
        if pairs_map(now).contains_key(k) {
            let i = choose|i: int| 0 <= i < now.len() && (#[trigger] now[i]).0 == k;
            assert(pairs[i].0 == k);
        }
        if pairs_map(pairs).contains_key(k) {
            let i = choose|i: int| 0 <= i < pairs.len() && (#[trigger] pairs[i]).0 == k;
            assert(now[i].0 == k);
        }
        if k == pairs[at].0 {
            assert(now[at].0 == k);
        }
    }
    assert forall|k: K| #[trigger] pairs_map(now).contains_key(k) implies pairs_map(now)[k]
        == want[k] by {
        let i = choose|i: int| 0 <= i < now.len() && (#[trigger] now[i]).0 == k;
        assert(pairs[i].0 == k);
        assert(pairs_map(now)[now[i].0] == now[i].1);
        if i != at {
            assert(pairs_map(pairs)[pairs[i].0] == pairs[i].1);
            if i < at {
                assert(pairs[i].0 != pairs[at].0);
            } else {
                assert(pairs[at].0 != pairs[i].0);
            }
        }
    }
    assert(pairs_map(now) =~= want);
}

/// Arguments by name. Each name occurs once.
#[derive(Debug)]
pub struct ArgMap {
    pub entries: Vec<(String, String)>,
}

/// The contents of the entries.
pub open spec fn entry_views(entries: Seq<(String, String)>) -> Seq<(Seq<char>, Seq<char>)> {
    entries.map_values(|e: (String, String)| (e.0@, e.1@))
}

impl View for ArgMap {
    type V = Map<Seq<char>, Seq<char>>;

    open spec fn view(&self) -> Map<Seq<char>, Seq<char>> {
        pairs_map(entry_views(self.entries@))
    }
}

impl Clone for ArgMap {
    fn clone(&self) -> (r: Self)
        ensures
            r@ == self@,
            self.wf() ==> r.wf(),
    {
        let mut entries: Vec<(String, String)> = Vec::new();
        let mut i: usize = 0;
        while i < self.entries.len()
            invariant
                i <= self.entries@.len(),
                entries@.len() == i,
                forall|k: int| 0 <= k < i ==> entries@[k] == self.entries@[k],
            decreases self.entries@.len() - i,
        {
            entries.push((self.entries[i].0.clone(), self.entries[i].1.clone()));
            i = i + 1;
        }
        proof {
            assert(entries@ =~= self.entries@);
        }
        ArgMap { entries }
    }
}

impl ArgMap {
    /// Each name occurs once.
    pub open spec fn wf(self) -> bool {
        keys_differ(entry_views(self.entries@))
    }

    pub fn new() -> (r: Self)
        ensures
            r.wf(),
            r@ == (Map::<Seq<char>, Seq<char>>::empty()),
    {
        ArgMap { entries: Vec::new() }
    }

    fn position(&self, key: &str) -> (r: Option<usize>)
        ensures
            match r {
                Some(i) => i < self.entries@.len() && self.entries@[i as int].0@ == key@,
                None => forall|k: int|
                    0 <= k < self.entries@.len() ==> (#[trigger] self.entries@[k]).0@ != key@,
            },
    {
        let mut i: usize = 0;
        while i < self.entries.len()
            invariant
                i <= self.entries@.len(),
                forall|k: int| 0 <= k < i ==> (#[trigger] self.entries@[k]).0@ != key@,
            decreases self.entries@.len() - i,
        {
            if same_text(self.entries[i].0.as_str(), key) {
                return Some(i);
            }
            i = i + 1;
        }
        None
    }

    /// Whether each name occurs once.
    pub fn is_wf(&self) -> (r: bool)
        ensures
            r == self.wf(),
    {
        let ghost views = entry_views(self.entries@);
        let mut j: usize = 0;
        while j < self.entries.len()
            invariant
                j <= self.entries@.len(),
                views == entry_views(self.entries@),
                forall|a: int, b: int|
                    0 <= a < b < j ==> (#[trigger] views[a]).0 != (#[trigger] views[b]).0,
            decreases self.entries@.len() - j,
        {
            let mut i: usize = 0;
            while i < j
                invariant
                    i <= j < self.entries@.len(),
                    views == entry_views(self.entries@),
                    forall|a: int| 0 <= a < i ==> (#[trigger] views[a]).0 != views[j as int].0,
                decreases j - i,
            {
                if same_text(self.entries[i].0.as_str(), self.entries[j].0.as_str()) {
                    proof {
                        assert(views[i as int].0 == views[j as int].0);
                    }
                    return false;
                }
                i = i + 1;
            }
            j = j + 1;
        }
        true
    }

    /// The argument of this name.
    pub fn get(&self, key: &str) -> (r: Option<&String>)
        requires
            self.wf(),
        ensures
            r is Some <==> self@.contains_key(key@),
            r matches Some(v) ==> v@ == self@[key@],
    {
        let ghost views = entry_views(self.entries@);
        proof {
            lemma_pairs_map(views);
        }
        match self.position(key) {
            Some(i) => {
                proof {
                    assert(views[i as int].0 == key@);
                }
                Some(&self.entries[i].1)
            },
            None => {
                proof {
                    if self@.contains_key(key@) {
                        let i = choose|i: int| 0 <= i < views.len() && (#[trigger] views[i]).0 == key@;
                        assert(self.entries@[i].0@ == key@);
                    }
                }
                None
            },
        }
    }

    pub fn contains_key(&self, key: &str) -> (r: bool)
        requires
            self.wf(),
        ensures
            r == self@.contains_key(key@),
    {
        self.get(key).is_some()
    }

    pub fn len(&self) -> (r: usize)
        requires
            self.wf(),
        ensures
            r == self@.dom().len(),
    {
        proof {
            lemma_pairs_map(entry_views(self.entries@));
        }
        self.entries.len()
    }

    /// Binds a name, whatever it was bound to.
    pub fn insert(&mut self, key: String, value: String)
        requires
            old(self).wf(),
        ensures
            final(self).wf(),
            final(self)@ == old(self)@.insert(key@, value@),
    {
        let ghost before = entry_views(self.entries@);
        match self.position(key.as_str()) {
            Some(i) => {
                let ghost v = value@;
                proof {
                    lemma_pairs_replace(before, i as int, v);
                }
                let kept = self.entries[i].0.clone();
                self.entries.set(i, (kept, value));
                proof {
                    assert(entry_views(self.entries@) =~= before.update(
                        i as int,
                        (before[i as int].0, v),
                    ));
                }
            },
            None => {
                let ghost pair = (key@, value@);
                self.entries.push((key, value));
                let ghost now = entry_views(self.entries@);
                proof {
                    assert(now =~= before.push(pair));
                    assert(now.drop_last() =~= before);
                    assert forall|i: int, j: int| 0 <= i < j < now.len() implies now[i].0
                        != now[j].0 by {
                        if j < before.len() {
                            assert(before[i].0 != before[j].0);
                        } else {
                            assert(old(self).entries@[i].0@ != pair.0);
                        }
                    }
                }
            },
        }
    }

    /// Binds all names of another map, whatever they were bound to.
    pub fn extend(&mut self, other: &ArgMap)
        requires
            old(self).wf(),
            other.wf(),
        ensures
            final(self).wf(),
            final(self)@ == old(self)@.union_prefer_right(other@),
    {
        let ghost views = entry_views(other.entries@);
        proof {
            assert(views.take(0) =~= Seq::<(Seq<char>, Seq<char>)>::empty());
            assert(self@.union_prefer_right(pairs_map(views.take(0))) =~= self@);
        }
        let mut i: usize = 0;
        while i < other.entries.len()
            invariant
                i <= other.entries@.len(),
                views == entry_views(other.entries@),
                self.wf(),
                self@ == old(self)@.union_prefer_right(pairs_map(views.take(i as int))),
            decreases other.entries@.len() - i,
        {
            self.insert(other.entries[i].0.clone(), other.entries[i].1.clone());
            proof {
                let next = views.take(i as int + 1);
                assert(next.drop_last() =~= views.take(i as int));
                assert(self@ =~= old(self)@.union_prefer_right(pairs_map(next)));
            }
            i = i + 1;
        }
        proof {
            assert(views.take(i as int) =~= views);
        }
    }
}

/// Arguments as they are handed over: by name, or as a list of texts that each hold a name and a
/// value.
#[derive(Debug)]
pub enum HyperparameterArgs {
    Named(ArgMap),
    Listed(Vec<String>),
}

/// The two parts of a listed argument: around an equals sign if it has one, else around a space.
pub open spec fn argument_parts(arg: Seq<char>) -> Seq<Seq<char>> {
    if arg.contains('=') {
        split_pieces(arg, '=')
    } else {
        split_pieces(arg, ' ')
    }
}

/// Whether a listed argument has exactly a name and a value.
pub open spec fn is_argument(arg: Seq<char>) -> bool {
    argument_parts(arg).len() == 2
}

/// Whether each of the texts has exactly a name and a value.
pub open spec fn all_arguments(args: Seq<Seq<char>>) -> bool {
    forall|i: int| 0 <= i < args.len() ==> is_argument(#[trigger] args[i])
}

/// The names and values of listed arguments.
pub open spec fn argument_pairs(args: Seq<Seq<char>>) -> Seq<(Seq<char>, Seq<char>)> {
    args.map_values(|a: Seq<char>| (argument_parts(a)[0], argument_parts(a)[1]))
}

impl HyperparameterArgs {
    /// Maps hold each name once; listed arguments have a name and a value each.
    pub open spec fn wf(self) -> bool {
        match self {
            HyperparameterArgs::Named(m) => m.wf(),
            HyperparameterArgs::Listed(args) => all_arguments(texts(args@)),
        }
    }

    /// The arguments by name; of two listed under one name the later counts.
    pub open spec fn by_name(self) -> Map<Seq<char>, Seq<char>> {
        match self {
            HyperparameterArgs::Named(m) => m@,
            HyperparameterArgs::Listed(args) => pairs_map(argument_pairs(texts(args@))),
        }
    }

    /// Whether the arguments are well formed: what a caller tests before handing over arguments that
    /// it did not make itself.
    pub fn is_wf(&self) -> (r: bool)
        ensures
            r == self.wf(),
    {
        match self {
            HyperparameterArgs::Named(m) => m.is_wf(),
            HyperparameterArgs::Listed(args) => all_have_name_and_value(args),
        }
    }
}

fn all_have_name_and_value(args: &Vec<String>) -> (r: bool)
    ensures
        r == all_arguments(texts(args@)),
{
    let ghost views = texts(args@);
    let mut i: usize = 0;
    while i < args.len()
        invariant
            i <= args@.len(),
            views == texts(args@),
            forall|k: int| 0 <= k < i ==> is_argument(#[trigger] views[k]),
        decreases args@.len() - i,
    {
        let parts = listed_parts(args[i].as_str());
        proof {
            assert(views[i as int] == args@[i as int]@);
            assert(texts(parts@).len() == parts@.len());
        }
        if parts.len() != 2 {
            proof {
                assert(!is_argument(views[i as int]));
            }
            return false;
        }
        i = i + 1;
    }
    true
}

fn listed_parts(arg: &str) -> (r: Vec<String>)
    ensures
        texts(r@) == argument_parts(arg@),
{
    if has_char(arg, '=') {
        split_on(arg, '=')
    } else {
        split_on(arg, ' ')
    }
}

/// Reads arguments into a map by name.
pub fn parse_args(hyperparameter_args: &Option<HyperparameterArgs>) -> (r: ArgMap)
    requires
        hyperparameter_args matches Some(args) ==> args.wf(),
    ensures
        r.wf(),
        r@ == match hyperparameter_args {
            Some(args) => args.by_name(),
            None => Map::empty(),
        },
{
    match hyperparameter_args {
        None => ArgMap::new(),
        Some(HyperparameterArgs::Named(m)) => m.clone(),
        Some(HyperparameterArgs::Listed(args)) => {
            let mut map = ArgMap::new();
            let ghost pairs = argument_pairs(texts(args@));
            proof {
                assert(pairs.take(0) =~= Seq::<(Seq<char>, Seq<char>)>::empty());
            }
            let mut i: usize = 0;
            while i < args.len()
                invariant
                    i <= args@.len(),
                    map.wf(),
                    pairs == argument_pairs(texts(args@)),
                    all_arguments(texts(args@)),
                    map@ == pairs_map(pairs.take(i as int)),
                decreases args@.len() - i,
            {
                let parts = listed_parts(args[i].as_str());
                proof {
                    assert(texts(args@)[i as int] == args@[i as int]@);
                    assert(is_argument(texts(args@)[i as int]));
                    assert(texts(parts@).len() == parts@.len());
                    assert(texts(parts@)[0] == parts@[0]@);
                    assert(texts(parts@)[1] == parts@[1]@);
                }
                map.insert(parts[0].clone(), parts[1].clone());
                proof {
                    assert(pairs.take(i as int + 1).drop_last() =~= pairs.take(i as int));
                }
                i = i + 1;
            }
            proof {
                assert(pairs.take(i as int) =~= pairs);
            }
            map
        },
    }
}

/// A listed argument is a name and a value around an equals sign, and where there is none around a
/// space.
pub proof fn law_arguments_are_names_and_values(name: Seq<char>, value: Seq<char>)
    ensures
        !name.contains('=') && !value.contains('=') ==> is_argument(name + seq!['='] + value)
            && argument_parts(name + seq!['='] + value) == seq![name, value],
        !name.contains('=') && !value.contains('=') && !name.contains(' ') && !value.contains(' ')
            ==> is_argument(name + seq![' '] + value) && argument_parts(name + seq![' '] + value)
            == seq![name, value],
{
    let equals = name + seq!['='] + value;
    let spaced = name + seq![' '] + value;
    assert(equals[name.len() as int] == '=');
    if !name.contains('=') && !value.contains('=') {
        law_texts_split_at_the_separator(name, '=', value);
        law_joining_undoes_splitting(name, '=');
        law_joining_undoes_splitting(value, '=');
        assert(argument_parts(equals) =~= seq![name, value]);
        assert(!spaced.contains('=')) by {
            if spaced.contains('=') {
                let k = choose|k: int| 0 <= k < spaced.len() && spaced[k] == '=';
                if k < name.len() {
                    assert(name[k] == '=');
                } else if k > name.len() {
                    assert(value[k - name.len() - 1] == '=');
                }
            }
        }
        if !name.contains(' ') && !value.contains(' ') {
            law_texts_split_at_the_separator(name, ' ', value);
            law_joining_undoes_splitting(name, ' ');
            law_joining_undoes_splitting(value, ' ');
            assert(argument_parts(spaced) =~= seq![name, value]);
        }
    }
}

/// Of pairs that are entered one after the other the last with a key binds it, and a key that no
/// pair has is not bound.
pub proof fn law_last_pair_holds<K, V>(pairs: Seq<(K, V)>, i: int, key: K)
    ensures
        0 <= i < pairs.len() && pairs[i].0 == key && (forall|k: int|
            i < k < pairs.len() ==> (#[trigger] pairs[k]).0 != key) ==> pairs_map(pairs).contains_key(
            key,
        ) && pairs_map(pairs)[key] == pairs[i].1,
        (forall|k: int| 0 <= k < pairs.len() ==> (#[trigger] pairs[k]).0 != key) ==> !pairs_map(
            pairs,
        ).contains_key(key),
    decreases pairs.len(),
{
    if pairs.len() > 0 {
        let init = pairs.drop_last();
        law_last_pair_holds(init, i, key);
        assert(forall|k: int| 0 <= k < init.len() ==> init[k] == pairs[k]);
        let last = pairs.len() - 1;
        if 0 <= i < pairs.len() && pairs[i].0 == key && (forall|k: int|
            i < k < pairs.len() ==> (#[trigger] pairs[k]).0 != key) {
            if i < last {
                assert(pairs[last].0 != key);
                assert(forall|k: int| i < k < init.len() ==> (#[trigger] init[k]).0 != key);
            }
        }
        if forall|k: int| 0 <= k < pairs.len() ==> (#[trigger] pairs[k]).0 != key {
            assert(pairs[last].0 != key);
            assert(forall|k: int| 0 <= k < init.len() ==> (#[trigger] init[k]).0 != key);
        }
    }
}

/// Listed arguments are read each by its name: the later of two with one name counts, and named ones
/// stay as they are.
pub proof fn law_later_arguments_count(args: Vec<String>, i: int, name: Seq<char>, value: Seq<char>, m: ArgMap)
    requires
        all_arguments(texts(args@)),
        0 <= i < args@.len(),
        argument_parts(args@[i]@) == seq![name, value],
        forall|k: int|
            i < k < args@.len() ==> argument_parts((#[trigger] args@[k])@)[0] != name,
    ensures
        HyperparameterArgs::Listed(args).by_name().contains_key(name),
        HyperparameterArgs::Listed(args).by_name()[name] == value,
        HyperparameterArgs::Named(m).by_name() == m@,
{
    let pairs = argument_pairs(texts(args@));
    assert(pairs[i] == (name, value));
    assert forall|k: int| i < k < pairs.len() implies (#[trigger] pairs[k]).0 != name by {
        assert(argument_parts(args@[k]@)[0] != name);
    }
    law_last_pair_holds(pairs, i, name);
}

/// Arguments are well formed exactly if each that is listed has a name and a value, and each that is
/// named has a name of its own.
pub proof fn law_every_listed_argument_has_two_parts(args: Vec<String>, i: int, m: ArgMap, j: int, k: int)
    ensures
        HyperparameterArgs::Listed(args).wf() && 0 <= i < args@.len() ==> argument_parts(
            args@[i]@,
        ).len() == 2,
        (forall|n: int| 0 <= n < args@.len() ==> argument_parts((#[trigger] args@[n])@).len() == 2)
            ==> HyperparameterArgs::Listed(args).wf(),
        HyperparameterArgs::Named(m).wf() && 0 <= j < k < m.entries@.len() ==> m.entries@[j].0@
            != m.entries@[k].0@,
{
    let views = texts(args@);
    if HyperparameterArgs::Listed(args).wf() && 0 <= i < args@.len() {
        assert(is_argument(views[i]));
    }
    if forall|n: int| 0 <= n < args@.len() ==> argument_parts((#[trigger] args@[n])@).len() == 2 {
        assert forall|n: int| 0 <= n < views.len() implies is_argument(#[trigger] views[n]) by {
            assert(argument_parts(args@[n]@).len() == 2);
        }
    }
    if HyperparameterArgs::Named(m).wf() && 0 <= j < k < m.entries@.len() {
        let pairs = entry_views(m.entries@);
        assert(pairs[j].0 != pairs[k].0);
    }
}

} // verus!
