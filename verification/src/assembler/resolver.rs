//! Name tables: what the labels and symbols of a program stand for.
use super::markers::{Label, Symbol};
use super::Error;
use vstd::prelude::*;
use vstd::string::StringExecFns;

verus! {

/// The value the first entry named `k` gives, if any.
pub open spec fn assoc(list: Seq<(Seq<char>, u16)>, k: Seq<char>) -> Option<u16>
    decreases list.len(),
{
    if list.len() == 0 {
        None
    } else if list[0].0 == k {
        Some(list[0].1)
    } else {
        assoc(list.drop_first(), k)
    }
}

/// A table as a map from names to values.
pub open spec fn assoc_map(list: Seq<(Seq<char>, u16)>) -> Map<Seq<char>, u16> {
    Map::new(|k: Seq<char>| assoc(list, k) is Some, |k: Seq<char>| assoc(list, k)->0)
}

/// The names and values of a table of strings.
pub open spec fn table_view(list: Seq<(String, u16)>) -> Seq<(Seq<char>, u16)> {
    list.map_values(|p: (String, u16)| (p.0@, p.1))
}

/// Entries before the first one named `k` do not matter.
pub proof fn lemma_assoc_skip(list: Seq<(Seq<char>, u16)>, k: Seq<char>, i: int)
    requires
        0 <= i <= list.len(),
        forall|j: int| 0 <= j < i ==> #[trigger] list[j].0 != k,
    ensures
        assoc(list, k) == assoc(list.subrange(i, list.len() as int), k),
    decreases i,
{
    if i > 0 {
        let t = list.drop_first();
        assert forall|j: int| 0 <= j < i - 1 implies #[trigger] t[j].0 != k by {
            assert(t[j] == list[j + 1]);
        }
        lemma_assoc_skip(t, k, i - 1);
        assert(t.subrange(i - 1, t.len() as int) =~= list.subrange(i, list.len() as int));
    } else {
        assert(list.subrange(0, list.len() as int) =~= list);
    }
}

/// A name occurs in a table exactly when looking it up succeeds.
pub proof fn lemma_assoc_none(list: Seq<(Seq<char>, u16)>, k: Seq<char>)
    ensures
        (assoc(list, k) is None) == (forall|j: int| 0 <= j < list.len() ==> #[trigger] list[j].0 != k),
    decreases list.len(),
{
    if list.len() > 0 {
        let t = list.drop_first();
        lemma_assoc_none(t, k);
        if assoc(list, k) is None {
            assert forall|j: int| 0 <= j < list.len() implies #[trigger] list[j].0 != k by {
                if j > 0 {
                    assert(list[j] == t[j - 1]);
                }
            }
        } else if list[0].0 != k {
            let j = choose|j: int| 0 <= j < t.len() && #[trigger] t[j].0 == k;
            assert(list[j + 1] == t[j]);
        }
    }
}

/// Replacing the value of the first entry named `k` changes what `k`
/// stands for and nothing else.
pub proof fn lemma_assoc_update(list: Seq<(Seq<char>, u16)>, k: Seq<char>, i: int, v: u16, q: Seq<char>)
    requires
        0 <= i < list.len(),
        list[i].0 == k,
        forall|j: int| 0 <= j < i ==> #[trigger] list[j].0 != k,
    ensures
        assoc(list.update(i, (k, v)), q) == (if q == k {
            Some(v)
        } else {
            assoc(list, q)
        }),
    decreases i,
{
    let u = list.update(i, (k, v));
    if i == 0 {
        assert(u.drop_first() =~= list.drop_first());
    } else {
        let t = list.drop_first();
        assert forall|j: int| 0 <= j < i - 1 implies #[trigger] t[j].0 != k by {
            assert(t[j] == list[j + 1]);
        }
        lemma_assoc_update(t, k, i - 1, v, q);
        assert(u.drop_first() =~= t.update(i - 1, (k, v)));
    }
}

/// Adding an entry for a name not in the table.
pub proof fn lemma_assoc_push(list: Seq<(Seq<char>, u16)>, k: Seq<char>, v: u16, q: Seq<char>)
    requires
        assoc(list, k) is None,
    ensures
        assoc(list.push((k, v)), q) == (if q == k {
            Some(v)
        } else {
            assoc(list, q)
        }),
    decreases list.len(),
{
    let p = list.push((k, v));
    if list.len() == 0 {
        assert(p.drop_first() =~= Seq::<(Seq<char>, u16)>::empty());
        assert(p[0] == (k, v));
        assert(assoc(p.drop_first(), q) is None);
    } else {
        let t = list.drop_first();
        assert(list[0].0 != k);
        assert(assoc(t, k) is None);
        lemma_assoc_push(t, k, v, q);
        assert(p.drop_first() =~= t.push((k, v)));
        assert(p[0] == list[0]);
    }
}

/// Looks `name` up in a table.
pub fn lookup(list: &Vec<(String, u16)>, name: &String) -> (r: Option<u16>)
    ensures
        r == assoc(table_view(list@), name@),
{
    let ghost s = table_view(list@);
    let mut i: usize = 0;
    while i < list.len()
        invariant
            i <= list.len(),
            s == table_view(list@),
            forall|j: int| 0 <= j < i ==> #[trigger] s[j].0 != name@,
        decreases list.len() - i,
    {
        if list[i].0 == *name {
            proof {
                lemma_assoc_skip(s, name@, i as int);
                assert(s.subrange(i as int, s.len() as int)[0] == s[i as int]);
            }
            return Some(list[i].1);
        }
        i += 1;
    }
    proof {
        lemma_assoc_none(s, name@);
    }
    None
}

/// Makes `name` stand for `value`: replaces the first entry with that name,
/// or adds one.
pub fn insert(list: &mut Vec<(String, u16)>, name: String, value: u16)
    ensures
        forall|q: Seq<char>|
            #[trigger] assoc(table_view(final(list)@), q) == (if q == name@ {
                Some(value)
            } else {
                assoc(table_view(old(list)@), q)
            }),
{
    let ghost s = table_view(list@);
    let mut i: usize = 0;
    while i < list.len()
        invariant
            i <= list.len(),
            list@ == old(list)@,
            s == table_view(list@),
            forall|j: int| 0 <= j < i ==> #[trigger] s[j].0 != name@,
        decreases list.len() - i,
    {
        if list[i].0 == name {
            let ghost n = name@;
            list.set(i, (name, value));
            proof {
                assert(table_view(list@) =~= s.update(i as int, (n, value)));
                assert forall|q: Seq<char>| #[trigger] assoc(table_view(list@), q) == (if q == n {
                    Some(value)
                } else {
                    assoc(s, q)
                }) by {
                    lemma_assoc_update(s, n, i as int, value, q);
                }
            }
            return;
        }
        i += 1;
    }
    proof {
        lemma_assoc_none(s, name@);
    }
    let ghost n = name@;
    list.push((name, value));
    proof {
        assert(table_view(list@) =~= s.push((n, value)));
        assert forall|q: Seq<char>| #[trigger] assoc(table_view(list@), q) == (if q == n {
            Some(value)
        } else {
            assoc(s, q)
        }) by {
            lemma_assoc_push(s, n, value, q);
        }
    }
}

/// What the labels and symbols of a program stand for.
pub trait Resolver {
    spec fn label_map(&self) -> Map<Seq<char>, u16>;

    spec fn symbol_map(&self) -> Map<Seq<char>, u16>;

    fn label_resolver(&self, label: &Label) -> (r: Result<u16, Error>)
        ensures
            match r {
                Ok(v) => self.label_map().contains_key(label.name@) && self.label_map()[label.name@]
                    == v,
                Err(e) => !self.label_map().contains_key(label.name@) && e == Error::UnknownLabel(
                    label.name,
                ),
            },
    ;

    fn symbol_resolver(&self, symbol: &Symbol) -> (r: Result<u16, Error>)
        ensures
            match r {
                Ok(v) => self.symbol_map().contains_key(symbol.name@)
                    && self.symbol_map()[symbol.name@] == v,
                Err(e) => !self.symbol_map().contains_key(symbol.name@) && e
                    == Error::UnknownSymbol(symbol.name),
            },
    ;
}

/// The tables the assembler builds: label addresses and symbol values.
#[derive(Debug, Clone)]
pub struct AssemblerResolver {
    pub labels: Vec<(String, u16)>,
    pub symbols: Vec<(String, u16)>,
}

impl AssemblerResolver {
    pub fn new() -> (r: Self)
        ensures
            r.label_map() == Map::<Seq<char>, u16>::empty(),
            r.symbol_map() == Map::<Seq<char>, u16>::empty(),
            r.labels@.len() == 0,
            r.symbols@.len() == 0,
    {
        let r = Self { labels: Vec::new(), symbols: Vec::new() };
        assert(r.label_map() =~= Map::<Seq<char>, u16>::empty());
        assert(r.symbol_map() =~= Map::<Seq<char>, u16>::empty());
        r
    }

    /// Makes label `name` stand for `address`.
    pub fn add_label(&mut self, name: &str, address: u16)
        ensures
            final(self).label_map() == old(self).label_map().insert(name@, address),
            final(self).symbol_map() == old(self).symbol_map(),
    {
        let n = String::from_str(name);
        insert(&mut self.labels, n, address);
        assert(self.label_map() =~= old(self).label_map().insert(name@, address));
    }

    /// Makes symbol `name` stand for `value`.
    pub fn add_symbol(&mut self, name: &str, value: u16)
        ensures
            final(self).symbol_map() == old(self).symbol_map().insert(name@, value),
            final(self).label_map() == old(self).label_map(),
    {
        let n = String::from_str(name);
        insert(&mut self.symbols, n, value);
        assert(self.symbol_map() =~= old(self).symbol_map().insert(name@, value));
    }
}

impl Resolver for AssemblerResolver {
    open spec fn label_map(&self) -> Map<Seq<char>, u16> {
        assoc_map(table_view(self.labels@))
    }

    open spec fn symbol_map(&self) -> Map<Seq<char>, u16> {
        assoc_map(table_view(self.symbols@))
    }

    fn label_resolver(&self, label: &Label) -> (r: Result<u16, Error>) {
        match lookup(&self.labels, &label.name) {
            Some(v) => Ok(v),
            None => Err(Error::UnknownLabel(label.name.clone())),
        }
    }

    fn symbol_resolver(&self, symbol: &Symbol) -> (r: Result<u16, Error>) {
        match lookup(&self.symbols, &symbol.name) {
            Some(v) => Ok(v),
            None => Err(Error::UnknownSymbol(symbol.name.clone())),
        }
    }
}

} // verus!
