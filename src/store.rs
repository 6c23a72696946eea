use vstd::prelude::*;
use crate::address::Address;

verus! {

/// The keys of the contract's state: two singletons and one record per
/// identity that has greeted.
#[derive(Clone, Debug)]
pub enum DataKey {
    Admin,
    ContadorSaludos,
    UltimoSaludo(Address),
}

/// What a key denotes, independent of how its identity is held in memory.
pub enum KeyView {
    Admin,
    ContadorSaludos,
    UltimoSaludo(Seq<char>),
}

impl View for DataKey {
    type V = KeyView;

    open spec fn view(&self) -> KeyView {
        match self {
            DataKey::Admin => KeyView::Admin,
            DataKey::ContadorSaludos => KeyView::ContadorSaludos,
            DataKey::UltimoSaludo(a) => KeyView::UltimoSaludo(a@),
        }
    }
}

impl DataKey {
    /// Whether two keys denote the same entry.
    pub fn same(&self, other: &DataKey) -> (r: bool)
        ensures
            r == (self@ == other@),
    {
        match (self, other) {
            (DataKey::Admin, DataKey::Admin) => true,
            (DataKey::ContadorSaludos, DataKey::ContadorSaludos) => true,
            (DataKey::UltimoSaludo(a), DataKey::UltimoSaludo(b)) => a.same(b),
            _ => false,
        }
    }

    pub fn duplicate(&self) -> (r: DataKey)
        ensures
            r@ == self@,
    {
        match self {
            DataKey::Admin => DataKey::Admin,
            DataKey::ContadorSaludos => DataKey::ContadorSaludos,
            DataKey::UltimoSaludo(a) => DataKey::UltimoSaludo(a.duplicate()),
        }
    }
}

/// A stored value: an identity, a counter or a piece of text.
#[derive(Clone, Debug)]
pub enum Value {
    Addr(Address),
    Count(u32),
    Text(String),
}

pub enum ValueView {
    Addr(Seq<char>),
    Count(u32),
    Text(Seq<char>),
}

impl View for Value {
    type V = ValueView;

    open spec fn view(&self) -> ValueView {
        match self {
            Value::Addr(a) => ValueView::Addr(a@),
            Value::Count(n) => ValueView::Count(*n),
            Value::Text(s) => ValueView::Text(s@),
        }
    }
}

impl Value {
    pub fn duplicate(&self) -> (r: Value)
        ensures
            r@ == self@,
    {
        match self {
            Value::Addr(a) => Value::Addr(a.duplicate()),
            Value::Count(n) => Value::Count(*n),
            Value::Text(s) => Value::Text(s.clone()),
        }
    }
}

/// What the store holds under a key: the value and its remaining lifetime.
pub struct Stored {
    pub value: ValueView,
    pub ttl: u32,
}

/// The lifetime after an extension request: below `threshold` it becomes
/// `extend_to`, otherwise it is left as it is.
pub open spec fn extended(ttl: u32, threshold: u32, extend_to: u32) -> u32 {
    if ttl < threshold {
        extend_to
    } else {
        ttl
    }
}

pub fn extend(ttl: u32, threshold: u32, extend_to: u32) -> (r: u32)
    ensures
        r == extended(ttl, threshold, extend_to),
{
    if ttl < threshold {
        extend_to
    } else {
        ttl
    }
}

/// `m` after storing `v` under `k`: an entry that was there keeps its
/// lifetime, a new one starts with none.
pub open spec fn put(m: Map<KeyView, Stored>, k: KeyView, v: ValueView) -> Map<KeyView, Stored> {
    m.insert(k, Stored { value: v, ttl: if m.contains_key(k) { m[k].ttl } else { 0 } })
}

/// `m` after a lifetime extension of the entry under `k`; nothing changes
/// where `k` holds nothing.
pub open spec fn bumped(m: Map<KeyView, Stored>, k: KeyView, threshold: u32, extend_to: u32) -> Map<
    KeyView,
    Stored,
> {
    if m.contains_key(k) {
        m.insert(k, Stored { value: m[k].value, ttl: extended(m[k].ttl, threshold, extend_to) })
    } else {
        m
    }
}

struct Slot {
    key: DataKey,
    value: Value,
    ttl: u32,
}

impl Slot {
    spec fn stored(&self) -> Stored {
        Stored { value: self.value@, ttl: self.ttl }
    }
}

/// The map that a sequence of slots denotes: a later slot for a key
/// overrides an earlier one.
spec fn slots_map(s: Seq<Slot>) -> Map<KeyView, Stored>
    decreases s.len(),
{
    if s.len() == 0 {
        Map::empty()
    } else {
        slots_map(s.drop_last()).insert(s.last().key@, s.last().stored())
    }
}

proof fn lemma_suffix_without_key(s: Seq<Slot>, n: int, k: KeyView)
    requires
        0 <= n <= s.len(),
        forall|j: int| n <= j < s.len() ==> s[j].key@ != k,
    ensures
        slots_map(s).contains_key(k) == slots_map(s.take(n)).contains_key(k),
        slots_map(s).contains_key(k) ==> slots_map(s)[k] == slots_map(s.take(n))[k],
    decreases s.len(),
{
    if s.len() == n {
        assert(s.take(n) =~= s);
    } else {
        assert(s.drop_last().take(n) =~= s.take(n));
        lemma_suffix_without_key(s.drop_last(), n, k);
    }
}

proof fn lemma_update_last_occurrence(s: Seq<Slot>, i: int, x: Slot)
    requires
        0 <= i < s.len(),
        s[i].key@ == x.key@,
        forall|j: int| i < j < s.len() ==> s[j].key@ != x.key@,
    ensures
        slots_map(s.update(i, x)) =~= slots_map(s).insert(x.key@, x.stored()),
    decreases s.len(),
{
    let t = s.update(i, x);
    if i == s.len() - 1 {
        assert(t.drop_last() =~= s.drop_last());
    } else {
        assert(t.drop_last() =~= s.drop_last().update(i, x));
        lemma_update_last_occurrence(s.drop_last(), i, x);
    }
}

/// One scope of the store: a finite map from keys to values, each with its
/// own remaining lifetime.
pub struct Table {
    slots: Vec<Slot>,
}

impl View for Table {
    type V = Map<KeyView, Stored>;

    closed spec fn view(&self) -> Map<KeyView, Stored> {
        slots_map(self.slots@)
    }
}

impl Table {
    pub fn new() -> (r: Table)
        ensures
            r@ == Map::<KeyView, Stored>::empty(),
    {
        Table { slots: Vec::new() }
    }

    /// The position of the slot that holds `k`, if any.
    fn find(&self, k: &DataKey) -> (r: Option<usize>)
        ensures
            match r {
                Some(i) => {
                    &&& i < self.slots@.len()
                    &&& self.slots@[i as int].key@ == k@
                    &&& forall|j: int| i < j < self.slots@.len() ==> self.slots@[j].key@ != k@
                    &&& self@.contains_key(k@)
                    &&& self@[k@] == self.slots@[i as int].stored()
                },
                None => !self@.contains_key(k@),
            },
    {
        let mut i: usize = self.slots.len();
        while i > 0
            invariant
                i <= self.slots@.len(),
                forall|j: int| i <= j < self.slots@.len() ==> self.slots@[j].key@ != k@,
            decreases i,
        {
            if self.slots[i - 1].key.same(k) {
                proof {
                    lemma_suffix_without_key(self.slots@, i as int, k@);
                    let t = self.slots@.take(i as int);
                    assert(t.drop_last() =~= self.slots@.take(i - 1));
                }
                return Some(i - 1);
            }
            i = i - 1;
        }
        proof {
            lemma_suffix_without_key(self.slots@, 0, k@);
        }
        None
    }

    pub fn has(&self, k: &DataKey) -> (r: bool)
        ensures
            r == self@.contains_key(k@),
    {
        self.find(k).is_some()
    }

    /// The remaining lifetime of the entry under `k`, if any.
    pub fn ttl(&self, k: &DataKey) -> (r: Option<u32>)
        ensures
            match r {
                Some(t) => self@.contains_key(k@) && self@[k@].ttl == t,
                None => !self@.contains_key(k@),
            },
    {
        match self.find(k) {
            Some(i) => Some(self.slots[i].ttl),
            None => None,
        }
    }

    pub fn get(&self, k: &DataKey) -> (r: Option<Value>)
        ensures
            match r {
                Some(v) => self@.contains_key(k@) && self@[k@].value == v@,
                None => !self@.contains_key(k@),
            },
    {
        match self.find(k) {
            Some(i) => Some(self.slots[i].value.duplicate()),
            None => None,
        }
    }

    /// Stores `v` under `k`. An entry that was there keeps its lifetime; a
    /// new one starts with none.
    pub fn set(&mut self, k: DataKey, v: Value)
        ensures
            final(self)@ == put(old(self)@, k@, v@),
    {
        match self.find(&k) {
            Some(i) => {
                let ttl = self.slots[i].ttl;
                let x = Slot { key: k, value: v, ttl };
                proof {
                    lemma_update_last_occurrence(self.slots@, i as int, x);
                }
                self.slots.set(i, x);
            },
            None => {
                let x = Slot { key: k, value: v, ttl: 0 };
                proof {
                    assert(self.slots@.push(x).drop_last() =~= self.slots@);
                }
                self.slots.push(x);
            },
        }
    }

    /// Extends the lifetime of the entry under `k` as `extended` says; a key
    /// that holds nothing is left alone.
    pub fn extend_ttl(&mut self, k: &DataKey, threshold: u32, extend_to: u32)
        ensures
            final(self)@ == bumped(old(self)@, k@, threshold, extend_to),
    {
        match self.find(k) {
            Some(i) => {
                let ttl = extend(self.slots[i].ttl, threshold, extend_to);
                let x = Slot { key: k.duplicate(), value: self.slots[i].value.duplicate(), ttl };
                proof {
                    lemma_update_last_occurrence(self.slots@, i as int, x);
                }
                self.slots.set(i, x);
            },
            None => {},
        }
    }
}

/// The contract's whole state: the instance scope, with one lifetime for
/// all of it, and the persistent scope, with a lifetime per entry.
pub struct Env {
    instance: Table,
    instance_ttl: u32,
    persistent: Table,
}

pub struct EnvView {
    pub instance: Map<KeyView, Stored>,
    pub instance_ttl: u32,
    pub persistent: Map<KeyView, Stored>,
}

/// The state of a contract that nothing has touched yet.
pub open spec fn fresh() -> EnvView {
    EnvView { instance: Map::empty(), instance_ttl: 0, persistent: Map::empty() }
}

impl View for Env {
    type V = EnvView;

    closed spec fn view(&self) -> EnvView {
        EnvView {
            instance: self.instance@,
            instance_ttl: self.instance_ttl,
            persistent: self.persistent@,
        }
    }
}

impl Env {
    pub fn new() -> (r: Env)
        ensures
            r@ == fresh(),
    {
        Env { instance: Table::new(), instance_ttl: 0, persistent: Table::new() }
    }

    pub fn instance_has(&self, k: &DataKey) -> (r: bool)
        ensures
            r == self@.instance.contains_key(k@),
    {
        self.instance.has(k)
    }

    pub fn instance_get(&self, k: &DataKey) -> (r: Option<Value>)
        ensures
            match r {
                Some(v) => self@.instance.contains_key(k@) && self@.instance[k@].value == v@,
                None => !self@.instance.contains_key(k@),
            },
    {
        self.instance.get(k)
    }

    pub fn instance_set(&mut self, k: DataKey, v: Value)
        ensures
            final(self)@ == (EnvView { instance: put(old(self)@.instance, k@, v@), ..old(self)@ }),
    {
        self.instance.set(k, v);
    }

    /// Extends the lifetime of the instance scope as a whole.
    pub fn extend_instance_ttl(&mut self, threshold: u32, extend_to: u32)
        ensures
            final(self)@ == (EnvView {
                instance_ttl: extended(old(self)@.instance_ttl, threshold, extend_to),
                ..old(self)@
            }),
    {
        self.instance_ttl = extend(self.instance_ttl, threshold, extend_to);
    }

    /// The remaining lifetime of the instance scope.
    pub fn instance_ttl(&self) -> (r: u32)
        ensures
            r == self@.instance_ttl,
    {
        self.instance_ttl
    }

    /// The remaining lifetime of the persistent entry under `k`, if any.
    pub fn persistent_ttl(&self, k: &DataKey) -> (r: Option<u32>)
        ensures
            match r {
                Some(t) => self@.persistent.contains_key(k@) && self@.persistent[k@].ttl == t,
                None => !self@.persistent.contains_key(k@),
            },
    {
        self.persistent.ttl(k)
    }

    pub fn persistent_get(&self, k: &DataKey) -> (r: Option<Value>)
        ensures
            match r {
                Some(v) => self@.persistent.contains_key(k@) && self@.persistent[k@].value == v@,
                None => !self@.persistent.contains_key(k@),
            },
    {
        self.persistent.get(k)
    }

    pub fn persistent_set(&mut self, k: DataKey, v: Value)
        ensures
            final(self)@ == (EnvView { persistent: put(old(self)@.persistent, k@, v@), ..old(self)@ }),
    {
        self.persistent.set(k, v);
    }

    pub fn extend_persistent_ttl(&mut self, k: &DataKey, threshold: u32, extend_to: u32)
        ensures
            final(self)@ == (EnvView {
                persistent: bumped(old(self)@.persistent, k@, threshold, extend_to),
                ..old(self)@
            }),
    {
        self.persistent.extend_ttl(k, threshold, extend_to);
    }
}

} // verus!
