//! Identifier canonicalization.
//!
//! An `Interner` is an explicit, append-only table of names.  Interning a
//! name hands back a `Symbol` — the index of the name's first entry in the
//! table — appending the name only when it is new.  Equal text therefore
//! always receives the same symbol, distinct text a distinct one, and a
//! symbol, once handed out, stays valid for the life of the interner.

use vstd::prelude::*;
use vstd::string::StringExecFns;

use crate::ast::Symbol;

verus! {

/// The mathematical value of an interner: its names, in insertion order.
pub type Table = Seq<Seq<char>>;

/// The index of the first entry of `table` equal to `name`, or `table.len()`
/// when no entry is.
pub open spec fn spec_find(table: Table, name: Seq<char>) -> int
    decreases table.len(),
{
    if table.len() == 0 {
        0
    } else if table[0] == name {
        0
    } else {
        1 + spec_find(table.subrange(1, table.len() as int), name)
    }
}

/// Whether `name` has an entry in `table`.
pub open spec fn table_has(table: Table, name: Seq<char>) -> bool {
    spec_find(table, name) < table.len()
}

/// The table after interning `name`: unchanged when `name` is already
/// present, extended by one entry at the end when it is new.
pub open spec fn intern_table(table: Table, name: Seq<char>) -> Table {
    if table_has(table, name) {
        table
    } else {
        table.push(name)
    }
}

/// `u` extends `t`: every entry of `t` stands unmoved in `u`.
pub open spec fn extends(t: Table, u: Table) -> bool {
    t.len() <= u.len() && forall|i: int| 0 <= i < t.len() ==> u[i] == t[i]
}

/// What `spec_find` hands back: an index no larger than the table, pointing
/// at `name` when within it, with no earlier entry equal to `name`.
pub proof fn lemma_find_props(table: Table, name: Seq<char>)
    ensures
        0 <= spec_find(table, name) <= table.len(),
        spec_find(table, name) < table.len() ==> table[spec_find(table, name)] == name,
        forall|k: int| 0 <= k < spec_find(table, name) ==> table[k] != name,
    decreases table.len(),
{
    if table.len() == 0 {
    } else if table[0] == name {
    } else {
        let tl = table.subrange(1, table.len() as int);
        lemma_find_props(tl, name);
        assert forall|k: int| 0 <= k < spec_find(table, name) implies table[k] != name by {
            if k > 0 {
                assert(table[k] == tl[k - 1]);
            }
        }
    }
}

/// `spec_find` over a concatenation: the first table wins when it holds the
/// name; otherwise the search continues in the second.
pub proof fn lemma_find_append(t: Table, u: Table, name: Seq<char>)
    ensures
        spec_find(t + u, name) == if spec_find(t, name) < t.len() {
            spec_find(t, name)
        } else {
            t.len() + spec_find(u, name)
        },
    decreases t.len(),
{
    if t.len() == 0 {
        assert(t + u =~= u);
    } else {
        let c = t + u;
        assert(c[0] == t[0]);
        if t[0] == name {
        } else {
            let tl = t.subrange(1, t.len() as int);
            lemma_find_append(tl, u, name);
            assert(c.subrange(1, c.len() as int) =~= tl + u);
        }
    }
}

/// After interning, the name is present, at the index interning hands back,
/// and interning it again changes nothing.
pub proof fn lemma_intern_self(table: Table, name: Seq<char>)
    ensures
        table_has(intern_table(table, name), name),
        spec_find(intern_table(table, name), name) == spec_find(table, name),
        intern_table(intern_table(table, name), name) == intern_table(table, name),
        intern_table(table, name)[spec_find(table, name)] == name,
{
    lemma_find_props(table, name);
    if !table_has(table, name) {
        assert(table.push(name) =~= table + seq![name]);
        lemma_find_append(table, seq![name], name);
        assert(spec_find(seq![name], name) == 0);
    }
}

/// `extends` is transitive.
pub proof fn lemma_extends_trans(a: Table, b: Table, c: Table)
    requires
        extends(a, b),
        extends(b, c),
    ensures
        extends(a, c),
{
}

/// Interning only appends: the table after interning extends the table
/// before.
pub proof fn lemma_intern_extends(t: Table, name: Seq<char>)
    ensures
        extends(t, intern_table(t, name)),
{
}

/// A name present in `t` keeps its index in every extension of `t`, and
/// interning it there leaves the extension unchanged.
pub proof fn lemma_find_stable(t: Table, u: Table, name: Seq<char>)
    requires
        extends(t, u),
        table_has(t, name),
    ensures
        table_has(u, name),
        spec_find(u, name) == spec_find(t, name),
        intern_table(u, name) == u,
{
    let rest = u.subrange(t.len() as int, u.len() as int);
    assert(u =~= t + rest);
    lemma_find_append(t, rest, name);
    lemma_find_props(t, name);
}

/// Interning idempotence: once `a` is interned, interning it again hands
/// back the same symbol and leaves the table as it is; and in the resulting
/// table two names receive the same symbol exactly when their text is equal.
pub proof fn lemma_intern_idempotent(table: Table, a: Seq<char>, b: Seq<char>)
    ensures
        ({
            let t1 = intern_table(table, a);
            &&& spec_find(t1, a) == spec_find(table, a)
            &&& intern_table(t1, a) == t1
            &&& (spec_find(t1, a) == spec_find(t1, b) <==> a == b)
        }),
{
    let t1 = intern_table(table, a);
    lemma_intern_self(table, a);
    lemma_find_props(t1, a);
    lemma_find_props(t1, b);
    if spec_find(t1, a) == spec_find(t1, b) {
        assert(t1[spec_find(t1, a)] == a);
        assert(t1[spec_find(t1, b)] == b);
    }
}

/// The identifier canonicalizer: an explicit, append-only table of interned
/// names.  A name, once interned, is never evicted or moved.
pub struct Interner {
    names: Vec<String>,
}

impl View for Interner {
    type V = Table;

    closed spec fn view(&self) -> Table {
        self.names@.map_values(|s: String| s@)
    }
}

impl Interner {
    /// An interner holding no names yet.
    pub fn new() -> (r: Interner)
        ensures
            r@ == Seq::<Seq<char>>::empty(),
    {
        Interner { names: Vec::new() }
    }

    /// The index of the first interned name equal to `key`, or the table
    /// length when `key` is new.
    fn lookup(&self, key: &String) -> (i: usize)
        ensures
            i as int == spec_find(self@, key@),
    {
        let mut i: usize = 0;
        while i < self.names.len()
            invariant
                i <= self.names.len(),
                forall|k: int| 0 <= k < i ==> self@[k] != key@,
            decreases self.names.len() - i,
        {
            if self.names[i] == *key {
                proof {
                    assert(self@[i as int] == self.names@[i as int]@);
                    assert(self@[i as int] == key@);
                    lemma_find_props(self@, key@);
                }
                return i;
            }
            i += 1;
        }
        proof {
            lemma_find_props(self@, key@);
        }
        i
    }

    /// Intern `name`: hand back its symbol, appending the name to the table
    /// exactly when it is new.
    pub fn intern(&mut self, name: &str) -> (s: Symbol)
        ensures
            final(self)@ == intern_table(old(self)@, name@),
            s.index as int == spec_find(old(self)@, name@),
            s.index as int == spec_find(final(self)@, name@),
            s.index < final(self)@.len(),
            final(self)@[s.index as int] == name@,
    {
        let key: String = String::from_str(name);
        let i = self.lookup(&key);
        proof {
            lemma_find_props(self@, name@);
            lemma_intern_self(self@, name@);
        }
        if i < self.names.len() {
            Symbol { index: i }
        } else {
            self.names.push(key);
            proof {
                assert(self@ =~~= old(self)@.push(name@));
            }
            Symbol { index: i }
        }
    }
}

} // verus!
