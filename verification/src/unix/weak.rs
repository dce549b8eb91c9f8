//! Optional entry points of the platform, looked up by name at most once.

use vstd::prelude::*;

verus! {

/// What is known about an optional entry point.
#[derive(Clone, Copy, Debug, PartialEq, Eq, Structural)]
pub enum Symbol {
    /// Nobody has looked yet.
    Unresolved,
    /// The platform does not have it.
    Absent,
    /// The platform has it at this address, which is not zero.
    Present(usize),
}

impl Symbol {
    /// What a lookup that answered `addr` says: zero stands for "not found".
    pub open spec fn of_address(addr: usize) -> Symbol {
        if addr == 0 {
            Symbol::Absent
        } else {
            Symbol::Present(addr)
        }
    }

    /// The address to call, if there is one.
    pub open spec fn entry(self) -> Option<usize> {
        match self {
            Symbol::Present(addr) => Some(addr),
            _ => None,
        }
    }

    /// Whether a lookup has been made.
    pub open spec fn resolved(self) -> bool {
        self != Symbol::Unresolved
    }

    /// No entry point is ever recorded at address zero.
    pub open spec fn wf(self) -> bool {
        self matches Symbol::Present(addr) ==> addr != 0
    }
}

/// The form in which a name is handed to the platform's lookup: the name
/// followed by a zero byte. A name that itself holds a zero byte has none.
pub open spec fn encoded(name: Seq<u8>) -> Option<Seq<u8>> {
    if name.contains(0u8) {
        None
    } else {
        Some(name.push(0u8))
    }
}

/// Encodes a name for the platform's lookup.
pub fn encode_name(name: &Vec<u8>) -> (r: Option<Vec<u8>>)
    ensures
        r is Some == encoded(name@) is Some,
        r matches Some(c) ==> Some(c@) == encoded(name@),
{
    let mut c: Vec<u8> = Vec::new();
    let mut i: usize = 0;
    while i < name.len()
        invariant
            i <= name.len(),
            c@ == name@.take(i as int),
            forall|k: int| 0 <= k < i ==> name@[k] != 0u8,
        decreases name.len() - i,
    {
        let b: u8 = name[i];
        if b == 0 {
            assert(name@[i as int] == 0u8);
            return None;
        }
        c.push(b);
        assert(name@.take(i + 1) == name@.take(i as int).push(b));
        i = i + 1;
    }
    assert(name@.take(i as int) == name@);
    c.push(0);
    Some(c)
}

/// An optional entry point of the platform, with the answer of the one
/// lookup that is ever made for it.
pub struct Weak {
    name: Vec<u8>,
    cached: Symbol,
}

impl Weak {
    /// The name that is looked up.
    pub closed spec fn name(self) -> Seq<u8> {
        self.name@
    }

    /// What is known so far.
    pub closed spec fn symbol(self) -> Symbol {
        self.cached
    }

    /// Nothing but a lookup's answer is ever recorded.
    pub open spec fn wf(self) -> bool {
        self.symbol().wf()
    }

    /// An entry point that nobody has looked for yet.
    pub fn new(name: Vec<u8>) -> (w: Weak)
        ensures
            w.name() == name@,
            w.symbol() == Symbol::Unresolved,
            w.wf(),
    {
        Weak { name, cached: Symbol::Unresolved }
    }

    /// What is known so far, without looking.
    pub fn peek(&self) -> (s: Symbol)
        ensures
            s == self.symbol(),
    {
        self.cached
    }

    /// Records what a lookup answered, unless one was recorded before.
    pub fn record(&mut self, addr: usize)
        ensures
            final(self).name() == old(self).name(),
            old(self).symbol().resolved() ==> final(self).symbol() == old(self).symbol(),
            !old(self).symbol().resolved() ==> final(self).symbol() == Symbol::of_address(addr),
            old(self).wf() ==> final(self).wf(),
    {
        if self.cached == Symbol::Unresolved {
            self.cached = if addr == 0 {
                Symbol::Absent
            } else {
                Symbol::Present(addr)
            };
        }
    }

    /// The entry point's address, if the platform has it. The first call
    /// looks it up with `fetch`, which is handed the encoded name and
    /// answers zero for "not found"; a name that cannot be encoded is not
    /// looked up and counts as not found. Later calls answer from what the
    /// first one recorded and leave `fetch` alone.
    pub fn get<F: FnOnce(&Vec<u8>) -> usize>(&mut self, fetch: F) -> (r: Option<usize>)
        requires
            !old(self).symbol().resolved() ==> can_fetch(old(self).name(), fetch),
        ensures
            consulted(*old(self), *final(self), fetch),
            r == final(self).symbol().entry(),
    {
        if self.cached == Symbol::Unresolved {
            let addr: usize = match encode_name(&self.name) {
                Some(c) => fetch(&c),
                None => 0,
            };
            self.record(addr);
        }
        match self.cached {
            Symbol::Present(addr) => Some(addr),
            _ => None,
        }
    }
}

/// Whether `fetch` may be called with the encoded form of `name`.
pub open spec fn can_fetch<F: FnOnce(&Vec<u8>) -> usize>(name: Seq<u8>, fetch: F) -> bool {
    forall|c: &Vec<u8>| Some(c@) == encoded(name) ==> call_requires(fetch, (c,))
}

/// Whether `fetch`, called with the encoded form of `name`, can have
/// answered what `symbol` records. A name without an encoded form is never
/// looked up and recorded as absent.
pub open spec fn fetched<F: FnOnce(&Vec<u8>) -> usize>(name: Seq<u8>, fetch: F, symbol: Symbol) -> bool {
    if encoded(name) is None {
        symbol == Symbol::Absent
    } else {
        exists|c: &Vec<u8>, addr: usize|
            Some(c@) == encoded(name) && call_ensures(fetch, (c,), addr) && symbol
                == Symbol::of_address(addr)
    }
}

/// How consulting an entry point changes what is known of it: afterwards a
/// lookup has been made; it was made now, with `fetch`, only if none had
/// been made before, and what an earlier one recorded stays.
pub open spec fn consulted<F: FnOnce(&Vec<u8>) -> usize>(before: Weak, after: Weak, fetch: F) -> bool {
    &&& after.name() == before.name()
    &&& after.symbol().resolved()
    &&& before.symbol().resolved() ==> after.symbol() == before.symbol()
    &&& !before.symbol().resolved() ==> fetched(before.name(), fetch, after.symbol())
    &&& before.wf() ==> after.wf()
}

/// An entry point is looked up once: whoever consults it after that is
/// answered from what the first lookup recorded, whatever a later `fetch`
/// would have answered.
pub proof fn resolved_once<F: FnOnce(&Vec<u8>) -> usize, G: FnOnce(&Vec<u8>) -> usize>(
    before: Weak,
    between: Weak,
    after: Weak,
    first: F,
    second: G,
)
    requires
        consulted(before, between, first),
        consulted(between, after, second),
    ensures
        after.symbol() == between.symbol(),
        after.symbol().entry() == between.symbol().entry(),
        after.name() == before.name(),
{
}

/// A lookup never fails: whatever it answers, and also where the name has
/// no encoded form, the entry point is afterwards absent or present at an
/// address that is not zero.
pub proof fn lookup_is_total<F: FnOnce(&Vec<u8>) -> usize>(before: Weak, after: Weak, fetch: F)
    requires
        before.wf(),
        consulted(before, after, fetch),
    ensures
        after.symbol() is Absent || after.symbol() is Present,
        after.symbol() matches Symbol::Present(addr) ==> addr != 0,
        after.symbol() is Absent <==> after.symbol().entry() is None,
        !before.symbol().resolved() && encoded(before.name()) is None ==> after.symbol()
            == Symbol::Absent,
{
}

} // verus!
