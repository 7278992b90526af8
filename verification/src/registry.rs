//! The load-time registration step: a symbol table that binds callable
//! names for the host, where a name can be bound at most once.

use vstd::prelude::*;

verus! {

/// The one failure the module can see: binding a name that is already bound.
#[derive(Debug, PartialEq, Eq, Structural)]
pub enum RegistrationError {
    DuplicateName,
}

/// The symbol table a load populates: the names bound so far, in the order
/// they were bound.
pub struct Registry {
    names: Vec<String>,
}

/// The name under which the entry point is bound.
pub open spec fn entry_point_name() -> Seq<char> {
    "helloworld"@
}

/// The name under which the module itself is known to the host.
pub open spec fn module_name() -> Seq<char> {
    "py3_hessian2_rsimpl"@
}

impl Registry {
    /// The registry as a sequence of bound names.
    pub closed spec fn view(self) -> Seq<Seq<char>> {
        self.names@.map_values(|s: String| s@)
    }

    /// Well-formed: no name is bound twice.
    pub open spec fn wf(self) -> bool {
        forall|i: int, j: int| 0 <= i < j < self@.len() ==> self@[i] != self@[j]
    }

    /// An empty registry: nothing is bound yet.
    pub fn new() -> (r: Registry)
        ensures
            r@ == Seq::<Seq<char>>::empty(),
            r.wf(),
    {
        let r = Registry { names: Vec::new() };
        proof {
            assert(r@ =~= Seq::<Seq<char>>::empty());
        }
        r
    }

    /// How many names are bound.
    pub fn symbol_count(&self) -> (n: usize)
        ensures
            n == self@.len(),
    {
        self.names.len()
    }

    /// Whether `name` is already bound.
    pub fn is_bound(&self, name: &String) -> (r: bool)
        ensures
            r == self@.contains(name@),
    {
        let mut i: usize = 0;
        while i < self.names.len()
            invariant
                i <= self.names.len(),
                forall|j: int| 0 <= j < i ==> self@[j] != name@,
            decreases self.names.len() - i,
        {
            let cur: &String = &self.names[i];
            if cur.eq(name) {
                proof {
                    assert(self@[i as int] == name@);
                }
                return true;
            }
            i += 1;
        }
        proof {
            assert(forall|j: int| 0 <= j < self@.len() ==> self@[j] != name@);
        }
        false
    }

    /// Bind `name`. Succeeds exactly when the name is not yet bound, and then
    /// appends it; a duplicate name changes nothing and is the one error.
    pub fn register(&mut self, name: String) -> (r: Result<(), RegistrationError>)
        requires
            old(self).wf(),
        ensures
            final(self).wf(),
            r is Ok <==> !old(self)@.contains(name@),
            r is Ok ==> final(self)@ == old(self)@.push(name@),
            r is Err ==> final(self)@ == old(self)@ && r == Err::<(), RegistrationError>(
                RegistrationError::DuplicateName,
            ),
            final(self)@.contains(name@),
    {
        if self.is_bound(&name) {
            return Err(RegistrationError::DuplicateName);
        }
        let ghost before = self@;
        self.names.push(name);
        proof {
            assert(self@ =~= before.push(name@));
            assert(self@[before.len() as int] == name@);
        }
        Ok(())
    }
}

/// The load step: bind the entry point under its fixed name. On a fresh
/// registry this succeeds; on one that already holds the name it fails and
/// leaves the registry unchanged.
pub fn register_module(reg: &mut Registry) -> (r: Result<(), RegistrationError>)
    requires
        old(reg).wf(),
    ensures
        final(reg).wf(),
        r is Ok <==> !old(reg)@.contains(entry_point_name()),
        r is Ok ==> final(reg)@ == old(reg)@.push(entry_point_name()),
        r is Err ==> final(reg)@ == old(reg)@,
        final(reg)@.contains(entry_point_name()),
{
    let name = "helloworld";
    reg.register(name.to_owned())
}

/// A load of the module into a fresh registry exposes exactly one callable
/// symbol, under the entry point's name and no other.
pub proof fn lemma_fresh_load_exposes_one_symbol(before: Registry, after: Registry)
    requires
        before@ == Seq::<Seq<char>>::empty(),
        after@ == before@.push(entry_point_name()),
    ensures
        after@.len() == 1,
        after@.contains(entry_point_name()),
        forall|n: Seq<char>| after@.contains(n) ==> n == entry_point_name(),
{
    assert(after@[0] == entry_point_name());
}

} // verus!
