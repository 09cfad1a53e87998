//! The pool of connected computers that a server hands out, and the search
//! for a computer by name, which puts back every computer it passes over.
use vstd::prelude::*;

use crate::computer::Computer;
use crate::error::CCError;

verus! {

/// The outcome of the server's channel of new computers: `None` once the
/// task that accepts connections has stopped.
pub fn received<T>(next: Option<T>) -> (r: Result<T, CCError>)
    ensures
        next is Some ==> r is Ok && r->Ok_0 == next->Some_0,
        next is None ==> r is Err && r->Err_0 is ServerThreadFailed,
{
    match next {
        Some(c) => Ok(c),
        None => Err(CCError::ServerThreadFailed),
    }
}

/// Whether every computer has completed its handshake.
pub open spec fn identified<H>(cs: Seq<Computer<H>>) -> bool {
    forall|i: int| 0 <= i < cs.len() ==> (#[trigger] cs[i]).info() is Some
}

/// Computers that a search passed over, waiting to be handed out again.
/// Only computers whose handshake has completed are kept.
pub struct Pool<H> {
    computers: Vec<Computer<H>>,
}

impl<H> View for Pool<H> {
    type V = Seq<Computer<H>>;

    closed spec fn view(&self) -> Seq<Computer<H>> {
        self.computers@
    }
}

impl<H> Pool<H> {
    #[verifier::type_invariant]
    closed spec fn inv(&self) -> bool {
        identified(self.computers@)
    }

    pub fn new() -> (r: Pool<H>)
        ensures
            r@ == Seq::<Computer<H>>::empty(),
    {
        Pool { computers: Vec::new() }
    }

    /// Takes the most recently put back computer, if any; it has completed
    /// its handshake.
    pub fn take(&mut self) -> (r: Option<Computer<H>>)
        ensures
            old(self)@.len() == 0 ==> r is None && final(self)@ == old(self)@,
            old(self)@.len() > 0 ==> r == Some(old(self)@.last()) && final(self)@ == old(
                self,
            )@.drop_last(),
            r is Some ==> r->Some_0.info() is Some,
            identified(final(self)@),
    {
        let mut taken = Pool { computers: Vec::new() };
        std::mem::swap(self, &mut taken);
        proof {
            use_type_invariant(&taken);
        }
        let mut computers = taken.computers;
        let r = computers.pop();
        *self = Pool { computers };
        r
    }

    /// Puts back, in order, computers that have completed their handshake.
    pub fn put_back(&mut self, tried: &mut Vec<Computer<H>>)
        requires
            identified(old(tried)@),
        ensures
            final(self)@ == old(self)@ + old(tried)@,
            final(tried)@ == Seq::<Computer<H>>::empty(),
            identified(final(self)@),
    {
        let mut taken = Pool { computers: Vec::new() };
        std::mem::swap(self, &mut taken);
        proof {
            use_type_invariant(&taken);
        }
        let mut computers = taken.computers;
        computers.append(tried);
        *self = Pool { computers };
    }

    pub fn len(&self) -> (r: usize)
        ensures
            r == self@.len(),
    {
        self.computers.len()
    }
}

/// Whether a computer's reported name is `name`.
pub open spec fn named<H>(c: Computer<H>, name: Seq<char>) -> bool {
    c.info() is Some && c.info()->Some_0.name == Some(name)
}

/// The computers that a search keeps after looking at `c`: those it passed
/// over that have completed their handshake.
pub open spec fn kept_after<H>(tried: Seq<Computer<H>>, c: Computer<H>, name: Seq<char>) -> Seq<
    Computer<H>,
> {
    if named(c, name) || c.info() is None {
        tried
    } else {
        tried.push(c)
    }
}

/// The computers that a search keeps after looking at each of `pulled`.
pub open spec fn kept_all<H>(tried: Seq<Computer<H>>, pulled: Seq<Computer<H>>, name: Seq<char>) -> Seq<
    Computer<H>,
>
    decreases pulled.len(),
{
    if pulled.len() == 0 {
        tried
    } else {
        kept_all(kept_after(tried, pulled[0], name), pulled.drop_first(), name)
    }
}

/// A search for the computer named `name`. The computers it passes over
/// are kept, and go back to the pool together when the search ends, so that
/// the search does not meet them again while it runs.
pub struct NameSearch<H> {
    name: String,
    tried: Vec<Computer<H>>,
}

impl<H> NameSearch<H> {
    #[verifier::type_invariant]
    closed spec fn inv(&self) -> bool {
        identified(self.tried@)
    }

    pub closed spec fn spec_name(&self) -> Seq<char> {
        self.name@
    }

    pub closed spec fn spec_tried(&self) -> Seq<Computer<H>> {
        self.tried@
    }

    pub fn new(name: &str) -> (r: NameSearch<H>)
        ensures
            r.spec_name() == name@,
            r.spec_tried() == Seq::<Computer<H>>::empty(),
    {
        NameSearch { name: name.to_string(), tried: Vec::new() }
    }

    /// Looks at the next computer: hands it back when it has the name, and
    /// keeps it otherwise. One whose handshake has not completed cannot be
    /// handed out, and is reported and let go.
    pub fn offer(&mut self, computer: Computer<H>) -> (r: Result<Option<Computer<H>>, CCError>)
        ensures
            final(self).spec_name() == old(self).spec_name(),
            final(self).spec_tried() == kept_after(old(self).spec_tried(), computer, old(self).spec_name()),
            named(computer, old(self).spec_name()) ==> r == Ok::<Option<Computer<H>>, CCError>(
                Some(computer),
            ),
            !named(computer, old(self).spec_name()) && computer.info() is Some ==> r == Ok::<
                Option<Computer<H>>,
                CCError,
            >(None),
            computer.info() is None ==> r is Err && r->Err_0 is HandshakeFailed,
    {
        proof {
            use_type_invariant(&*self);
        }
        let matches = match computer.computer_info() {
            Ok(info) => match &info.name {
                Some(n) => Ok(n.eq(&self.name)),
                None => Ok(false),
            },
            Err(e) => Err(e),
        };
        match matches {
            Ok(true) => Ok(Some(computer)),
            Ok(false) => {
                let mut taken = NameSearch { name: String::new(), tried: Vec::new() };
                std::mem::swap(self, &mut taken);
                proof {
                    use_type_invariant(&taken);
                }
                let NameSearch { name, mut tried } = taken;
                tried.push(computer);
                *self = NameSearch { name, tried };
                Ok(None)
            },
            Err(e) => Err(e),
        }
    }

    /// Ends the search: every computer it passed over goes back to the pool.
    pub fn finish(self, pool: &mut Pool<H>)
        ensures
            final(pool)@ == old(pool)@ + self.spec_tried(),
    {
        proof {
            use_type_invariant(&self);
        }
        let mut tried = self.tried;
        pool.put_back(&mut tried);
    }
}

/// A search by name loses no computer: when the computers pulled before the
/// one found have completed their handshake and do not have the name, they
/// are exactly what the search keeps, and so what goes back to the pool.
pub proof fn lemma_search_keeps_every_other<H>(pulled: Seq<Computer<H>>, name: Seq<char>)
    requires
        identified(pulled),
        forall|i: int| 0 <= i < pulled.len() ==> !named(#[trigger] pulled[i], name),
    ensures
        kept_all(Seq::empty(), pulled, name) == pulled,
{
    lemma_kept_all_appends(Seq::empty(), pulled, name);
    assert(Seq::<Computer<H>>::empty() + pulled =~= pulled);
}

proof fn lemma_kept_all_appends<H>(tried: Seq<Computer<H>>, pulled: Seq<Computer<H>>, name: Seq<char>)
    requires
        identified(pulled),
        forall|i: int| 0 <= i < pulled.len() ==> !named(#[trigger] pulled[i], name),
    ensures
        kept_all(tried, pulled, name) == tried + pulled,
    decreases pulled.len(),
{
    if pulled.len() == 0 {
        assert(tried + pulled =~= tried);
    } else {
        let rest = pulled.drop_first();
        assert(pulled[0].info() is Some);
        assert(!named(pulled[0], name));
        assert forall|i: int| 0 <= i < rest.len() implies !named(#[trigger] rest[i], name) by {
            assert(rest[i] == pulled[i + 1]);
        }
        assert forall|i: int| 0 <= i < rest.len() implies (#[trigger] rest[i]).info() is Some by {
            assert(rest[i] == pulled[i + 1]);
        }
        lemma_kept_all_appends(tried.push(pulled[0]), rest, name);
        assert(tried.push(pulled[0]) + rest =~= tried + pulled);
    }
}

} // verus!
