//! Idle outbound connections kept for reuse, handed out most recent first.
use vstd::prelude::*;

verus! {

/// A stack of idle connections. A connection is in the pool only while no
/// attempt is using it.
pub struct ConnectionPool<C> {
    idle: Vec<C>,
}

impl<C> View for ConnectionPool<C> {
    type V = Seq<C>;

    /// The idle connections, oldest first.
    closed spec fn view(&self) -> Seq<C> {
        self.idle@
    }
}

impl<C> ConnectionPool<C> {
    /// An empty pool.
    pub fn new() -> (r: Self)
        ensures
            r@ == Seq::<C>::empty(),
    {
        ConnectionPool { idle: Vec::new() }
    }

    /// Number of idle connections.
    pub fn len(&self) -> (r: usize)
        ensures
            r == self@.len(),
    {
        self.idle.len()
    }

    /// Hands back a connection after a successful write.
    pub fn put(&mut self, conn: C)
        ensures
            final(self)@ == old(self)@.push(conn),
    {
        self.idle.push(conn);
    }

    /// Takes the most recently returned connection, if there is one.
    pub fn try_take(&mut self) -> (r: Option<C>)
        ensures
            old(self)@.len() == 0 ==> r is None && final(self)@ == old(self)@,
            old(self)@.len() > 0 ==> r == Some(old(self)@.last()) && final(self)@ == old(
                self,
            )@.drop_last(),
    {
        self.idle.pop()
    }
}

/// A connection put back and taken at once comes out as itself, and the
/// pool is left as it was before.
pub proof fn lemma_put_then_take<C>(idle: Seq<C>, conn: C)
    ensures
        idle.push(conn).len() > 0,
        idle.push(conn).last() == conn,
        idle.push(conn).drop_last() == idle,
{
    assert(idle.push(conn).drop_last() =~= idle);
}

} // verus!
