//! A counting limiter: at most `capacity` permits are out at any time, and
//! once closed it grants no more.
use vstd::prelude::*;

verus! {

/// One unit of capacity, held by whoever may proceed. It is handed back
/// with [`Admission::release`].
#[derive(Debug)]
pub struct Permit {
    unit: (),
}

/// Why no permit was granted.
#[derive(Debug, Clone, Copy, PartialEq, Eq, Structural)]
pub enum AcquireError {
    /// The limiter is closed for good.
    Closed,
    /// Every permit is out; try again after one is released.
    Exhausted,
}

/// Counting state of a limiter.
pub struct Admission {
    capacity: u32,
    held: u32,
    closed: bool,
}

impl Admission {
    /// The number of permits that may be out at once.
    pub closed spec fn spec_capacity(self) -> u32 {
        self.capacity
    }

    /// The number of permits out now.
    pub closed spec fn spec_held(self) -> u32 {
        self.held
    }

    /// Whether the limiter has been closed.
    pub closed spec fn spec_closed(self) -> bool {
        self.closed
    }

    /// No more permits are out than the capacity.
    pub open spec fn wf(self) -> bool {
        self.spec_held() <= self.spec_capacity()
    }

    /// An open limiter with `capacity` permits, none of them out.
    pub fn new(capacity: u32) -> (r: Self)
        ensures
            r.wf(),
            r.spec_capacity() == capacity,
            r.spec_held() == 0,
            !r.spec_closed(),
    {
        Admission { capacity, held: 0, closed: false }
    }

    /// The number of permits that may be out at once.
    pub fn capacity(&self) -> (r: u32)
        ensures
            r == self.spec_capacity(),
    {
        self.capacity
    }

    /// The number of permits out now.
    pub fn held(&self) -> (r: u32)
        ensures
            r == self.spec_held(),
    {
        self.held
    }

    /// The number of permits that could be granted now, closing aside.
    pub fn available(&self) -> (r: u32)
        requires
            self.wf(),
        ensures
            r == self.spec_capacity() - self.spec_held(),
    {
        self.capacity - self.held
    }

    /// Whether the limiter has been closed.
    pub fn is_closed(&self) -> (r: bool)
        ensures
            r == self.spec_closed(),
    {
        self.closed
    }

    /// Grants a permit if the limiter is open and one is free.
    pub fn try_acquire(&mut self) -> (r: Result<Permit, AcquireError>)
        requires
            old(self).wf(),
        ensures
            final(self).wf(),
            final(self).spec_capacity() == old(self).spec_capacity(),
            final(self).spec_closed() == old(self).spec_closed(),
            final(self).spec_held() <= final(self).spec_capacity(),
            old(self).spec_closed() ==> r == Err::<Permit, AcquireError>(AcquireError::Closed)
                && final(self).spec_held() == old(self).spec_held(),
            !old(self).spec_closed() && old(self).spec_held() == old(self).spec_capacity() ==> r
                == Err::<Permit, AcquireError>(AcquireError::Exhausted) && final(self).spec_held()
                == old(self).spec_held(),
            !old(self).spec_closed() && old(self).spec_held() < old(self).spec_capacity() ==> r
                is Ok && final(self).spec_held() == old(self).spec_held() + 1,
    {
        if self.closed {
            Err(AcquireError::Closed)
        } else if self.held == self.capacity {
            Err(AcquireError::Exhausted)
        } else {
            self.held = self.held + 1;
            Ok(Permit { unit: () })
        }
    }

    /// Takes back a permit that this limiter granted.
    pub fn release(&mut self, permit: Permit)
        requires
            old(self).wf(),
            old(self).spec_held() > 0,
        ensures
            final(self).wf(),
            final(self).spec_capacity() == old(self).spec_capacity(),
            final(self).spec_closed() == old(self).spec_closed(),
            final(self).spec_held() == old(self).spec_held() - 1,
    {
        let Permit { unit } = permit;
        self.held = self.held - 1;
    }

    /// Closes the limiter: from now on every request fails with `Closed`.
    /// Permits already out stay valid until released.
    pub fn close(&mut self)
        requires
            old(self).wf(),
        ensures
            final(self).wf(),
            final(self).spec_closed(),
            final(self).spec_capacity() == old(self).spec_capacity(),
            final(self).spec_held() == old(self).spec_held(),
    {
        self.closed = true;
    }
}

} // verus!
