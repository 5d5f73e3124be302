use vstd::prelude::*;

verus! {

/// A relocation that the guard detected, named after the operation that saw it.
#[derive(Clone, Copy, Debug, PartialEq, Eq, Structural)]
pub enum Moved {
    /// A pinned access found the guard at another address than the first one.
    BetweenGetPinMutCalls,
    /// An unpinned mutable access came after the guard had been pinned elsewhere.
    AfterGetPinMutCall,
    /// The guard is being dropped away from the address at which it was pinned.
    BeforeDrop,
}

/// The text that reports each kind of relocation.
pub open spec fn moved_message(m: Moved) -> Seq<char> {
    match m {
        Moved::BetweenGetPinMutCalls => "AssertUnmoved moved between get_pin_mut calls"@,
        Moved::AfterGetPinMutCall => "AssertUnmoved moved after get_pin_mut call"@,
        Moved::BeforeDrop => "AssertUnmoved moved before drop"@,
    }
}

impl Moved {
    /// The message that reports this relocation.
    pub fn message(&self) -> (r: &'static str)
        ensures
            r@ == moved_message(*self),
    {
        match self {
            Moved::BetweenGetPinMutCalls => "AssertUnmoved moved between get_pin_mut calls",
            Moved::AfterGetPinMutCall => "AssertUnmoved moved after get_pin_mut call",
            Moved::BeforeDrop => "AssertUnmoved moved before drop",
        }
    }
}

/// A pinned access at address `now`, for a guard pinned at `pinned` (or not yet
/// pinned): the address the guard is pinned at afterwards, or the relocation.
pub open spec fn pinned_access(pinned: Option<usize>, now: usize) -> Result<usize, Moved> {
    match pinned {
        None => Ok(now),
        Some(at) => if at == now {
            Ok(at)
        } else {
            Err(Moved::BetweenGetPinMutCalls)
        },
    }
}

/// An unpinned mutable access at address `now`: allowed unless the guard was
/// pinned at another address.
pub open spec fn unpinned_access(pinned: Option<usize>, now: usize) -> Result<(), Moved> {
    match pinned {
        Some(at) if at != now => Err(Moved::AfterGetPinMutCall),
        _ => Ok(()),
    }
}

/// The check made when the guard is dropped at address `now`. It is skipped while
/// the thread is already panicking, since a second panic would abort the process.
pub open spec fn drop_check(pinned: Option<usize>, now: usize, panicking: bool) -> Result<(), Moved> {
    if panicking {
        Ok(())
    } else {
        match pinned {
            Some(at) if at != now => Err(Moved::BeforeDrop),
            _ => Ok(()),
        }
    }
}

/// Wraps a value and reports when the wrapper is moved after it was pinned and
/// mutably accessed.
///
/// The first pinned access records the guard's own address; every later pinned
/// access, unpinned mutable access and the drop check compare the address at which
/// they find the guard against the recorded one.
///
/// The guard itself never panics: each check returns the `Moved` it found, and
/// `check_drop` is the check for the owner's destructor to make.
#[derive(Debug)]
pub struct AssertUnmoved<T> {
    inner: T,
    this_addr: Option<usize>,
}

impl<T> AssertUnmoved<T> {
    /// The wrapped value.
    pub closed spec fn value(&self) -> T {
        self.inner
    }

    /// The address recorded by the first pinned access, if there was one.
    pub closed spec fn pinned_at(&self) -> Option<usize> {
        self.this_addr
    }

    /// Creates a guard around `inner`, not yet pinned.
    pub fn new(inner: T) -> (r: Self)
        ensures
            r.value() == inner,
            r.pinned_at() is None,
    {
        AssertUnmoved { inner, this_addr: None }
    }

    /// A reference to the wrapped value; always allowed.
    pub fn get_ref(&self) -> (r: &T)
        ensures
            *r == self.value(),
    {
        &self.inner
    }

    /// Relies on the pointer method `addr`: the numeric address at which `self`
    /// lies now. Nothing is known of it beyond that, so two calls may differ.
    #[verifier::external_body]
    fn addr(&self) -> usize {
        std::ptr::from_ref(self).addr()
    }

    /// An unpinned mutable access, made while the guard lies at address `now`.
    pub fn get_mut_at(&mut self, now: usize) -> (r: Result<&mut T, Moved>)
        ensures
            r is Ok <==> unpinned_access(old(self).pinned_at(), now) is Ok,
            match r {
                Ok(v) => *v == old(self).value() && final(self).value() == *final(v)
                    && final(self).pinned_at() == old(self).pinned_at(),
                Err(m) => unpinned_access(old(self).pinned_at(), now) == Err::<(), Moved>(m)
                    && *final(self) == *old(self),
            },
    {
        if let Some(at) = self.this_addr {
            if at != now {
                return Err(Moved::AfterGetPinMutCall);
            }
        }
        Ok(&mut self.inner)
    }

    /// A mutable reference to the wrapped value, for use before the guard is pinned.
    ///
    /// Once the guard has been pinned, this fails with `Moved::AfterGetPinMutCall`
    /// if the guard now lies elsewhere.
    pub fn get_mut(&mut self) -> (r: Result<&mut T, Moved>)
        ensures
            old(self).pinned_at() is None ==> r is Ok,
            match r {
                Ok(v) => *v == old(self).value() && final(self).value() == *final(v)
                    && final(self).pinned_at() == old(self).pinned_at(),
                Err(m) => m == Moved::AfterGetPinMutCall && old(self).pinned_at() is Some
                    && *final(self) == *old(self),
            },
    {
        let now = self.addr();
        self.get_mut_at(now)
    }

    /// A pinned access, made while the guard lies at address `now`: the first one
    /// records `now`, each later one checks it.
    pub fn get_pin_mut_at(&mut self, now: usize) -> (r: Result<&mut T, Moved>)
        ensures
            r is Ok <==> pinned_access(old(self).pinned_at(), now) is Ok,
            match r {
                Ok(v) => *v == old(self).value() && final(self).value() == *final(v)
                    && final(self).pinned_at() == Some(
                    pinned_access(old(self).pinned_at(), now)->Ok_0,
                ),
                Err(m) => pinned_access(old(self).pinned_at(), now) == Err::<usize, Moved>(m)
                    && *final(self) == *old(self),
            },
    {
        match self.this_addr {
            None => {
                self.this_addr = Some(now);
            },
            Some(at) => {
                if at != now {
                    return Err(Moved::BetweenGetPinMutCalls);
                }
            },
        }
        Ok(&mut self.inner)
    }

    /// A mutable reference to the wrapped value for a caller that keeps the guard
    /// at its present address from now on, as a pinned reference promises.
    ///
    /// The first call records where the guard lies and always succeeds; each later
    /// call fails with `Moved::BetweenGetPinMutCalls` if the guard lies elsewhere.
    pub fn get_pin_mut(&mut self) -> (r: Result<&mut T, Moved>)
        ensures
            old(self).pinned_at() is None ==> r is Ok,
            match r {
                Ok(v) => *v == old(self).value() && final(self).value() == *final(v)
                    && final(self).pinned_at() is Some
                    && (old(self).pinned_at() is Some ==> final(self).pinned_at()
                    == old(self).pinned_at()),
                Err(m) => m == Moved::BetweenGetPinMutCalls && old(self).pinned_at() is Some
                    && *final(self) == *old(self),
            },
    {
        let now = self.addr();
        self.get_pin_mut_at(now)
    }

    /// The check to make when the guard is dropped at address `now`.
    pub fn check_drop_at(&self, now: usize, panicking: bool) -> (r: Result<(), Moved>)
        ensures
            r == drop_check(self.pinned_at(), now, panicking),
    {
        if !panicking {
            if let Some(at) = self.this_addr {
                if at != now {
                    return Err(Moved::BeforeDrop);
                }
            }
        }
        Ok(())
    }

    /// The check to make when the guard is dropped where it lies now; `panicking`
    /// tells whether the thread is already unwinding from a panic.
    pub fn check_drop(&self, panicking: bool) -> (r: Result<(), Moved>)
        ensures
            panicking || self.pinned_at() is None ==> r is Ok,
            r is Err ==> r == Err::<(), Moved>(Moved::BeforeDrop),
    {
        let now = self.addr();
        self.check_drop_at(now, panicking)
    }
}

impl<T> core::ops::Deref for AssertUnmoved<T> {
    type Target = T;

    fn deref(&self) -> (r: &T)
        ensures
            *r == self.value(),
    {
        self.get_ref()
    }
}

impl<T> From<T> for AssertUnmoved<T> {
    /// The same as `AssertUnmoved::new`.
    fn from(inner: T) -> (r: Self)
        ensures
            r.value() == inner,
            r.pinned_at() is None,
    {
        Self::new(inner)
    }
}

impl<T> vstd::std_specs::convert::FromSpecImpl<T> for AssertUnmoved<T> {
    open spec fn obeys_from_spec() -> bool {
        true
    }

    closed spec fn from_spec(inner: T) -> Self {
        AssertUnmoved { inner, this_addr: None }
    }
}

impl<T: Default> Default for AssertUnmoved<T> {
    /// A guard around `T`'s default value, not yet pinned.
    fn default() -> (r: Self)
        ensures
            call_ensures(T::default, (), r.value()),
            r.pinned_at() is None,
    {
        Self::new(T::default())
    }
}

} // verus!
