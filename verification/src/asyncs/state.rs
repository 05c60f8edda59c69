//! The three-state wrapper around a suspended computation.

use vstd::prelude::*;

verus! {

/// A slot whose value can be lent out and given back, the ownership
/// rendering of a runtime-checked shared cell: while the value is out,
/// every further access sees "unavailable" instead of panicking.
pub struct Lend<T> {
    pub value: Option<T>,
}

impl<T> Lend<T> {
    /// A slot holding `v`.
    pub fn full(v: T) -> (r: Self)
        ensures
            r.value == Some(v),
    {
        Lend { value: Some(v) }
    }
}

/// A value that may still be loading: `Unloaded`, `Loading` (with an
/// optional stale cached value to show meanwhile), or `Loaded`.
/// `F` is the host's handle for the suspended computation that will
/// produce the value; this module never looks inside it.
///
/// The only forward transition is `Loading` to `Loaded`, driven by the
/// poll step in [`Self::process`]; `to_loading`, `to_done` and
/// `to_unloaded` replace the whole state.
pub enum AsyncState<T, F> {
    Unloaded,
    Loading(Option<Lend<T>>, F),
    Loaded(Lend<T>),
}

impl<T, F> AsyncState<T, F> {
    /// A fresh loading state with no cached value.
    pub fn new_loading(fut: F) -> (r: Self)
        ensures
            r == AsyncState::<T, F>::Loading(None, fut),
    {
        AsyncState::Loading(None, fut)
    }

    /// A fresh loading state showing `cache` while the computation
    /// runs.
    pub fn new_loading_with_cache(cache: T, fut: F) -> (r: Self)
        ensures
            r == AsyncState::<T, F>::Loading(Some(Lend { value: Some(cache) }), fut),
    {
        AsyncState::Loading(Some(Lend { value: Some(cache) }), fut)
    }

    /// A state already holding its value.
    pub fn new_done(value: T) -> (r: Self)
        ensures
            r == AsyncState::<T, F>::Loaded(Lend { value: Some(value) }),
    {
        AsyncState::Loaded(Lend { value: Some(value) })
    }

    /// The empty state.
    pub fn new_unloaded() -> (r: Self)
        ensures
            r == AsyncState::<T, F>::Unloaded,
    {
        AsyncState::Unloaded
    }

    /// Replaces the state with a loading one; a previously loaded
    /// value is kept as the cache, anything else is dropped.
    pub fn to_loading(&mut self, fut: F)
        ensures
            *final(self) == (match *old(self) {
                AsyncState::Loaded(x) => AsyncState::Loading(Some(x), fut),
                _ => AsyncState::Loading(None, fut),
            }),
            *final(self) is Loading,
    {
        let mut current = AsyncState::Unloaded;
        core::mem::swap(&mut current, self);
        let cache = match current {
            AsyncState::Loaded(x) => Some(x),
            _ => None,
        };
        *self = AsyncState::Loading(cache, fut);
    }

    /// Replaces the state with a loaded one.
    pub fn to_done(&mut self, value: T)
        ensures
            *final(self) == AsyncState::<T, F>::Loaded(Lend { value: Some(value) }),
    {
        *self = AsyncState::Loaded(Lend { value: Some(value) });
    }

    /// Replaces the state with the empty one, dropping any pending
    /// computation.
    pub fn to_unloaded(&mut self)
        ensures
            *final(self) == AsyncState::<T, F>::Unloaded,
    {
        *self = AsyncState::Unloaded;
    }

    pub fn is_loading(&self) -> (r: bool)
        ensures
            r == (self is Loading),
    {
        match self {
            AsyncState::Loading(_, _) => true,
            _ => false,
        }
    }

    pub fn is_loaded(&self) -> (r: bool)
        ensures
            r == (self is Loaded),
    {
        match self {
            AsyncState::Loaded(_) => true,
            _ => false,
        }
    }

    pub fn is_unloaded(&self) -> (r: bool)
        ensures
            r == (self is Unloaded),
    {
        match self {
            AsyncState::Unloaded => true,
            _ => false,
        }
    }

    /// The loaded value, if present and not currently lent out; never
    /// panics on a lent value, it reports none instead.
    pub fn get_value(&self) -> (r: Option<&T>)
        ensures
            match r {
                Some(v) => *self == AsyncState::<T, F>::Loaded(Lend { value: Some(*v) }),
                None => !(*self is Loaded) || (*self)->Loaded_0.value is None,
            },
    {
        match self {
            AsyncState::Loaded(l) => l.value.as_ref(),
            _ => None,
        }
    }

    /// The loaded value, or the stale cache while loading; the flag
    /// reports which one it is. A lent-out slot reports none.
    pub fn get_value_or_cache(&self) -> (r: Option<(bool, &T)>)
        ensures
            match r {
                Some(p) => if p.0 {
                    *self is Loaded && (*self)->Loaded_0.value == Some(*p.1)
                } else {
                    *self is Loading && (*self)->Loading_0 == Some(Lend { value: Some(*p.1) })
                },
                None => match *self {
                    AsyncState::Loaded(l) => l.value is None,
                    AsyncState::Loading(c, _) => c is None || c.unwrap().value is None,
                    AsyncState::Unloaded => true,
                },
            },
    {
        match self {
            AsyncState::Loaded(l) => match l.value.as_ref() {
                Some(v) => Some((true, v)),
                None => None,
            },
            AsyncState::Loading(Some(l), _) => match l.value.as_ref() {
                Some(v) => Some((false, v)),
                None => None,
            },
            _ => None,
        }
    }

    /// Lends the loaded value out, taking ownership; further accesses
    /// report "unavailable" until [`Self::put_value`] gives it back.
    /// Reports none when nothing is loaded or the value is already
    /// lent.
    pub fn take_value(&mut self) -> (r: Option<T>)
        ensures
            match r {
                Some(v) => {
                    &&& *old(self) == AsyncState::<T, F>::Loaded(Lend { value: Some(v) })
                    &&& *final(self) == AsyncState::<T, F>::Loaded(Lend { value: None })
                },
                None => {
                    &&& *final(self) == *old(self)
                    &&& !(*old(self) is Loaded) || (*old(self))->Loaded_0.value is None
                },
            },
    {
        match self {
            AsyncState::Loaded(l) => l.value.take(),
            _ => None,
        }
    }

    /// Gives a lent-out loaded value back.
    pub fn put_value(&mut self, v: T)
        requires
            *old(self) == AsyncState::<T, F>::Loaded(Lend { value: None }),
        ensures
            *final(self) == AsyncState::<T, F>::Loaded(Lend { value: Some(v) }),
    {
        *self = AsyncState::Loaded(Lend { value: Some(v) });
    }

    /// One non-blocking poll step, the only forward transition. The
    /// host's `poll` inspects the suspended computation once and hands
    /// it back, with the produced value if it completed this step.
    /// Anything not loading is left untouched.
    pub fn process<P: Fn(F) -> (F, Option<T>)>(&mut self, poll: &P)
        requires
            forall|f: F| #[trigger] call_requires(*poll, (f,)),
        ensures
            poll_step_rel(*poll, *old(self), *final(self)),
    {
        let mut current = AsyncState::Unloaded;
        core::mem::swap(&mut current, self);
        match current {
            AsyncState::Loading(cache, fut) => {
                let (fut2, done) = poll(fut);
                match done {
                    Some(v) => {
                        *self = AsyncState::Loaded(Lend { value: Some(v) });
                    },
                    None => {
                        *self = AsyncState::Loading(cache, fut2);
                    },
                }
            },
            other => {
                *self = other;
            },
        }
    }
}

/// Once the computation resolves, one poll step loads the state: if
/// every outcome the poll function can report carries the value `v`,
/// a single step of a loading state ends loaded, holding `v` — and
/// [`AsyncState::get_value`] then hands `v` out.
pub proof fn lemma_poll_step_loads<T, F, P: Fn(F) -> (F, Option<T>)>(
    poll: P,
    s: AsyncState<T, F>,
    s2: AsyncState<T, F>,
    v: T,
)
    requires
        poll_step_rel(poll, s, s2),
        s is Loading,
        forall|f: F, r: (F, Option<T>)| #[trigger] call_ensures(poll, (f,), r) ==> r.1 == Some(v),
    ensures
        s2 == AsyncState::<T, F>::Loaded(Lend { value: Some(v) }),
{
}

/// How one poll step may change an [`AsyncState`]: a state that is not
/// loading is untouched; a loading one keeps its cache and task unless
/// the poll produced the value, which loads it.
pub open spec fn poll_step_rel<T, F, P: Fn(F) -> (F, Option<T>)>(
    poll: P,
    s: AsyncState<T, F>,
    s2: AsyncState<T, F>,
) -> bool {
    match s {
        AsyncState::Loading(cache, fut) => exists|fut2: F, done: Option<T>|
            #[trigger] call_ensures(poll, (fut,), (fut2, done)) && match done {
                Some(v) => s2 == AsyncState::<T, F>::Loaded(Lend { value: Some(v) }),
                None => s2 == AsyncState::<T, F>::Loading(cache, fut2),
            },
        _ => s2 == s,
    }
}

} // verus!
