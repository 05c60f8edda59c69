//! Builders that adapt a component to a differently shaped state.

use vstd::prelude::*;

use core::marker::PhantomData;

use crate::component::Component;
use crate::logic::selector::Selector;

verus! {

/// Entry point for building a component whose state shape differs from
/// the ambient one: name the component and its state, then chain
/// `map_in` with one of [`MapInto`]'s completions.
pub struct Comp<State, T> {
    pub _state: PhantomData<State>,
    pub _t: PhantomData<T>,
}

impl<State, T: Component<State>> Comp<State, T> {
    /// Builds the component as is, without any mapping.
    pub fn build(a: T::Input) -> (r: T)
        ensures
            r == T::made(a),
            T::input_inv(a) ==> r.inv(),
    {
        T::instantiate(a)
    }

    /// Starts a lens: `func` projects the ambient state into the shape
    /// the component needs.
    pub fn map_in<StateIn, Func: Fn(&StateIn) -> State>(func: Func) -> (r: MapInto<
        T,
        StateIn,
        State,
        Func,
    >)
        ensures
            r.func == func,
    {
        MapInto { _component: PhantomData, _state_in: PhantomData, _state_out: PhantomData, func }
    }
}

/// A lens under construction: holds the projection and waits for the
/// merge function and the child. Completed by `map_out` (child from
/// default input), `map_out_for` (existing child) or `map_out_with`
/// (child from explicit input).
pub struct MapInto<T, StateIn, StateOut, MapIn> {
    pub _component: PhantomData<T>,
    pub _state_in: PhantomData<StateIn>,
    pub _state_out: PhantomData<StateOut>,
    pub func: MapIn,
}

impl<
    T: Component<StateOut>,
    StateIn,
    StateOut,
    MapIn: Fn(&StateIn) -> StateOut,
> MapInto<T, StateIn, StateOut, MapIn> {
    /// Completes the lens, constructing the child from `input`.
    pub fn map_out_with<FuncOut: Fn(StateOut, &StateIn) -> StateIn>(
        self,
        input: T::Input,
        func: FuncOut,
    ) -> (r: Selector<StateIn, StateOut, MapIn, FuncOut, T>)
        ensures
            r.map_in == self.func,
            r.map_out == func,
            r.child == T::made(input),
            T::input_inv(input) ==> r.inv(),
    {
        Selector::new(self.func, func, T::instantiate(input))
    }

    /// Completes the lens around an already existing child.
    pub fn map_out_for<FuncOut: Fn(StateOut, &StateIn) -> StateIn>(
        self,
        func: FuncOut,
        child: T,
    ) -> (r: Selector<StateIn, StateOut, MapIn, FuncOut, T>)
        ensures
            r.map_in == self.func,
            r.map_out == func,
            r.child == child,
            child.inv() ==> r.inv(),
    {
        Selector::new(self.func, func, child)
    }

    /// Completes the lens, constructing the child from its default
    /// input.
    pub fn map_out<FuncOut: Fn(StateOut, &StateIn) -> StateIn>(self, func: FuncOut) -> (r: Selector<
        StateIn,
        StateOut,
        MapIn,
        FuncOut,
        T,
    >)
        where
            T::Input: Default,
        ensures
            r.map_in == self.func,
            r.map_out == func,
            exists|i: T::Input|
                {
                    &&& #[trigger] call_ensures(<T::Input as Default>::default, (), i)
                    &&& r.child == T::made(i)
                    &&& T::input_inv(i) ==> r.inv()
                },
    {
        let input: T::Input = Default::default();
        Selector::new(self.func, func, T::instantiate(input))
    }
}

} // verus!
