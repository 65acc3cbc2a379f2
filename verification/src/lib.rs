//! Request dispatch for an embedded UI surface: string-keyed handlers behind a
//! middleware chain, a lazily filled resource container, and reports that reach
//! the database through one ordered mailbox.

use std::marker::PhantomData;
use vstd::prelude::*;

pub mod adapters;
pub mod context;
pub mod json;
pub mod middleware;
pub mod reports;
pub mod table;
pub mod webview;

verus! {

/// A handler: it takes one decoded message and gives one answer.
pub trait Api {
    type Input;

    type Output;

    /// What must hold of the handler before it may be asked anything.
    open spec fn ready(&self) -> bool {
        true
    }

    /// `out` is an answer that this handler may give to `msg`.
    open spec fn answers(&self, msg: Self::Input, out: Self::Output) -> bool {
        true
    }

    fn handle(&self, msg: Self::Input) -> (out: Self::Output)
        requires
            self.ready(),
        ensures
            self.answers(msg, out),
    ;
}

/// Something under assembly that can be closed into its final form.
pub trait Application {
    type Result;

    fn finish(self) -> Self::Result;
}

/// Something under assembly that takes in one more part of kind `T`.
pub trait Load<T> {
    type Result;

    fn load(self, api: T) -> Self::Result;
}

/// A handler made of a plain function or closure.
pub struct FuncApi<F, T, O>(F, PhantomData<T>, PhantomData<O>);

impl<F, T, O> FuncApi<F, T, O> {
    /// The function that answers.
    pub closed spec fn func(&self) -> F {
        self.0
    }
}

impl<T, O, F> Api for FuncApi<F, T, O> where F: Fn(T) -> O {
    type Input = T;

    type Output = O;

    open spec fn ready(&self) -> bool {
        forall|msg: T| call_requires(self.func(), (msg,))
    }

    open spec fn answers(&self, msg: T, out: O) -> bool {
        call_ensures(self.func(), (msg,), out)
    }

    fn handle(&self, msg: T) -> (out: O) {
        (self.0)(msg)
    }
}

/// Makes a handler of `f`: it can be asked whatever `f` can be called with, and
/// answers what `f` returns.
pub fn api<F, T, O>(f: F) -> (handler: FuncApi<impl Fn(T) -> O, T, O>) where F: Fn(T) -> O
    ensures
        handler.ready() == (forall|msg: T| call_requires(f, (msg,))),
        forall|msg: T, out: O| #[trigger] handler.answers(msg, out) == call_ensures(f, (msg,), out),
{
    FuncApi(f, PhantomData, PhantomData)
}

} // verus!
