//! Adapters that build a handler out of another one.

use crate::Api;
use vstd::prelude::*;

verus! {

/// A handler followed by a function on its answer.
pub struct AndThen<A, F> {
    f: F,
    api: A,
}

impl<A, F> AndThen<A, F> {
    /// The handler that is asked first.
    pub closed spec fn first(&self) -> A {
        self.api
    }

    /// The function that the first handler's answer is given to.
    pub closed spec fn map(&self) -> F {
        self.f
    }
}

impl<A, F, U> Api for AndThen<A, F> where A: Api, F: Fn(A::Output) -> U {
    type Input = A::Input;

    type Output = U;

    open spec fn ready(&self) -> bool {
        chain_ready(self.first(), self.map())
    }

    open spec fn answers(&self, msg: A::Input, out: U) -> bool {
        chain_answers(self.first(), self.map(), msg, out)
    }

    fn handle(&self, msg: A::Input) -> (out: U) {
        let mid = self.api.handle(msg);
        assert(call_requires(self.map(), (mid,)));
        let out = (self.f)(mid);
        assert(self.first().answers(msg, mid) && call_ensures(self.map(), (mid,), out));
        out
    }
}

/// `api` can be asked, and `f` can be called with whatever it answers.
pub open spec fn chain_ready<A: Api, F: Fn(A::Output) -> U, U>(api: A, f: F) -> bool {
    &&& api.ready()
    &&& forall|mid: A::Output| call_requires(f, (mid,))
}

/// `out` is what `f` may return for an answer of `api` to `msg`.
pub open spec fn chain_answers<A: Api, F: Fn(A::Output) -> U, U>(
    api: A,
    f: F,
    msg: A::Input,
    out: U,
) -> bool {
    exists|mid: A::Output| #[trigger] api.answers(msg, mid) && call_ensures(f, (mid,), out)
}

/// Gives every handler the adapters of this module.
pub trait ApiAdapters: Api + Sized {
    /// This handler, with `f` applied to each of its answers.
    fn and_then<U, F: Fn(Self::Output) -> U>(self, f: F) -> (chained: AndThen<Self, F>)
        ensures
            chained.first() == self,
            chained.map() == f,
            chained.ready() == chain_ready(self, f),
            forall|msg: Self::Input, out: U| #[trigger]
                chained.answers(msg, out) == chain_answers(self, f, msg, out),
    {
        AndThen { api: self, f }
    }
}

impl<S> ApiAdapters for S where S: Api {
}

/// `api`, with `f` applied to each of its answers. It is what `and_then`
/// gives, for callers that hand in a function or closure and go on to reason
/// about what the chained handler answers.
pub fn chained<A, F, U>(api: A, f: F) -> (chained: AndThen<A, impl Fn(A::Output) -> U>) where
    A: Api,
    F: Fn(A::Output) -> U,

    ensures
        chained.first() == api,
        chained.ready() == chain_ready(api, f),
        forall|msg: A::Input, out: U| #[trigger]
            chained.answers(msg, out) == chain_answers(api, f, msg, out),
{
    AndThen { api, f }
}

} // verus!
