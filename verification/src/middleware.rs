//! Interceptors around a request: each one sees the message before what follows
//! it in the chain, and the response after.

use std::marker::PhantomData;
use vstd::prelude::*;

verus! {

/// Anything that can stand behind a middleware and answer a message.
pub trait Continue<M, R> {
    /// What must hold before it may be called.
    spec fn ready(&self) -> bool;

    /// `rsp` is a response that it may give to `msg`.
    spec fn yields(&self, msg: M, rsp: R) -> bool;

    fn proceed(&self, msg: M) -> (rsp: R)
        requires
            self.ready(),
        ensures
            self.yields(msg, rsp),
    ;
}

impl<M, R, C: Fn(M) -> R> Continue<M, R> for C {
    open spec fn ready(&self) -> bool {
        forall|msg: M| call_requires(*self, (msg,))
    }

    open spec fn yields(&self, msg: M, rsp: R) -> bool {
        call_ensures(*self, (msg,), rsp)
    }

    fn proceed(&self, msg: M) -> (rsp: R) {
        self(msg)
    }
}

/// The rest of the chain, as a middleware is handed it.
#[verifier::reject_recursive_types(M)]
#[verifier::reject_recursive_types(R)]
pub struct Next<'a, M, R> {
    rest: &'a dyn Continue<M, R>,
}

impl<'a, M, R> Next<'a, M, R> {
    /// What must hold before the rest of the chain may be called.
    pub closed spec fn ready(&self) -> bool {
        self.rest.ready()
    }

    /// `rsp` is a response that the rest of the chain may give to `msg`.
    pub closed spec fn yields(&self, msg: M, rsp: R) -> bool {
        self.rest.yields(msg, rsp)
    }

    /// The rest of the chain as a relation between messages and responses.
    pub open spec fn relation(&self) -> spec_fn(M, R) -> bool {
        |msg: M, rsp: R| self.yields(msg, rsp)
    }

    /// The chain that ends in `callback`.
    pub fn new<C: Fn(M) -> R>(callback: &'a C) -> (next: Self)
        ensures
            next.ready() == (forall|msg: M| call_requires(*callback, (msg,))),
            forall|msg: M, rsp: R| next.yields(msg, rsp) == call_ensures(*callback, (msg,), rsp),
    {
        Next { rest: callback }
    }

    /// Hands `msg` to the rest of the chain.
    pub fn call(&self, msg: M) -> (rsp: R)
        requires
            self.ready(),
        ensures
            self.yields(msg, rsp),
    {
        self.rest.proceed(msg)
    }
}

/// An interceptor: it is handed a message and the rest of the chain, and gives
/// the response. It may look at the message, change it, answer by itself, or
/// hand it on.
pub trait Middleware {
    type Message;

    type Response;

    /// What must hold of the middleware before it may be run.
    open spec fn ready(&self) -> bool {
        true
    }

    /// `rsp` is a response that this middleware may give to `data` when the rest
    /// of the chain gives to a message only responses that `next` relates to it.
    open spec fn handles(
        &self,
        data: Self::Message,
        next: spec_fn(Self::Message, Self::Response) -> bool,
        rsp: Self::Response,
    ) -> bool {
        true
    }

    fn manage(&self, data: Self::Message, callback: &Next<Self::Message, Self::Response>) -> (rsp:
        Self::Response)
        requires
            self.ready(),
            callback.ready(),
        ensures
            self.handles(data, callback.relation(), rsp),
    ;
}

/// `rsp` is a response that `mid` may give to `data` when the rest of the chain
/// gives to a message only responses that `next` relates to it, or fewer.
pub open spec fn admits<Mid: Middleware>(
    mid: Mid,
    data: Mid::Message,
    next: spec_fn(Mid::Message, Mid::Response) -> bool,
    rsp: Mid::Response,
) -> bool {
    exists|tighter: spec_fn(Mid::Message, Mid::Response) -> bool|
        {
            &&& #[trigger] mid.handles(data, tighter, rsp)
            &&& within(tighter, next)
        }
}

/// Every answer that `tighter` allows, `next` allows too.
pub open spec fn within<M, R>(tighter: spec_fn(M, R) -> bool, next: spec_fn(M, R) -> bool) -> bool {
    forall|m: M, r: R| #[trigger] tighter(m, r) ==> next(m, r)
}

/// What a middleware says of its responses, it admits.
pub proof fn lemma_handles_admits<Mid: Middleware>(
    mid: Mid,
    data: Mid::Message,
    next: spec_fn(Mid::Message, Mid::Response) -> bool,
    rsp: Mid::Response,
)
    requires
        mid.handles(data, next, rsp),
    ensures
        admits(mid, data, next, rsp),
{
    assert(within(next, next));
}

/// A response that is admitted with one rest of the chain is admitted with
/// every rest that allows at least the same answers.
pub proof fn lemma_admits_monotone<Mid: Middleware>(
    mid: Mid,
    data: Mid::Message,
    rsp: Mid::Response,
    next: spec_fn(Mid::Message, Mid::Response) -> bool,
    wider: spec_fn(Mid::Message, Mid::Response) -> bool,
)
    requires
        admits(mid, data, next, rsp),
        within(next, wider),
    ensures
        admits(mid, data, wider, rsp),
{
    let tighter = choose|tighter: spec_fn(Mid::Message, Mid::Response) -> bool|
        {
            &&& #[trigger] mid.handles(data, tighter, rsp)
            &&& within(tighter, next)
        };
    assert(within(tighter, wider));
}

/// Something under assembly that takes in a middleware.
pub trait LoadMiddleware<Mid: Middleware> {
    type Result;

    fn load_middleware(self, middleware: Mid) -> Self::Result;
}

/// `f` can be called with every message and every rest of the chain that can
/// itself be called.
pub open spec fn adhoc_ready<F: Fn(M, &Next<M, R>) -> R, M, R>(f: F) -> bool {
    forall|data: M, rest: &Next<M, R>| rest.ready() ==> #[trigger] call_requires(f, (data, rest))
}

/// `rsp` is what `f` may return for `data` and a rest of the chain that gives
/// only answers that `next` allows.
pub open spec fn adhoc_handles<F: Fn(M, &Next<M, R>) -> R, M, R>(
    f: F,
    data: M,
    next: spec_fn(M, R) -> bool,
    rsp: R,
) -> bool {
    exists|rest: &Next<M, R>|
        {
            &&& #[trigger] call_ensures(f, (data, rest), rsp)
            &&& within(rest.relation(), next)
        }
}

/// A middleware made of a closure.
pub struct AdHocMid<F, M, R>(F, PhantomData<M>, PhantomData<R>);

impl<F, M, R> AdHocMid<F, M, R> {
    /// The closure that is run.
    pub closed spec fn func(&self) -> F {
        self.0
    }
}

impl<F, M, R> Middleware for AdHocMid<F, M, R> where F: Fn(M, &Next<M, R>) -> R {
    type Message = M;

    type Response = R;

    open spec fn ready(&self) -> bool {
        adhoc_ready(self.func())
    }

    open spec fn handles(&self, data: M, next: spec_fn(M, R) -> bool, rsp: R) -> bool {
        adhoc_handles(self.func(), data, next, rsp)
    }

    fn manage(&self, data: M, callback: &Next<M, R>) -> (rsp: R) {
        assert(call_requires(self.func(), (data, callback)));
        let rsp = (self.0)(data, callback);
        assert(call_ensures(self.func(), (data, callback), rsp) && within(
            callback.relation(),
            callback.relation(),
        ));
        rsp
    }
}

/// A closure that only ever gives what the rest of the chain gave it for the
/// message as it came makes a middleware that passes everything through.
pub proof fn lemma_adhoc_passes<F, M, R>(
    mid: AdHocMid<F, M, R>,
    data: M,
    next: spec_fn(M, R) -> bool,
    rsp: R,
) where F: Fn(M, &Next<M, R>) -> R
    requires
        mid.handles(data, next, rsp),
        forall|rest: &Next<M, R>| #[trigger]
            call_ensures(mid.func(), (data, rest), rsp) ==> rest.yields(data, rsp),
    ensures
        next(data, rsp),
{
    let rest = choose|rest: &Next<M, R>|
        {
            &&& #[trigger] call_ensures(mid.func(), (data, rest), rsp)
            &&& within(rest.relation(), next)
        };
    assert(rest.relation()(data, rsp));
}

/// A middleware that is run only for the messages whose key is one of a given
/// set; every other message goes straight to the rest of the chain.
pub struct AdHocFor<Key, Mid, F>(Mid, Vec<Key>, F);

impl<Key, Mid, F> AdHocFor<Key, Mid, F> {
    /// The middleware that is run for the chosen keys.
    pub closed spec fn wrapped(&self) -> Mid {
        self.0
    }

    /// The chosen keys.
    pub closed spec fn keys(&self) -> Seq<Key> {
        self.1@
    }

    /// The function that finds a message's key.
    pub closed spec fn lens(&self) -> F {
        self.2
    }
}

/// `==` may find `key` equal to one of `keys`.
pub open spec fn selects<Key: PartialEq>(keys: Seq<Key>, key: &Key) -> bool {
    exists|i: int| 0 <= i < keys.len() && #[trigger] call_ensures(Key::eq, (&keys[i], key), true)
}

/// `==` may find `key` different from each of `keys`.
pub open spec fn skips<Key: PartialEq>(keys: Seq<Key>, key: &Key) -> bool {
    forall|i: int| 0 <= i < keys.len() ==> #[trigger] call_ensures(Key::eq, (&keys[i], key), false)
}

/// `mid` can be run, and `lens` can be called with every message.
pub open spec fn limited_ready<Key, Mid: Middleware, F: Fn(&Mid::Message) -> &Key>(
    mid: Mid,
    lens: F,
) -> bool {
    &&& mid.ready()
    &&& forall|data: &Mid::Message| call_requires(lens, (data,))
}

/// `rsp` is a response to `data` of `mid` limited to `keys`: one that `mid`
/// admits where the key that `lens` finds is one of `keys`, and one that `next`
/// relates to `data` itself where it is none of them.
pub open spec fn limited_handles<Key: PartialEq, Mid: Middleware, F: Fn(&Mid::Message) -> &Key>(
    mid: Mid,
    keys: Seq<Key>,
    lens: F,
    data: Mid::Message,
    next: spec_fn(Mid::Message, Mid::Response) -> bool,
    rsp: Mid::Response,
) -> bool {
    exists|key: &Key|
        {
            &&& #[trigger] call_ensures(lens, (&data,), key)
            &&& {
                ||| selects(keys, key) && admits(mid, data, next, rsp)
                ||| skips(keys, key) && next(data, rsp)
            }
        }
}

impl<Key, Mid, F> Middleware for AdHocFor<Key, Mid, F> where
    Key: PartialEq,
    Mid: Middleware,
    F: Fn(&Mid::Message) -> &Key,
 {
    type Message = Mid::Message;

    type Response = Mid::Response;

    open spec fn ready(&self) -> bool {
        limited_ready(self.wrapped(), self.lens())
    }

    open spec fn handles(
        &self,
        data: Mid::Message,
        next: spec_fn(Mid::Message, Mid::Response) -> bool,
        rsp: Mid::Response,
    ) -> bool {
        limited_handles(self.wrapped(), self.keys(), self.lens(), data, next, rsp)
    }

    fn manage(&self, data: Mid::Message, callback: &Next<Mid::Message, Mid::Response>) -> (rsp:
        Mid::Response) {
        assert(call_requires(self.lens(), (&data,)));
        let key = (self.2)(&data);
        let ghost found_key = key;
        let mut found = false;
        let mut i: usize = 0;
        while i < self.1.len()
            invariant
                i <= self.1.len(),
                self.keys() == self.1@,
                found ==> selects(self.keys(), key),
                !found ==> forall|j: int|
                    0 <= j < i ==> #[trigger] call_ensures(Key::eq, (&self.keys()[j], key), false),
            decreases self.1.len() - i,
        {
            let same = self.1[i].eq(key);
            if same {
                found = true;
            }
            i += 1;
        }
        assert(found ==> selects(self.keys(), found_key));
        assert(!found ==> skips(self.keys(), found_key));
        let rsp = if found {
            let rsp = self.0.manage(data, callback);
            proof {
                lemma_handles_admits(self.wrapped(), data, callback.relation(), rsp);
            }
            rsp
        } else {
            callback.call(data)
        };
        assert(call_ensures(self.lens(), (&data,), found_key));
        rsp
    }
}

/// Gives every middleware the means to be limited to a set of keys.
pub trait InvokeFor<Keys>: Middleware + Sized where Keys: PartialEq {
    /// This middleware, run only for the messages in which `lense` finds one of
    /// `keys`.
    fn invoke_for<F: Fn(&Self::Message) -> &Keys>(self, keys: Vec<Keys>, lense: F) -> (limited:
        AdHocFor<Keys, Self, F>)
        ensures
            limited.wrapped() == self,
            limited.keys() == keys@,
            limited.lens() == lense,
            limited.ready() == limited_ready(self, lense),
            forall|
                data: Self::Message,
                next: spec_fn(Self::Message, Self::Response) -> bool,
                rsp: Self::Response,
            | #[trigger]
                limited.handles(data, next, rsp) == limited_handles(
                    self,
                    keys@,
                    lense,
                    data,
                    next,
                    rsp,
                ),
    {
        AdHocFor(self, keys, lense)
    }
}

impl<S, Keys> InvokeFor<Keys> for S where S: Middleware, Keys: PartialEq {
}

/// `mid`, run only for the messages in which `lense` finds one of `keys`. It
/// is what `invoke_for` gives, for callers that hand in a function or closure
/// and go on to reason about what the limited middleware does.
pub fn limited<Keys, Mid, F>(mid: Mid, keys: Vec<Keys>, lense: F) -> (limited: AdHocFor<
    Keys,
    Mid,
    impl Fn(&Mid::Message) -> &Keys,
>) where Keys: PartialEq, Mid: Middleware, F: Fn(&Mid::Message) -> &Keys
    ensures
        limited.wrapped() == mid,
        limited.keys() == keys@,
        limited.ready() == limited_ready(mid, lense),
        forall|
            data: Mid::Message,
            next: spec_fn(Mid::Message, Mid::Response) -> bool,
            rsp: Mid::Response,
        | #[trigger]
            limited.handles(data, next, rsp) == limited_handles(mid, keys@, lense, data, next, rsp),
{
    AdHocFor(mid, keys, lense)
}

/// Two middlewares in a row: the first stands around the second.
pub struct Compose<Mid, Mid1>(Mid, Mid1);

impl<Mid, Mid1> Compose<Mid, Mid1> {
    /// The middleware that sees the message first and the response last.
    pub closed spec fn outer(&self) -> Mid {
        self.0
    }

    /// The middleware that the outer one hands the message to.
    pub closed spec fn inner(&self) -> Mid1 {
        self.1
    }
}

/// What stands behind the first of two middlewares in a row: the second one,
/// followed by `next`.
pub open spec fn below<Mid: Middleware>(
    inner: Mid,
    next: spec_fn(Mid::Message, Mid::Response) -> bool,
) -> spec_fn(Mid::Message, Mid::Response) -> bool {
    |m: Mid::Message, r: Mid::Response| admits(inner, m, next, r)
}

/// `rsp` is a response to `data` of `outer` around `inner`: one that `outer`
/// admits with `inner`, followed by `next`, as the rest of the chain.
pub open spec fn composed_handles<Mid, Mid1>(
    outer: Mid,
    inner: Mid1,
    data: Mid::Message,
    next: spec_fn(Mid::Message, Mid::Response) -> bool,
    rsp: Mid::Response,
) -> bool where
    Mid: Middleware,
    Mid1: Middleware<Message = Mid::Message, Response = Mid::Response>,
 {
    admits(outer, data, below(inner, next), rsp)
}

impl<Mid, Mid1> Middleware for Compose<Mid, Mid1> where
    Mid: Middleware,
    Mid1: Middleware<Message = Mid::Message, Response = Mid::Response>,
 {
    type Message = Mid::Message;

    type Response = Mid::Response;

    open spec fn ready(&self) -> bool {
        self.outer().ready() && self.inner().ready()
    }

    open spec fn handles(
        &self,
        data: Mid::Message,
        next: spec_fn(Mid::Message, Mid::Response) -> bool,
        rsp: Mid::Response,
    ) -> bool {
        composed_handles(self.outer(), self.inner(), data, next, rsp)
    }

    fn manage(&self, data: Mid::Message, callback: &Next<Mid::Message, Mid::Response>) -> (rsp:
        Mid::Response) {
        let mid = &self.0;
        let mid1 = &self.1;
        let second = |ib: Mid::Message| -> (r: Mid::Response)
            requires
                mid1.ready(),
                callback.ready(),
            ensures
                mid1.handles(ib, callback.relation(), r),
            { mid1.manage(ib, callback) };
        let rest = Next::new(&second);
        let rsp = mid.manage(data, &rest);
        proof {
            assert forall|m: Mid::Message, r: Mid::Response| #[trigger]
                rest.relation()(m, r) implies below(self.inner(), callback.relation())(m, r) by {
                lemma_handles_admits(self.inner(), m, callback.relation(), r);
            }
            assert(self.outer().handles(data, rest.relation(), rsp) && within(
                rest.relation(),
                below(self.inner(), callback.relation()),
            ));
        }
        rsp
    }
}

/// Composition is associative: three middlewares in a row give the same
/// responses whether the first two or the last two are composed first.
pub proof fn lemma_compose_associative<A, B, C>(
    left: Compose<Compose<A, B>, C>,
    right: Compose<A, Compose<B, C>>,
    data: A::Message,
    next: spec_fn(A::Message, A::Response) -> bool,
    rsp: A::Response,
) where
    A: Middleware,
    B: Middleware<Message = A::Message, Response = A::Response>,
    C: Middleware<Message = A::Message, Response = A::Response>,

    requires
        left.outer().outer() == right.outer(),
        left.outer().inner() == right.inner().outer(),
        left.inner() == right.inner().inner(),
    ensures
        left.handles(data, next, rsp) <==> right.handles(data, next, rsp),
{
    let a = right.outer();
    let b = right.inner().outer();
    let c = left.inner();
    let last = below(c, next);
    if left.handles(data, next, rsp) {
        let t = choose|t: spec_fn(A::Message, A::Response) -> bool|
            {
                &&& #[trigger] left.outer().handles(data, t, rsp)
                &&& within(t, last)
            };
        assert forall|m: A::Message, r: A::Response| #[trigger]
            below(b, t)(m, r) implies below(right.inner(), next)(m, r) by {
            assert forall|m2: A::Message, r2: A::Response| #[trigger] t(m2, r2) implies below(c, next)(m2, r2) by {
                assert(last(m2, r2));
            }
            lemma_admits_monotone(b, m, r, t, below(c, next));
            assert(right.inner().handles(m, next, r) && within(next, next));
        }
        lemma_admits_monotone(a, data, rsp, below(b, t), below(right.inner(), next));
    }
    if right.handles(data, next, rsp) {
        assert forall|m: A::Message, r: A::Response| #[trigger]
            below(right.inner(), next)(m, r) implies below(b, last)(m, r) by {
            let t = choose|t: spec_fn(A::Message, A::Response) -> bool|
                {
                    &&& #[trigger] right.inner().handles(m, t, r)
                    &&& within(t, next)
                };
            assert forall|m2: A::Message, r2: A::Response| #[trigger]
                below(c, t)(m2, r2) implies last(m2, r2) by {
                lemma_admits_monotone(c, m2, r2, t, next);
            }
            lemma_admits_monotone(b, m, r, below(c, t), last);
        }
        lemma_admits_monotone(a, data, rsp, below(right.inner(), next), below(b, last));
        assert(left.outer().handles(data, last, rsp) && within(last, last));
    }
}

/// A middleware limited to a set of keys does nothing of its own for a message
/// in which no chosen key is found: what comes back is a response that the
/// rest of the chain gave to the message as it came.
pub proof fn lemma_unselected_passes<Key, Mid, F>(
    limited: AdHocFor<Key, Mid, F>,
    data: Mid::Message,
    next: spec_fn(Mid::Message, Mid::Response) -> bool,
    rsp: Mid::Response,
) where Key: PartialEq, Mid: Middleware, F: Fn(&Mid::Message) -> &Key
    requires
        limited.handles(data, next, rsp),
        forall|key: &Key| #[trigger]
            call_ensures(limited.lens(), (&data,), key) ==> !selects(limited.keys(), key),
    ensures
        next(data, rsp),
{
}

/// For a message in which a chosen key cannot be missed, a middleware limited
/// to a set of keys gives what the middleware inside it admits.
pub proof fn lemma_selected_runs<Key, Mid, F>(
    limited: AdHocFor<Key, Mid, F>,
    data: Mid::Message,
    next: spec_fn(Mid::Message, Mid::Response) -> bool,
    rsp: Mid::Response,
) where Key: PartialEq, Mid: Middleware, F: Fn(&Mid::Message) -> &Key
    requires
        limited.handles(data, next, rsp),
        forall|key: &Key| #[trigger]
            call_ensures(limited.lens(), (&data,), key) ==> !skips(limited.keys(), key),
    ensures
        admits(limited.wrapped(), data, next, rsp),
{
}

/// `m` around `m1`: `m` sees the message first and the response last.
pub fn compose<Mid, Mid1>(m: Mid, m1: Mid1) -> (chain: Compose<Mid, Mid1>) where
    Mid: Middleware,
    Mid1: Middleware<Message = Mid::Message, Response = Mid::Response>,

    ensures
        chain.outer() == m,
        chain.inner() == m1,
        chain.ready() == (m.ready() && m1.ready()),
        forall|data: Mid::Message, next: spec_fn(Mid::Message, Mid::Response) -> bool, rsp: Mid::Response| #[trigger]
            chain.handles(data, next, rsp) == composed_handles(m, m1, data, next, rsp),
{
    Compose(m, m1)
}

/// The middleware that runs `f`.
pub fn adhoc<M, R, F: Fn(M, &Next<M, R>) -> R + Send + 'static>(f: F) -> (mid: AdHocMid<
    impl Fn(M, &Next<M, R>) -> R,
    M,
    R,
>)
    ensures
        mid.ready() == adhoc_ready(f),
        forall|data: M, next: spec_fn(M, R) -> bool, rsp: R| #[trigger]
            mid.handles(data, next, rsp) == adhoc_handles(f, data, next, rsp),
{
    AdHocMid(f, PhantomData, PhantomData)
}

/// The middleware that does nothing: it hands the message on as it is and
/// gives back the response as it comes.
pub fn none<M, R>() -> (mid: AdHocMid<impl Fn(M, &Next<M, R>) -> R, M, R>)
    ensures
        mid.ready(),
        forall|data: M, next: spec_fn(M, R) -> bool, rsp: R| #[trigger]
            mid.handles(data, next, rsp) ==> next(data, rsp),
{
    let pass = |ib: M, cb: &Next<M, R>| -> (r: R)
        requires
            cb.ready(),
        ensures
            cb.yields(ib, r),
        { cb.call(ib) };
    let mid = AdHocMid(pass, PhantomData, PhantomData);
    assert forall|data: M, next: spec_fn(M, R) -> bool, rsp: R| #[trigger]
        mid.handles(data, next, rsp) implies next(data, rsp) by {
        lemma_adhoc_passes(mid, data, next, rsp);
    }
    mid
}

} // verus!
