//! What the application holds once it is assembled: the shared resources, by
//! kind, and the handlers, by name.

use crate::table::{find, lemma_table_push, table};
use crate::webview::InvokeRequest;
use crate::Api;
use std::collections::HashMap;
use std::sync::Arc;
use vstd::prelude::*;

verus! {

broadcast use vstd::std_specs::hash::group_hash_axioms;

/// `Arc::clone`: one more handle to the value that `handle` shares.
#[verifier::external_body]
fn share<R>(handle: &Arc<R>) -> (same: Arc<R>)
    ensures
        same == *handle,
{
    Arc::clone(handle)
}

/// The shared resources, one at most of each kind. A kind is a number that
/// the application gives to each type of resource.
pub struct ActorContainer<R>(HashMap<u64, Arc<R>>);

impl<R> View for ActorContainer<R> {
    type V = Map<u64, Arc<R>>;

    closed spec fn view(&self) -> Map<u64, Arc<R>> {
        self.0@
    }
}

/// What one call for the resource of kind `key` leaves in the container and
/// hands to its caller, where `built` is what the caller's constructor gives
/// if it is run: the resource that is there, or else the one built, which then
/// is there.
pub open spec fn resolved<R, E>(slots: Map<u64, Arc<R>>, key: u64, built: Result<Arc<R>, E>) -> (
    Map<u64, Arc<R>>,
    Result<Arc<R>, E>,
) {
    if slots.contains_key(key) {
        (slots, Ok(slots[key]))
    } else {
        match built {
            Ok(made) => (slots.insert(key, made), Ok(made)),
            Err(e) => (slots, Err(e)),
        }
    }
}

/// What is in the container after a row of callers have asked for the
/// resource of kind `key`, one after the other, where `built[i]` is what the
/// constructor of caller `i` gives if it is run.
pub open spec fn after_callers<R, E>(
    slots: Map<u64, Arc<R>>,
    key: u64,
    built: Seq<Result<Arc<R>, E>>,
) -> Map<u64, Arc<R>>
    decreases built.len(),
{
    if built.len() == 0 {
        slots
    } else {
        after_callers(resolved(slots, key, built[0]).0, key, built.drop_first())
    }
}

/// What each caller of such a row is handed.
pub open spec fn handed<R, E>(
    slots: Map<u64, Arc<R>>,
    key: u64,
    built: Seq<Result<Arc<R>, E>>,
) -> Seq<Result<Arc<R>, E>>
    decreases built.len(),
{
    if built.len() == 0 {
        Seq::empty()
    } else {
        seq![resolved(slots, key, built[0]).1] + handed(
            resolved(slots, key, built[0]).0,
            key,
            built.drop_first(),
        )
    }
}

/// How many constructors are run for such a row of callers.
pub open spec fn constructions<R, E>(
    slots: Map<u64, Arc<R>>,
    key: u64,
    built: Seq<Result<Arc<R>, E>>,
) -> nat
    decreases built.len(),
{
    if built.len() == 0 {
        0
    } else {
        let run: nat = if slots.contains_key(key) {
            0
        } else {
            1
        };
        run + constructions(resolved(slots, key, built[0]).0, key, built.drop_first())
    }
}

/// Where the resource is there, no constructor is run, nothing changes, and
/// every caller is handed the resource that is there.
pub proof fn lemma_present_is_shared<R, E>(
    slots: Map<u64, Arc<R>>,
    key: u64,
    built: Seq<Result<Arc<R>, E>>,
)
    requires
        slots.contains_key(key),
    ensures
        constructions(slots, key, built) == 0,
        after_callers(slots, key, built) == slots,
        handed(slots, key, built).len() == built.len(),
        forall|i: int|
            0 <= i < built.len() ==> #[trigger] handed(slots, key, built)[i] == Ok::<Arc<R>, E>(
                slots[key],
            ),
    decreases built.len(),
{
    if built.len() > 0 {
        lemma_present_is_shared(slots, key, built.drop_first());
    }
}

/// Where the resource is not there, the constructors are run one after the
/// other until one succeeds, which is caller `first`'s: the callers before it
/// are handed the failure of their own constructor, and nothing is put in for
/// them; caller `first` and every caller after it are handed what the
/// constructor of `first` built, which is what is then in the container.
pub proof fn lemma_first_success_is_shared<R, E>(
    slots: Map<u64, Arc<R>>,
    key: u64,
    built: Seq<Result<Arc<R>, E>>,
    first: int,
)
    requires
        !slots.contains_key(key),
        0 <= first < built.len(),
        built[first] is Ok,
        forall|i: int| 0 <= i < first ==> built[i] is Err,
    ensures
        constructions(slots, key, built) == first + 1,
        after_callers(slots, key, built) == slots.insert(key, built[first]->Ok_0),
        handed(slots, key, built).len() == built.len(),
        forall|i: int| 0 <= i < first ==> #[trigger] handed(slots, key, built)[i] == built[i],
        forall|i: int|
            first <= i < built.len() ==> #[trigger] handed(slots, key, built)[i] == Ok::<Arc<R>, E>(
                built[first]->Ok_0,
            ),
    decreases built.len(),
{
    let rest = built.drop_first();
    if first == 0 {
        lemma_present_is_shared(slots.insert(key, built[0]->Ok_0), key, rest);
    } else {
        lemma_first_success_is_shared(slots, key, rest, first - 1);
    }
}

/// However many callers ask for a resource that is not there, and in whatever
/// order they get hold of the container: where the first constructor succeeds,
/// it is the only one that is run, and every caller is handed what it built.
pub proof fn lemma_constructed_once<R, E>(
    slots: Map<u64, Arc<R>>,
    key: u64,
    built: Seq<Result<Arc<R>, E>>,
)
    requires
        !slots.contains_key(key),
        built.len() > 0,
        built[0] is Ok,
    ensures
        constructions(slots, key, built) == 1,
        forall|i: int|
            0 <= i < built.len() ==> #[trigger] handed(slots, key, built)[i] == Ok::<Arc<R>, E>(
                built[0]->Ok_0,
            ),
{
    lemma_first_success_is_shared(slots, key, built, 0);
}

impl<R> ActorContainer<R> {
    /// A container without resources.
    pub fn new() -> (container: Self)
        ensures
            container@ == Map::<u64, Arc<R>>::empty(),
    {
        ActorContainer(HashMap::new())
    }

    /// Puts `value` in as the resource of kind `key`, in place of the one that
    /// was there, if any.
    pub fn load(&mut self, key: u64, value: R)
        ensures
            final(self)@ == old(self)@.insert(key, Arc::new(value)),
    {
        self.0.insert(key, Arc::new(value));
    }

    /// The resource of kind `key`, if there is one.
    pub fn get(&self, key: u64) -> (found: Option<Arc<R>>)
        ensures
            found == if self@.contains_key(key) {
                Some(self@[key])
            } else {
                None
            },
    {
        match self.0.get(&key) {
            Some(handle) => Some(share(handle)),
            None => None,
        }
    }

    /// The resource of kind `key`: the one that is there, or else the one that
    /// `factory` builds, which is then put in. `factory` is run only where none
    /// is there, and where it fails nothing is put in.
    pub fn get_or_register<E, F: FnOnce() -> Result<R, E>>(&mut self, key: u64, factory: F) -> (found:
        Result<Arc<R>, E>)
        requires
            !old(self)@.contains_key(key) ==> call_requires(factory, ()),
        ensures
            old(self)@.contains_key(key) ==> (final(self)@, found) == resolved::<R, E>(
                old(self)@,
                key,
                Ok(old(self)@[key]),
            ),
            !old(self)@.contains_key(key) ==> exists|built: Result<R, E>|
                {
                    &&& #[trigger] call_ensures(factory, (), built)
                    &&& (final(self)@, found) == resolved(
                        old(self)@,
                        key,
                        match built {
                            Ok(made) => Ok(Arc::new(made)),
                            Err(e) => Err(e),
                        },
                    )
                },
    {
        match self.0.get(&key) {
            Some(handle) => Ok(share(handle)),
            None => {
                let built = factory();
                match built {
                    Ok(made) => {
                        let handle = Arc::new(made);
                        let kept = share(&handle);
                        self.0.insert(key, handle);
                        assert(call_ensures(factory, (), built));
                        Ok(kept)
                    },
                    Err(e) => {
                        assert(call_ensures(factory, (), built));
                        Err(e)
                    },
                }
            },
        }
    }
}

/// The application under assembly: the handlers and resources that have been
/// loaded so far.
pub struct WebViewBuilderContainer<H, R> {
    api_container: Vec<(String, H)>,
    actor_container: ActorContainer<R>,
    debug_content: Vec<String>,
}

/// The application as assembled: the handlers by name, which no longer
/// change, and the shared resources.
pub struct WebViewContainer<H, R> {
    actor_container: Arc<ActorContainer<R>>,
    api_container: Vec<(String, H)>,
}

impl<H, R> WebViewContainer<H, R> {
    /// The handlers, by name.
    pub closed spec fn routes(&self) -> Map<Seq<char>, H> {
        table(self.api_container@)
    }

    /// The shared resources.
    pub closed spec fn resources(&self) -> Arc<ActorContainer<R>> {
        self.actor_container
    }

    /// The handler named `key`, if there is one.
    pub fn get(&self, key: &str) -> (found: Option<&H>)
        ensures
            found == if self.routes().contains_key(key@) {
                Some(&self.routes()[key@])
            } else {
                None
            },
    {
        match find(&self.api_container, key) {
            Some(i) => Some(&self.api_container[i].1),
            None => None,
        }
    }

    /// The resources, to be shared with one more holder.
    pub fn shared(&self) -> (resources: Arc<ActorContainer<R>>)
        ensures
            resources == self.resources(),
    {
        share(&self.actor_container)
    }
}

impl<H, R> WebViewBuilderContainer<H, R> {
    /// The handlers that have been loaded, by name.
    pub closed spec fn routes(&self) -> Map<Seq<char>, H> {
        table(self.api_container@)
    }

    /// The resources that have been loaded.
    pub closed spec fn resources(&self) -> ActorContainer<R> {
        self.actor_container
    }

    /// The notes that have been taken.
    pub closed spec fn notes(&self) -> Seq<String> {
        self.debug_content@
    }

    /// An assembly without handlers or resources, with room for `capacity`
    /// handlers.
    pub fn new(capacity: usize) -> (container: Self)
        ensures
            container.routes() == Map::<Seq<char>, H>::empty(),
            container.resources()@ == Map::<u64, Arc<R>>::empty(),
            container.notes() == Seq::<String>::empty(),
    {
        let container = WebViewBuilderContainer {
            api_container: Vec::with_capacity(capacity),
            actor_container: ActorContainer::new(),
            debug_content: Vec::new(),
        };
        assert(container.routes() =~= Map::<Seq<char>, H>::empty());
        container
    }

    /// Loads `recipient` as the handler named `key`, unless a handler of that
    /// name has been loaded before: the first one stays. A handler without a
    /// name is not loaded.
    pub fn load_recipient(&mut self, key: &'static str, recipient: H)
        ensures
            final(self).routes() == if key@.len() == 0 || old(self).routes().contains_key(key@) {
                old(self).routes()
            } else {
                old(self).routes().insert(key@, recipient)
            },
            final(self).resources() == old(self).resources(),
            final(self).notes() == old(self).notes(),
    {
        if !key.is_empty() && find(&self.api_container, key).is_none() {
            let name = key.to_owned();
            proof {
                lemma_table_push(self.api_container@, name, recipient);
            }
            self.api_container.push((name, recipient));
        }
    }

    /// Loads `actor` as the resource of kind `key`, in place of the one that
    /// was loaded before, if any.
    pub fn load_actor(&mut self, key: u64, actor: R)
        ensures
            final(self).resources()@ == old(self).resources()@.insert(key, Arc::new(actor)),
            final(self).routes() == old(self).routes(),
            final(self).notes() == old(self).notes(),
    {
        self.actor_container.load(key, actor);
    }

    /// The resources that have been loaded.
    pub fn actor_container(&self) -> (resources: &ActorContainer<R>)
        ensures
            *resources == self.resources(),
    {
        &self.actor_container
    }

    /// Takes a note, for whoever looks into the assembly later.
    pub fn note(&mut self, text: String)
        ensures
            final(self).notes() == old(self).notes().push(text),
            final(self).routes() == old(self).routes(),
            final(self).resources() == old(self).resources(),
    {
        self.debug_content.push(text);
    }

    /// Hands `msg` to the handler that it names and gives the answer, if
    /// there is such a handler.
    pub fn handle(&self, msg: InvokeRequest) -> (answer: Option<H::Output>) where
        H: Api<Input = InvokeRequest>,

        requires
            self.routes().contains_key(msg.body.api_name@) ==> self.routes()[msg.body.api_name@].ready(),
        ensures
            match answer {
                Some(out) => self.routes().contains_key(msg.body.api_name@) && self.routes()[msg.body.api_name@].answers(
                    msg,
                    out,
                ),
                None => !self.routes().contains_key(msg.body.api_name@),
            },
    {
        match find(&self.api_container, msg.body.api_name.as_str()) {
            Some(at) => Some(self.api_container[at].1.handle(msg)),
            None => None,
        }
    }

    /// Closes the assembly: the handlers and resources as loaded, to be
    /// changed no more.
    pub fn finalize(self) -> (container: WebViewContainer<H, R>)
        ensures
            container.routes() == self.routes(),
            container.resources() == Arc::new(self.resources()),
    {
        let WebViewBuilderContainer { actor_container, api_container, debug_content: _ } = self;
        WebViewContainer { actor_container: Arc::new(actor_container), api_container }
    }
}

} // verus!
