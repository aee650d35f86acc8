//! The dispatcher: an ordered chain of interceptors in front of a pluggable transport.

use crate::ident::{advanced, id_text, IdSource};
use std::collections::VecDeque;
use std::marker::PhantomData;
use std::sync::Arc;
use vstd::prelude::*;

verus! {

/// The timeout, in milliseconds, of a dispatcher that was given none.
pub const DEFAULT_TIMEOUT_MILLISECOND: u64 = 30 * 1000;

/// What an interceptor reports when it refuses or fails to change a request.
#[derive(Debug)]
pub struct InterceptorError {
    pub details: String,
}

/// A step that changes a request before it is sent, or refuses it. It takes the
/// request and gives back the request to go on with; when it fails, the request
/// is dropped with it.
pub trait Interceptor<R> {
    /// The identifier by which the interceptor is found in a chain.
    fn get_id(&self) -> String;

    fn intercept(&self, request: R) -> Result<R, InterceptorError>;
}

/// Whether `interceptor`, given `before`, may come back with `outcome`.
pub open spec fn intercepts<R, I: Interceptor<R>>(
    interceptor: I,
    before: R,
    outcome: Result<R, InterceptorError>,
) -> bool {
    call_ensures(I::intercept, (&interceptor, before), outcome)
}

/// Whether `interceptor` may give `id` as its identifier.
pub open spec fn has_id<R, I: Interceptor<R>>(interceptor: I, id: Seq<char>) -> bool {
    exists|text: String| text@ == id && #[trigger] call_ensures(I::get_id, (&interceptor,), text)
}

/// Whether `interceptor` may give an identifier that is not `id`.
pub open spec fn has_other_id<R, I: Interceptor<R>>(interceptor: I, id: Seq<char>) -> bool {
    exists|text: String| text@ != id && #[trigger] call_ensures(I::get_id, (&interceptor,), text)
}

/// A shared interceptor is an interceptor: it does what the one it points to does.
impl<R, T: Interceptor<R> + ?Sized> Interceptor<R> for Arc<T> {
    fn get_id(&self) -> (r: String)
        ensures
            call_ensures(T::get_id, (&**self,), r),
    {
        (**self).get_id()
    }

    fn intercept(&self, request: R) -> (r: Result<R, InterceptorError>)
        ensures
            call_ensures(T::intercept, (&**self, request), r),
    {
        (**self).intercept(request)
    }
}

/// An interceptor made of a function. The function takes the request and
/// gives back the request to go on with. It is called through a shared
/// reference; what it keeps between calls it keeps behind a lock or a cell
/// of its own, as any type that implements `Interceptor` may.
#[verifier::reject_recursive_types(R)]
pub struct InterceptorFunc<R, F: Fn(R) -> Result<R, InterceptorError>> {
    id: String,
    func: F,
    of: PhantomData<R>,
}

impl<R, F: Fn(R) -> Result<R, InterceptorError>> InterceptorFunc<R, F> {
    #[verifier::type_invariant]
    spec fn accepts_every_request(&self) -> bool {
        forall|request: R| call_requires(self.func, (request,))
    }

    /// The function that the interceptor applies.
    pub closed spec fn func(&self) -> F {
        self.func
    }

    /// The identifier of the interceptor.
    pub closed spec fn id(&self) -> Seq<char> {
        self.id@
    }

    /// An interceptor that applies `func`, under the next identifier of `ids`.
    /// Interceptors that are made with one source have identifiers that differ.
    pub fn new(ids: &mut IdSource, func: F) -> (r: Self)
        requires
            forall|request: R| call_requires(func, (request,)),
        ensures
            r.func() == func,
            r.id() == id_text(old(ids)@),
            final(ids)@ == advanced(old(ids)@),
    {
        let id = Self::generate_id(ids);
        Self::new_with_id(id, func)
    }

    /// A fresh identifier: the next one of `ids`.
    fn generate_id(ids: &mut IdSource) -> (r: String)
        ensures
            r@ == id_text(old(ids)@),
            final(ids)@ == advanced(old(ids)@),
    {
        ids.next_id()
    }

    /// An interceptor that applies `func`, under the identifier `id`.
    pub fn new_with_id(id: String, func: F) -> (r: Self)
        requires
            forall|request: R| call_requires(func, (request,)),
        ensures
            r.func() == func,
            r.id() == id@,
    {
        InterceptorFunc { id, func, of: PhantomData }
    }
}

impl<R, F: Fn(R) -> Result<R, InterceptorError>> Interceptor<R> for InterceptorFunc<R, F> {
    fn get_id(&self) -> (r: String)
        ensures
            r@ == self.id(),
    {
        self.id.clone()
    }

    /// Applies the function to the request.
    fn intercept(&self, request: R) -> (r: Result<R, InterceptorError>)
        ensures
            call_ensures(self.func(), (request,), r),
    {
        proof {
            use_type_invariant(self);
        }
        (self.func)(request)
    }
}

/// Whether the first `n` interceptors of `chain`, run in order and none of them
/// failing, may turn `before` into `state`.
pub open spec fn ran<R, I: Interceptor<R>>(chain: Seq<I>, n: int, before: R, state: R) -> bool
    decreases n,
{
    if n <= 0 {
        state == before
    } else {
        exists|mid: R|
            ran(chain, n - 1, before, mid) && #[trigger] intercepts(chain[n - 1], mid, Ok(state))
    }
}

/// One more interceptor that does not fail extends a run by one.
pub proof fn lemma_ran_step<R, I: Interceptor<R>>(
    chain: Seq<I>,
    n: int,
    before: R,
    mid: R,
    state: R,
)
    requires
        n >= 1,
        ran(chain, n - 1, before, mid),
        intercepts(chain[n - 1], mid, Ok(state)),
    ensures
        ran(chain, n, before, state),
{
}

/// Whether the first `k` interceptors of `chain` may run without failing and the
/// next one then fail with `error`.
pub open spec fn stopped<R, I: Interceptor<R>>(
    chain: Seq<I>,
    k: int,
    before: R,
    error: InterceptorError,
) -> bool {
    0 <= k < chain.len() && exists|mid: R|
        ran(chain, k, before, mid) && #[trigger] intercepts(chain[k], mid, Err(error))
}

/// What running the whole of `chain` on `before` may give: the request as the
/// last interceptor left it, or the error of the first interceptor that failed,
/// after which none was run.
pub open spec fn chain_outcome<R, I: Interceptor<R>>(
    chain: Seq<I>,
    before: R,
    outcome: Result<R, InterceptorError>,
) -> bool {
    match outcome {
        Ok(after) => ran(chain, chain.len() as int, before, after),
        Err(error) => exists|k: int| #[trigger] stopped(chain, k, before, error),
    }
}

/// Runs the interceptors of `chain` in order on `request` and stops at the first that fails.
pub fn run_chain<R, I: Interceptor<R>>(chain: &VecDeque<I>, request: R) -> (r: Result<
    R,
    InterceptorError,
>)
    ensures
        chain_outcome(chain@, request, r),
{
    let mut current = request;
    let mut k: usize = 0;
    while k < chain.len()
        invariant
            k <= chain.len(),
            ran(chain@, k as int, request, current),
        decreases chain.len() - k,
    {
        let ghost mid = current;
        match chain[k].intercept(current) {
            Ok(next) => {
                proof {
                    lemma_ran_step(chain@, k + 1, request, mid, next);
                }
                current = next;
            },
            Err(error) => {
                proof {
                    assert(ran(chain@, k as int, request, mid) && intercepts(
                        chain@[k as int],
                        mid,
                        Err(error),
                    ));
                    assert(stopped(chain@, k as int, request, error));
                }
                return Err(error);
            },
        }
        k = k + 1;
    }
    Ok(current)
}

/// `Arc`'s `clone` gives another pointer to the same value.
#[verifier::external_body]
fn share<T: ?Sized>(a: &Arc<T>) -> (r: Arc<T>)
    ensures
        r == *a,
{
    a.clone()
}

/// How one exchange with a transport ended.
#[derive(Debug)]
pub enum TransportOutcome<Res> {
    /// The transport came back in time, with `Res`: its response or its own error.
    Completed(Res),
    /// The time allowed ran out first.
    TimedOut,
}

/// Why a dispatch ended before the transport had answered.
#[derive(Debug)]
pub enum DispatchError {
    /// An interceptor failed; no later interceptor ran and nothing was sent.
    Interceptor(InterceptorError),
    /// The transport did not answer within the time allowed.
    Timeout,
}

/// What a dispatch returns: what the transport reported, or why it was not
/// reached or did not answer in time.
pub type SimpleHTTPResponse<R> = Result<R, DispatchError>;

/// A transport: it sends one request, with the milliseconds allowed for the
/// exchange, and reports how the exchange ended.
pub trait BaseClient<Req, Res> {
    fn request(&self, req: Req, timeout_millisecond: u64) -> TransportOutcome<Res>;
}

/// Whether `client`, given `request` and that many milliseconds, may report `outcome`.
pub open spec fn responds<Req, Res, C: BaseClient<Req, Res>>(
    client: C,
    request: Req,
    timeout_millisecond: u64,
    outcome: TransportOutcome<Res>,
) -> bool {
    call_ensures(C::request, (&client, request, timeout_millisecond), outcome)
}

/// A shared transport is a transport: it does what the one it points to does.
impl<Req, Res, T: BaseClient<Req, Res> + ?Sized> BaseClient<Req, Res> for Arc<T> {
    fn request(&self, req: Req, timeout_millisecond: u64) -> (outcome: TransportOutcome<Res>)
        ensures
            call_ensures(T::request, (&**self, req, timeout_millisecond), outcome),
    {
        (**self).request(req, timeout_millisecond)
    }
}

/// The time allowed for one exchange: the configured time, or the default where it is zero.
pub open spec fn effective_timeout(configured: u64) -> u64 {
    if configured == 0 {
        DEFAULT_TIMEOUT_MILLISECOND
    } else {
        configured
    }
}

/// What a dispatch returns for the outcome of the exchange: a timeout is an error
/// of its own, and whatever the transport reported is handed on unchanged.
pub open spec fn settled<Res>(outcome: TransportOutcome<Res>) -> SimpleHTTPResponse<Res> {
    match outcome {
        TransportOutcome::Completed(res) => Ok(res),
        TransportOutcome::TimedOut => Err(DispatchError::Timeout),
    }
}

/// Turns the outcome of the exchange into the result of the dispatch.
pub fn settle<Res>(outcome: TransportOutcome<Res>) -> (r: SimpleHTTPResponse<Res>)
    ensures
        r == settled(outcome),
{
    match outcome {
        TransportOutcome::Completed(res) => Ok(res),
        TransportOutcome::TimedOut => Err(DispatchError::Timeout),
    }
}

/// Whether `after` is `before` without the first interceptor that gave `id` as
/// its identifier, when every interceptor in front of it gave another one; or
/// `before` itself, when every interceptor gave another one.
pub open spec fn deleted<R, I: Interceptor<R>>(before: Seq<I>, id: Seq<char>, after: Seq<I>) -> bool {
    ||| exists|k: int|
        0 <= k < before.len() && #[trigger] has_id::<R, I>(before[k], id) && (forall|j: int|
            0 <= j < k ==> has_other_id::<R, I>(#[trigger] before[j], id)) && after
            == before.remove(k)
    ||| (forall|j: int| 0 <= j < before.len() ==> has_other_id::<R, I>(#[trigger] before[j], id))
        && after == before
}

/// What a dispatch through `chain` and `client` may return for `request`: the
/// error of the interceptor that stopped the chain, or what the outcome of the
/// exchange settles to, the transport having been given the request as the chain left it.
pub open spec fn dispatched<Req, Res, C: BaseClient<Req, Res>, I: Interceptor<Req>>(
    chain: Seq<I>,
    client: C,
    timeout_millisecond: u64,
    request: Req,
    result: SimpleHTTPResponse<Res>,
) -> bool {
    match result {
        Err(DispatchError::Interceptor(error)) => chain_outcome(chain, request, Err(error)),
        _ => exists|sent: Req, outcome: TransportOutcome<Res>|
            chain_outcome(chain, request, Ok(sent)) && #[trigger] responds(
                client,
                sent,
                timeout_millisecond,
                outcome,
            ) && result == settled(outcome),
    }
}

/// A dispatcher: a transport, the interceptors that run before it, and the time
/// allowed for one exchange.
#[verifier::reject_recursive_types(Req)]
#[verifier::reject_recursive_types(Res)]
pub struct SimpleHTTP<Req, Res, C, I> {
    pub client: C,
    pub interceptors: VecDeque<I>,
    /// The time allowed for one exchange, in milliseconds; zero stands for the default.
    pub timeout_millisecond: u64,
    /// The source of the identifiers of the interceptors that the dispatcher makes.
    pub ids: IdSource,
    /// What is exchanged: requests of the type `Req` for results of the type `Res`.
    pub exchange: PhantomData<(Req, Res)>,
}

impl<Req, Res, C: BaseClient<Req, Res>, I: Interceptor<Req>> SimpleHTTP<Req, Res, C, I> {
    pub fn new_with_options(client: C, interceptors: VecDeque<I>, timeout_millisecond: u64) -> (r:
        Self)
        ensures
            r.client == client,
            r.interceptors == interceptors,
            r.timeout_millisecond == timeout_millisecond,
            r.ids@.turns == 0,
            r.ids@.count == 0,
    {
        SimpleHTTP {
            client,
            interceptors,
            timeout_millisecond,
            ids: IdSource::new(),
            exchange: PhantomData,
        }
    }

    pub fn set_client(&mut self, client: C)
        ensures
            final(self).client == client,
            final(self).interceptors == old(self).interceptors,
            final(self).timeout_millisecond == old(self).timeout_millisecond,
            final(self).ids == old(self).ids,
    {
        self.client = client;
    }

    /// Puts `interceptor` at the end of the chain: it runs after all that are there.
    pub fn add_interceptor(&mut self, interceptor: I)
        ensures
            final(self).interceptors@ == old(self).interceptors@.push(interceptor),
            final(self).client == old(self).client,
            final(self).timeout_millisecond == old(self).timeout_millisecond,
            final(self).ids == old(self).ids,
    {
        self.interceptors.push_back(interceptor);
    }

    /// Puts `interceptor` at the front of the chain: it runs before all that are there.
    pub fn add_interceptor_front(&mut self, interceptor: I)
        ensures
            final(self).interceptors@ == seq![interceptor] + old(self).interceptors@,
            final(self).client == old(self).client,
            final(self).timeout_millisecond == old(self).timeout_millisecond,
            final(self).ids == old(self).ids,
    {
        self.interceptors.push_front(interceptor);
    }

    /// Asks `interceptor` for its identifier and takes the first interceptor that
    /// gives the same one out of the chain; the others keep their order. Where
    /// none gives it, nothing changes.
    pub fn delete_interceptor(&mut self, interceptor: I)
        ensures
            exists|id: Seq<char>| #[trigger]
                has_id::<Req, I>(interceptor, id) && deleted::<Req, I>(
                    old(self).interceptors@,
                    id,
                    final(self).interceptors@,
                ),
            final(self).client == old(self).client,
            final(self).timeout_millisecond == old(self).timeout_millisecond,
            final(self).ids == old(self).ids,
    {
        let id = interceptor.get_id();
        assert(has_id::<Req, I>(interceptor, id@));
        let mut index: usize = 0;
        while index < self.interceptors.len()
            invariant
                index <= self.interceptors.len(),
                self.interceptors == old(self).interceptors,
                self.client == old(self).client,
                self.timeout_millisecond == old(self).timeout_millisecond,
                self.ids == old(self).ids,
                has_id::<Req, I>(interceptor, id@),
                forall|j: int|
                    0 <= j < index ==> has_other_id::<Req, I>(#[trigger] self.interceptors@[j], id@),
            decreases self.interceptors.len() - index,
        {
            let found = self.interceptors[index].get_id();
            if found == id {
                assert(has_id::<Req, I>(self.interceptors@[index as int], id@));
                self.interceptors.remove(index);
                assert(deleted::<Req, I>(old(self).interceptors@, id@, self.interceptors@));
                return ;
            }
            assert(has_other_id::<Req, I>(self.interceptors@[index as int], id@));
            index = index + 1;
        }
        assert(deleted::<Req, I>(old(self).interceptors@, id@, self.interceptors@));
    }

    /// Runs the chain on `request`: every interceptor in order, up to the first that fails.
    pub fn run_interceptors(&self, request: Req) -> (r: Result<Req, InterceptorError>)
        ensures
            chain_outcome(self.interceptors@, request, r),
    {
        run_chain(&self.interceptors, request)
    }

    /// The time allowed for one exchange, in milliseconds.
    pub fn get_timeout_millisecond(&self) -> (r: u64)
        ensures
            r == effective_timeout(self.timeout_millisecond),
            r > 0,
    {
        if self.timeout_millisecond == 0 {
            DEFAULT_TIMEOUT_MILLISECOND
        } else {
            self.timeout_millisecond
        }
    }

    /// Dispatches `request`: runs the chain, hands what it made to the transport
    /// with the time allowed, and settles the outcome. Where an interceptor
    /// fails, the transport is not called.
    pub fn request(&self, request: Req) -> (r: SimpleHTTPResponse<Res>)
        ensures
            dispatched(
                self.interceptors@,
                self.client,
                effective_timeout(self.timeout_millisecond),
                request,
                r,
            ),
    {
        match self.run_interceptors(request) {
            Err(error) => Err(DispatchError::Interceptor(error)),
            Ok(sent) => {
                let outcome = self.client.request(sent, self.get_timeout_millisecond());
                assert(responds(
                    self.client,
                    sent,
                    effective_timeout(self.timeout_millisecond),
                    outcome,
                ));
                settle(outcome)
            },
        }
    }
}

impl<Req, Res, C: BaseClient<Req, Res>, F: Fn(Req) -> Result<Req, InterceptorError>> SimpleHTTP<
    Req,
    Res,
    C,
    Arc<InterceptorFunc<Req, F>>,
> {
    /// Makes an interceptor of `func`, under the next identifier of the
    /// dispatcher's source, puts it at the end of the chain and hands it back.
    pub fn add_interceptor_fn(&mut self, func: F) -> (r: Arc<InterceptorFunc<Req, F>>)
        requires
            forall|request: Req| call_requires(func, (request,)),
        ensures
            r.func() == func,
            r.id() == id_text(old(self).ids@),
            final(self).ids@ == advanced(old(self).ids@),
            final(self).interceptors@ == old(self).interceptors@.push(r),
            final(self).client == old(self).client,
            final(self).timeout_millisecond == old(self).timeout_millisecond,
    {
        let interceptor = Arc::new(InterceptorFunc::new(&mut self.ids, func));
        let shared = share(&interceptor);
        self.add_interceptor(shared);
        interceptor
    }
}

} // verus!
