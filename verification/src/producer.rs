//! Pull-based incremental serialization: a producer is called repeatedly and
//! yields one chunk of output per call until it reports completion. A
//! producer must never be driven again after completing.

use vstd::pervasive::unreached;
use vstd::prelude::*;

verus! {

/// One step of a producer: another chunk of output, or the terminal result.
pub enum ProducerState<E> {
    Yielded(Vec<u8>),
    Complete(Result<(), E>),
}

/// A pull-based incremental serializer.
///
/// `inv` is the producer's well-formedness condition, `complete` tells
/// whether the terminal state was reached, and `next_rel` relates one call
/// of `next` to its result and the state it leaves behind. Calling `next`
/// after completion is a usage error and is ruled out by its precondition.
pub trait Producer: Sized {
    type Error;

    spec fn inv(&self) -> bool;

    spec fn complete(&self) -> bool;

    spec fn next_rel(&self, r: &ProducerState<Self::Error>, post: &Self) -> bool;

    fn next(&mut self) -> (r: ProducerState<Self::Error>)
        requires
            old(self).inv(),
            !old(self).complete(),
        ensures
            final(self).inv(),
            old(self).next_rel(&r, final(self)),
            r is Complete <==> final(self).complete(),
    ;
}

/// Adapts a fixed sequence of owned chunks: yields each in order, then
/// completes successfully.
pub struct FromIterProducer {
    pub chunks: Vec<Vec<u8>>,
    pub pos: usize,
    pub done: bool,
}

impl FromIterProducer {
    /// The chunks not yet yielded.
    pub open spec fn remaining(&self) -> Seq<Seq<u8>> {
        self.chunks.deep_view().skip(self.pos as int)
    }
}

impl Producer for FromIterProducer {
    type Error = ();

    open spec fn inv(&self) -> bool {
        self.pos <= self.chunks@.len() && (self.done ==> self.pos == self.chunks@.len())
    }

    open spec fn complete(&self) -> bool {
        self.done
    }

    open spec fn next_rel(&self, r: &ProducerState<()>, post: &Self) -> bool {
        if self.remaining().len() > 0 {
            r matches ProducerState::Yielded(b) && b@ == self.remaining()[0] && post.remaining()
                == self.remaining().drop_first() && !post.done
        } else {
            r == ProducerState::<()>::Complete(Ok(())) && post.done
        }
    }

    fn next(&mut self) -> (r: ProducerState<()>) {
        if self.pos < self.chunks.len() {
            let chunk = vstd::slice::slice_to_vec(self.chunks[self.pos].as_slice());
            self.pos = self.pos + 1;
            proof {
                assert(self.chunks@[old(self).pos as int].deep_view() =~= self.chunks@[old(
                    self,
                ).pos as int]@);
                assert(old(self).remaining().drop_first() =~= self.remaining());
                assert(old(self).remaining()[0] == self.chunks.deep_view()[old(self).pos as int]);
            }
            ProducerState::Yielded(chunk)
        } else {
            self.done = true;
            ProducerState::Complete(Ok(()))
        }
    }
}

/// A producer over the given chunks, yielding them in order.
pub fn from_iter(chunks: Vec<Vec<u8>>) -> (p: FromIterProducer)
    ensures
        p.inv(),
        !p.complete(),
        p.remaining() == chunks.deep_view(),
{
    let p = FromIterProducer { chunks, pos: 0, done: false };
    proof {
        assert(p.remaining() =~= p.chunks.deep_view());
    }
    p
}

/// The three states of a one-shot producer: the function not yet invoked,
/// its single chunk already yielded, or terminal.
pub enum OneShotState<F> {
    Start(F),
    Succeeded,
    Complete,
}

/// Wraps a function invoked exactly once; after yielding its single chunk it
/// reports completion on the next call without re-invoking the function.
pub struct FromFnOnceProducer<F> {
    pub state: OneShotState<F>,
}

impl<E, F: FnOnce() -> Result<Vec<u8>, E>> Producer for FromFnOnceProducer<F> {
    type Error = E;

    open spec fn inv(&self) -> bool {
        self.state matches OneShotState::Start(f) ==> call_requires(f, ())
    }

    open spec fn complete(&self) -> bool {
        self.state is Complete
    }

    open spec fn next_rel(&self, r: &ProducerState<E>, post: &Self) -> bool {
        match self.state {
            OneShotState::Start(f) => match r {
                ProducerState::Yielded(b) => call_ensures(f, (), Ok::<Vec<u8>, E>(*b))
                    && post.state is Succeeded,
                ProducerState::Complete(res) => res matches Err(e) && call_ensures(
                    f,
                    (),
                    Err::<Vec<u8>, E>(*e),
                ) && post.state is Complete,
            },
            OneShotState::Succeeded => *r == ProducerState::<E>::Complete(Ok(())) && post.state
                is Complete,
            OneShotState::Complete => false,
        }
    }

    fn next(&mut self) -> (r: ProducerState<E>) {
        let mut taken = OneShotState::Complete;
        core::mem::swap(&mut self.state, &mut taken);
        match taken {
            OneShotState::Start(f) => match f() {
                Ok(b) => {
                    self.state = OneShotState::Succeeded;
                    ProducerState::Yielded(b)
                },
                Err(e) => ProducerState::Complete(Err(e)),
            },
            OneShotState::Succeeded => ProducerState::Complete(Ok(())),
            OneShotState::Complete => unreached(),
        }
    }
}

/// A producer that yields the single chunk computed by `f`, or completes at
/// once with the error `f` reports.
pub fn from_fn_once<E, F: FnOnce() -> Result<Vec<u8>, E>>(f: F) -> (p: FromFnOnceProducer<F>)
    requires
        call_requires(f, ()),
    ensures
        p.inv(),
        !p.complete(),
        p.state matches OneShotState::Start(g) && g == f,
{
    FromFnOnceProducer { state: OneShotState::Start(f) }
}

/// Transforms the terminal result of a wrapped producer without altering its
/// suspension points; the mapping function is invoked at most once.
pub struct MapProducer<P, F> {
    pub inner: P,
    pub func: Option<F>,
}

impl<P: Producer, E2, F: FnOnce(Result<(), P::Error>) -> Result<(), E2>> Producer for MapProducer<
    P,
    F,
> {
    type Error = E2;

    open spec fn inv(&self) -> bool {
        self.func matches Some(f) ==> (self.inner.inv() && !self.inner.complete() && forall|
            res: Result<(), P::Error>,
        | call_requires(f, (res,)))
    }

    open spec fn complete(&self) -> bool {
        self.func is None
    }

    open spec fn next_rel(&self, r: &ProducerState<E2>, post: &Self) -> bool {
        match r {
            ProducerState::Yielded(b) => post.func == self.func && self.inner.next_rel(
                &ProducerState::Yielded(*b),
                &post.inner,
            ),
            ProducerState::Complete(res2) => post.func is None && exists|
                res1: Result<(), P::Error>,
            |
                self.inner.next_rel(
                    &ProducerState::Complete(res1),
                    &post.inner,
                ) && (self.func matches Some(f) && call_ensures(f, (res1,), *res2)),
        }
    }

    fn next(&mut self) -> (r: ProducerState<E2>) {
        match self.inner.next() {
            ProducerState::Yielded(b) => ProducerState::Yielded(b),
            ProducerState::Complete(res) => {
                let mut taken: Option<F> = None;
                core::mem::swap(&mut self.func, &mut taken);
                match taken {
                    Some(f) => {
                        let ghost res1 = res;
                        let mapped = f(res);
                        proof {
                            assert(old(self).inner.next_rel(
                                &ProducerState::Complete(res1),
                                &self.inner,
                            ));
                        }
                        ProducerState::Complete(mapped)
                    },
                    None => unreached(),
                }
            },
        }
    }
}

/// Wrap `producer` so that its terminal result is transformed by `func`.
pub fn map<P: Producer, E2, F: FnOnce(Result<(), P::Error>) -> Result<(), E2>>(
    producer: P,
    func: F,
) -> (p: MapProducer<P, F>)
    requires
        producer.inv(),
        !producer.complete(),
        forall|res: Result<(), P::Error>| call_requires(func, (res,)),
    ensures
        p.inv(),
        !p.complete(),
        p.inner == producer,
        p.func == Some(func),
{
    MapProducer { inner: producer, func: Some(func) }
}

/// The states of a lazily initialized producer: initialization pending, the
/// real producer running, or terminal.
pub enum LazyState<F, P> {
    Initialization(F),
    Available(P),
    Complete,
}

/// Defers constructing the real producer until first polled, so a fallible
/// initialization step surfaces its error as a terminal result without ever
/// yielding a chunk.
pub struct LazyProducer<F, P> {
    pub state: LazyState<F, P>,
}

impl<P: Producer, F: FnOnce() -> Result<P, P::Error>> Producer for LazyProducer<F, P> {
    type Error = P::Error;

    open spec fn inv(&self) -> bool {
        match self.state {
            LazyState::Initialization(f) => call_requires(f, ()) && forall|res: Result<P, P::Error>|
                call_ensures(f, (), res) ==> (res matches Ok(p) ==> p.inv() && !p.complete()),
            LazyState::Available(p) => p.inv() && !p.complete(),
            LazyState::Complete => true,
        }
    }

    open spec fn complete(&self) -> bool {
        self.state is Complete
    }

    open spec fn next_rel(&self, r: &ProducerState<P::Error>, post: &Self) -> bool {
        match self.state {
            LazyState::Initialization(f) => match r {
                ProducerState::Yielded(b) => exists|p0: P|
                    call_ensures(f, (), Ok::<P, P::Error>(p0)) && (post.state matches
                    LazyState::Available(p1) && p0.next_rel(&ProducerState::Yielded(*b), &p1)),
                ProducerState::Complete(res) => post.state is Complete && ((res matches Err(e)
                    && call_ensures(f, (), Err::<P, P::Error>(*e))) || (exists|p0: P, p1: P|
                    call_ensures(f, (), Ok::<P, P::Error>(p0)) && p0.next_rel(
                        &ProducerState::Complete(*res),
                        &p1,
                    ))),
            },
            LazyState::Available(p) => match r {
                ProducerState::Yielded(b) => post.state matches LazyState::Available(p1)
                    && p.next_rel(&ProducerState::Yielded(*b), &p1),
                ProducerState::Complete(res) => post.state is Complete && exists|p1: P|
                    p.next_rel(&ProducerState::Complete(*res), &p1),
            },
            LazyState::Complete => false,
        }
    }

    fn next(&mut self) -> (r: ProducerState<P::Error>) {
        let mut taken = LazyState::Complete;
        core::mem::swap(&mut self.state, &mut taken);
        match taken {
            LazyState::Initialization(f) => match f() {
                Ok(mut p) => {
                    let ghost p0 = p;
                    match p.next() {
                        ProducerState::Yielded(b) => {
                            proof {
                                assert(call_ensures(f, (), Ok::<P, P::Error>(p0)));
                            }
                            self.state = LazyState::Available(p);
                            ProducerState::Yielded(b)
                        },
                        ProducerState::Complete(res) => {
                            proof {
                                assert(call_ensures(f, (), Ok::<P, P::Error>(p0)));
                                assert(p0.next_rel(&ProducerState::Complete(res), &p));
                            }
                            ProducerState::Complete(res)
                        },
                    }
                },
                Err(e) => ProducerState::Complete(Err(e)),
            },
            LazyState::Available(mut p) => {
                let ghost p0 = p;
                match p.next() {
                    ProducerState::Yielded(b) => {
                        self.state = LazyState::Available(p);
                        ProducerState::Yielded(b)
                    },
                    ProducerState::Complete(res) => {
                        proof {
                            assert(p0.next_rel(&ProducerState::Complete(res), &p));
                        }
                        ProducerState::Complete(res)
                    },
                }
            },
            LazyState::Complete => unreached(),
        }
    }
}

/// A producer whose real inner producer is built by `init` on first poll.
pub fn lazy<P: Producer, F: FnOnce() -> Result<P, P::Error>>(init: F) -> (p: LazyProducer<F, P>)
    requires
        call_requires(init, ()),
        forall|res: Result<P, P::Error>|
            call_ensures(init, (), res) ==> (res matches Ok(q) ==> q.inv() && !q.complete()),
    ensures
        p.inv(),
        !p.complete(),
        p.state matches LazyState::Initialization(g) && g == init,
{
    LazyProducer { state: LazyState::Initialization(init) }
}

/// A one-shot producer over an already computed result: it yields the single
/// prepared chunk, then reports completion, or reports the prepared error at
/// once — the same three-state machine as [`FromFnOnceProducer`].
pub struct OnceProducer<E> {
    pub state: OneShotState<Result<Vec<u8>, E>>,
}

impl<E> Producer for OnceProducer<E> {
    type Error = E;

    open spec fn inv(&self) -> bool {
        true
    }

    open spec fn complete(&self) -> bool {
        self.state is Complete
    }

    open spec fn next_rel(&self, r: &ProducerState<E>, post: &Self) -> bool {
        match self.state {
            OneShotState::Start(res) => match r {
                ProducerState::Yielded(b) => res == Ok::<Vec<u8>, E>(*b) && post.state
                    is Succeeded,
                ProducerState::Complete(r2) => r2 matches Err(e) && res matches Err(e2) && e2 == *e
                    && post.state is Complete,
            },
            OneShotState::Succeeded => *r == ProducerState::<E>::Complete(Ok(())) && post.state
                is Complete,
            OneShotState::Complete => false,
        }
    }

    fn next(&mut self) -> (r: ProducerState<E>) {
        let mut taken = OneShotState::Complete;
        core::mem::swap(&mut self.state, &mut taken);
        match taken {
            OneShotState::Start(Ok(b)) => {
                self.state = OneShotState::Succeeded;
                ProducerState::Yielded(b)
            },
            OneShotState::Start(Err(e)) => ProducerState::Complete(Err(e)),
            OneShotState::Succeeded => ProducerState::Complete(Ok(())),
            OneShotState::Complete => unreached(),
        }
    }
}

} // verus!
