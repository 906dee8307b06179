//! Push-based incremental deserialization: a consumer is fed arbitrary-sized
//! input chunks, in order, until it reports completion. A consumer must
//! never be fed again after completing; the remainder returned on completion
//! belongs to the next logical message.

use vstd::pervasive::unreached;
use vstd::prelude::*;

verus! {

/// One step of a consumer: more bytes are needed, or the terminal result
/// together with the remainder of the last-supplied bytes.
#[derive(Debug)]
pub enum ConsumerState<T, E> {
    InputNeeded,
    Complete(Result<T, E>, Vec<u8>),
}

/// A push-based incremental deserializer.
///
/// `inv` is the consumer's well-formedness condition, `complete` tells
/// whether the terminal state was reached, and `consume_rel` relates one
/// call of `consume` to the bytes supplied, its result and the state it
/// leaves behind. Feeding a consumer after completion is a usage error and
/// is ruled out by the precondition.
pub trait Consumer: Sized {
    type Item;

    type Error;

    spec fn inv(&self) -> bool;

    spec fn complete(&self) -> bool;

    spec fn consume_rel(
        &self,
        buf: Seq<u8>,
        r: &ConsumerState<Self::Item, Self::Error>,
        post: &Self,
    ) -> bool;

    fn consume(&mut self, buf: &[u8]) -> (r: ConsumerState<Self::Item, Self::Error>)
        requires
            old(self).inv(),
            !old(self).complete(),
        ensures
            final(self).inv(),
            old(self).consume_rel(buf@, &r, final(self)),
            r is Complete <==> final(self).complete(),
    ;
}

/// Transforms the terminal result of a wrapped consumer without touching the
/// input-needed passthrough; the mapping function is invoked at most once.
pub struct MapConsumer<C, F> {
    pub inner: C,
    pub func: Option<F>,
}

impl<
    C: Consumer,
    T2,
    E2,
    F: FnOnce(Result<C::Item, C::Error>) -> Result<T2, E2>,
> Consumer for MapConsumer<C, F> {
    type Item = T2;

    type Error = E2;

    open spec fn inv(&self) -> bool {
        self.func matches Some(f) ==> (self.inner.inv() && !self.inner.complete() && forall|
            res: Result<C::Item, C::Error>,
        | call_requires(f, (res,)))
    }

    open spec fn complete(&self) -> bool {
        self.func is None
    }

    open spec fn consume_rel(&self, buf: Seq<u8>, r: &ConsumerState<T2, E2>, post: &Self) -> bool {
        match r {
            ConsumerState::InputNeeded => post.func == self.func && self.inner.consume_rel(
                buf,
                &ConsumerState::InputNeeded,
                &post.inner,
            ),
            ConsumerState::Complete(res2, rem) => post.func is None && exists|
                res1: Result<C::Item, C::Error>,
            |
                self.inner.consume_rel(
                    buf,
                    &ConsumerState::Complete(res1, *rem),
                    &post.inner,
                ) && (self.func matches Some(f) && call_ensures(f, (res1,), *res2)),
        }
    }

    fn consume(&mut self, buf: &[u8]) -> (r: ConsumerState<T2, E2>) {
        match self.inner.consume(buf) {
            ConsumerState::InputNeeded => ConsumerState::InputNeeded,
            ConsumerState::Complete(res, rem) => {
                let mut taken: Option<F> = None;
                core::mem::swap(&mut self.func, &mut taken);
                match taken {
                    Some(f) => {
                        let ghost res1 = res;
                        let mapped = f(res);
                        let out = ConsumerState::Complete(mapped, rem);
                        proof {
                            assert(out matches ConsumerState::Complete(res2, rem2) && old(
                                self,
                            ).inner.consume_rel(
                                buf@,
                                &ConsumerState::Complete(res1, rem2),
                                &self.inner,
                            ));
                            assert(old(self).consume_rel(
                                buf@,
                                &out,
                                &(MapConsumer { inner: self.inner, func: self.func }),
                            ));
                        }
                        out
                    },
                    None => unreached(),
                }
            },
        }
    }
}

/// Wrap `consumer` so that its terminal result is transformed by `func`.
pub fn map<
    C: Consumer,
    T2,
    E2,
    F: FnOnce(Result<C::Item, C::Error>) -> Result<T2, E2>,
>(consumer: C, func: F) -> (c: MapConsumer<C, F>)
    requires
        consumer.inv(),
        !consumer.complete(),
        forall|res: Result<C::Item, C::Error>| call_requires(func, (res,)),
    ensures
        c.inv(),
        !c.complete(),
        c.inner == consumer,
        c.func == Some(func),
{
    MapConsumer { inner: consumer, func: Some(func) }
}

} // verus!
