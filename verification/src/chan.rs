//! Typed session endpoints over a raw channel.
//!
//! An endpoint `Chan<P, E, C>` owns a raw channel `C` and is typed by the
//! session `P` that is left to run and by the recursion environment `E`.
//! Every operation consumes the endpoint and gives back one typed by the rest
//! of the protocol. The raw channel's own sends and receives are futures that
//! the async layer awaits; the steps here decide what goes onto the wire and
//! what a delivered message means.
use std::future::Future;
use std::marker::PhantomData;
use vstd::prelude::*;

use crate::repr::Repr;
use crate::session::{Choose, HasDual, Offer, Rec, Recv, Send, Var, S, Z};
use crate::Error;

verus! {

/// A raw, untyped, bidirectional channel carrying values of type `R`.
pub trait RawChan {
    type R;

    type SendFuture<'a>: Future<Output = Result<(), Error>> + 'a where Self: 'a;

    fn send(&mut self, r: Self::R) -> Self::SendFuture<'_>;

    type RecvFuture<'a>: Future<Output = Result<Self::R, Error>> where Self: 'a;

    fn recv(&mut self) -> Self::RecvFuture<'_>;

    type CloseFuture: Future<Output = Result<(), Error>> + 'static;

    fn close(self) -> Self::CloseFuture;
}

/// An endpoint of a session of type `P`, in the recursion environment `E`,
/// over the raw channel `C`.
#[must_use]
pub struct Chan<P: HasDual, E, C: RawChan>(C, PhantomData<(P, E)>);

/// The branch that the other side picked.
pub enum Branch<L, R> {
    Left(L),
    Right(R),
}

/// A session type that offers the choice of three continuations.
pub trait Choose3: HasDual {
    type T1: HasDual;
    type T2: HasDual;
    type T3: HasDual;
}

/// An endpoint that can offer the continuations of a user-defined choice.
pub trait OfferExt<P: HasDual, E> {
    type C: RawChan;

    type OfferChan;

    type OfferFuture: Future<Output = Result<Self::OfferChan, Error>> + 'static where Self: 'static;

    fn offer(self) -> Self::OfferFuture;
}

/// What a receive yields once the raw channel has delivered `received`: a
/// failed raw receive is a `RecvErr`, a value that holds no `T` is a
/// `ConvertErr`, and otherwise the message it holds.
pub open spec fn recv_result<T, R: Repr<T>>(received: Result<R, Error>) -> Result<T, Error> {
    match received {
        Err(_) => Err(Error::RecvErr),
        Ok(r) => match <R as Repr<T>>::message(&r) {
            Some(v) => Ok(v),
            None => Err(Error::ConvertErr),
        },
    }
}

/// What the offer of a user-defined choice among `arity` continuations
/// yields: the index of the picked continuation, counted from zero.
pub open spec fn choice_result<R: Repr<u8>>(received: Result<R, Error>, arity: u8) -> Result<
    u8,
    Error,
> {
    match recv_result::<u8, R>(received) {
        Ok(tag) => if tag < arity {
            Ok(tag)
        } else {
            Err(Error::ConvertErr)
        },
        Err(e) => Err(e),
    }
}

impl<P: HasDual, E, C: RawChan> Chan<P, E, C> {
    /// The raw channel under this endpoint.
    pub closed spec fn raw(self) -> C {
        self.0
    }

    /// Starts a session of type `P` on a raw channel.
    pub fn from_raw(c: C) -> (res: Self)
        ensures
            res.raw() == c,
    {
        Self(c, PhantomData)
    }

    /// Gives up the typing and returns the raw channel.
    pub fn into_raw(self) -> (res: C)
        ensures
            res == self.raw(),
    {
        self.0
    }
}

impl<P: HasDual, E, T, C: RawChan> Chan<Send<T, P>, E, C> where C::R: Repr<T> {
    /// The decision half of `send`: the message `t` in the channel's
    /// representation, which the raw channel is to carry, and the endpoint
    /// that continues with `P` once it has been sent.
    pub fn send_step(self, t: T) -> (res: (Chan<P, E, C>, C::R))
        ensures
            res.0.raw() == self.raw(),
            <C::R as Repr<T>>::message(&res.1) == Some(t),
    {
        let r = <C::R as Repr<T>>::from(t);
        (Chan(self.0, PhantomData), r)
    }
}

impl<P: HasDual, E, T, C: RawChan> Chan<Recv<T, P>, E, C> where C::R: Repr<T> {
    /// The decision half of `recv`: what receiving yields once the raw
    /// channel of this endpoint has delivered `received`.
    pub fn recv_step(self, received: Result<C::R, Error>) -> (res: Result<(T, Chan<P, E, C>), Error>)
        ensures
            match recv_result::<T, C::R>(received) {
                Ok(v) => res matches Ok((t, next)) && t == v && next.raw() == self.raw(),
                Err(e) => res matches Err(f) && f == e,
            },
    {
        let r = match received {
            Ok(r) => r,
            Err(_) => return Err(Error::RecvErr),
        };
        let t: T = match <C::R as Repr<T>>::try_into(r) {
            Ok(t) => t,
            Err(_) => return Err(Error::ConvertErr),
        };
        Ok((t, Chan(self.0, PhantomData)))
    }
}

impl<C: RawChan, E, C3: Choose3> Chan<C3, E, C> where C::R: Repr<u8> {
    /// The decision half of `choose1`: the tag 1 on the wire, and the
    /// endpoint that continues with the first continuation.
    pub fn choose1_step(self) -> (res: (Chan<C3::T1, E, C>, C::R))
        ensures
            res.0.raw() == self.raw(),
            <C::R as Repr<u8>>::message(&res.1) == Some(1u8),
    {
        let r = <C::R as Repr<u8>>::from(1);
        (Chan(self.0, PhantomData), r)
    }

    /// The decision half of `choose2`: the tag 2 on the wire, and the
    /// endpoint that continues with the second continuation.
    pub fn choose2_step(self) -> (res: (Chan<C3::T2, E, C>, C::R))
        ensures
            res.0.raw() == self.raw(),
            <C::R as Repr<u8>>::message(&res.1) == Some(2u8),
    {
        let r = <C::R as Repr<u8>>::from(2);
        (Chan(self.0, PhantomData), r)
    }

    /// The decision half of `choose3`: the tag 3 on the wire, and the
    /// endpoint that continues with the third continuation.
    pub fn choose3_step(self) -> (res: (Chan<C3::T3, E, C>, C::R))
        ensures
            res.0.raw() == self.raw(),
            <C::R as Repr<u8>>::message(&res.1) == Some(3u8),
    {
        let r = <C::R as Repr<u8>>::from(3);
        (Chan::from_raw(self.0), r)
    }
}

impl<P: HasDual, Q: HasDual, E, C: RawChan> Chan<Choose<P, Q>, E, C> where C::R: Repr<bool> {
    /// The decision half of `left`: the flag `false` on the wire, and the
    /// endpoint that continues with `P`.
    pub fn left_step(self) -> (res: (Chan<P, E, C>, C::R))
        ensures
            res.0.raw() == self.raw(),
            <C::R as Repr<bool>>::message(&res.1) == Some(false),
    {
        let r = <C::R as Repr<bool>>::from(false);
        (Chan(self.0, PhantomData), r)
    }

    /// The decision half of `right`: the flag on the wire, and the endpoint
    /// that continues with `Q`. The flag is `false`, the one `left` sends, so
    /// the other side's `offer` takes its left branch.
    pub fn right_step(self) -> (res: (Chan<Q, E, C>, C::R))
        ensures
            res.0.raw() == self.raw(),
            <C::R as Repr<bool>>::message(&res.1) == Some(false),
    {
        let r = <C::R as Repr<bool>>::from(false);
        (Chan(self.0, PhantomData), r)
    }
}

impl<P: HasDual, Q: HasDual, E, C: RawChan> Chan<Offer<P, Q>, E, C> where C::R: Repr<bool> {
    /// The decision half of `offer`: the branch that the other side picked,
    /// once the raw channel of this endpoint has delivered `received`;
    /// `false` is the left branch and `true` the right one.
    pub fn offer_step(self, received: Result<C::R, Error>) -> (res: Result<
        Branch<Chan<P, E, C>, Chan<Q, E, C>>,
        Error,
    >)
        ensures
            match recv_result::<bool, C::R>(received) {
                Ok(false) => res matches Ok(Branch::Left(next)) && next.raw() == self.raw(),
                Ok(true) => res matches Ok(Branch::Right(next)) && next.raw() == self.raw(),
                Err(e) => res matches Err(f) && f == e,
            },
    {
        let r = match received {
            Ok(r) => r,
            Err(_) => return Err(Error::RecvErr),
        };
        let b: bool = match <C::R as Repr<bool>>::try_into(r) {
            Ok(b) => b,
            Err(_) => return Err(Error::ConvertErr),
        };
        if b {
            Ok(Branch::Right(Chan(self.0, PhantomData)))
        } else {
            Ok(Branch::Left(Chan(self.0, PhantomData)))
        }
    }
}

impl<P: HasDual, E, C: RawChan> Chan<Rec<P>, E, C> {
    /// Enters the recursion point: the body `P` runs with `P` pushed onto
    /// the environment.
    pub fn rec(self) -> (res: Chan<P, (P, E), C>)
        ensures
            res.raw() == self.raw(),
    {
        Chan::from_raw(self.into_raw())
    }
}

impl<P: HasDual, E, C: RawChan> Chan<Var<Z>, (P, E), C> {
    /// Jumps back to the innermost recursion point.
    pub fn zero(self) -> (res: Chan<P, (P, E), C>)
        ensures
            res.raw() == self.raw(),
    {
        Chan::from_raw(self.into_raw())
    }
}

impl<P: HasDual, E, N, C: RawChan> Chan<Var<S<N>>, (P, E), C> where Var<N>: HasDual {
    /// Leaves the innermost recursion point, to jump one level further out.
    pub fn succ(self) -> (res: Chan<Var<N>, E, C>)
        ensures
            res.raw() == self.raw(),
    {
        Chan::from_raw(self.into_raw())
    }
}

/// The decision half of picking continuation `index` of a user-defined
/// choice: the index on the wire, counted from zero.
pub fn choice_step<R: Repr<u8>>(index: u8) -> (r: R)
    ensures
        <R as Repr<u8>>::message(&r) == Some(index),
{
    <R as Repr<u8>>::from(index)
}

/// The decision half of the offer of a user-defined choice among `arity`
/// continuations: the index of the continuation that the other side picked,
/// once the raw channel has delivered `received`.
pub fn choice_tag<R: Repr<u8>>(received: Result<R, Error>, arity: u8) -> (res: Result<u8, Error>)
    ensures
        res == choice_result::<R>(received, arity),
{
    let r = match received {
        Ok(r) => r,
        Err(_) => return Err(Error::RecvErr),
    };
    match <R as Repr<u8>>::try_into(r) {
        Ok(tag) => if tag < arity {
            Ok(tag)
        } else {
            Err(Error::ConvertErr)
        },
        Err(_) => Err(Error::ConvertErr),
    }
}

/// What one end sends, the other end receives: a frame that `send_step`
/// puts on the wire for `t`, once delivered, makes `recv_step` yield `t`.
pub proof fn lemma_sent_message_received<T, R: Repr<T>>(t: T, frame: R)
    requires
        <R as Repr<T>>::message(&frame) == Some(t),
    ensures
        recv_result::<T, R>(Ok(frame)) == Ok::<T, Error>(t),
{
}

/// A left choice is offered as the left branch: the frame that `left_step`
/// puts on the wire, once delivered, makes `offer_step` yield `Left`.
pub proof fn lemma_left_offered_as_left<R: Repr<bool>>(frame: R)
    requires
        <R as Repr<bool>>::message(&frame) == Some(false),
    ensures
        recv_result::<bool, R>(Ok(frame)) == Ok::<bool, Error>(false),
{
}

/// The flag `true` is offered as the right branch: a frame holding `true`,
/// once delivered, makes `offer_step` yield `Right`.
pub proof fn lemma_true_offered_as_right<R: Repr<bool>>(frame: R)
    requires
        <R as Repr<bool>>::message(&frame) == Some(true),
    ensures
        recv_result::<bool, R>(Ok(frame)) == Ok::<bool, Error>(true),
{
}

/// The continuation picked by index in a user-defined choice is the one
/// offered: a tag `i` below the arity, once delivered, makes `choice_tag`
/// yield `i`, and a tag at or above it is a `ConvertErr`.
pub proof fn lemma_choice_agreement<R: Repr<u8>>(i: u8, arity: u8, frame: R)
    requires
        <R as Repr<u8>>::message(&frame) == Some(i),
    ensures
        i < arity ==> choice_result::<R>(Ok(frame), arity) == Ok::<u8, Error>(i),
        i >= arity ==> choice_result::<R>(Ok(frame), arity) == Err::<u8, Error>(
            Error::ConvertErr,
        ),
{
}

/// A raw receive that fails is reported as `RecvErr`, whatever the raw
/// channel's own error was, by every receiving step.
pub proof fn lemma_failed_receive_is_recv_err<T, R: Repr<T>>(e: Error)
    ensures
        recv_result::<T, R>(Err(e)) == Err::<T, Error>(Error::RecvErr),
{
}

/// The offer of a user-defined choice on a receive that failed, whatever the
/// raw channel's error and whatever the arity, is a `RecvErr`: no
/// continuation is entered.
pub proof fn lemma_failed_choice_receive_is_recv_err<R: Repr<u8>>(e: Error, arity: u8)
    ensures
        choice_result::<R>(Err(e), arity) == Err::<u8, Error>(Error::RecvErr),
{
}

/// What the offer of a user-defined choice yields, for every delivery: a
/// failed receive is a `RecvErr`; a value that holds no tag is a
/// `ConvertErr`; a tag below the arity picks that continuation, and one at or
/// above it is a `ConvertErr`. It never picks a continuation the delivered
/// value does not name.
pub proof fn lemma_choice_result_cases<R: Repr<u8>>(received: Result<R, Error>, arity: u8)
    ensures
        received is Err ==> choice_result::<R>(received, arity) == Err::<u8, Error>(
            Error::RecvErr,
        ),
        received matches Ok(r) ==> (<R as Repr<u8>>::message(&r) is None ==> choice_result::<R>(
            received,
            arity,
        ) == Err::<u8, Error>(Error::ConvertErr)),
        received matches Ok(r) ==> (<R as Repr<u8>>::message(&r) matches Some(t) ==> (t < arity
            ==> choice_result::<R>(received, arity) == Ok::<u8, Error>(t))),
        received matches Ok(r) ==> (<R as Repr<u8>>::message(&r) matches Some(t) ==> (t >= arity
            ==> choice_result::<R>(received, arity) == Err::<u8, Error>(Error::ConvertErr))),
        choice_result::<R>(received, arity) matches Ok(t) ==> t < arity && (received matches Ok(
            r,
        ) && <R as Repr<u8>>::message(&r) == Some(t)),
{
}

/// What a receive yields, for every delivery: a failed receive is a
/// `RecvErr`, a value that holds no `T` is a `ConvertErr`, and a value that
/// holds `v` yields `v`. A receive succeeds only with the message the
/// delivered value holds.
pub proof fn lemma_recv_result_cases<T, R: Repr<T>>(received: Result<R, Error>)
    ensures
        received is Err ==> recv_result::<T, R>(received) == Err::<T, Error>(Error::RecvErr),
        received matches Ok(r) ==> (<R as Repr<T>>::message(&r) is None ==> recv_result::<T, R>(
            received,
        ) == Err::<T, Error>(Error::ConvertErr)),
        received matches Ok(r) ==> (<R as Repr<T>>::message(&r) matches Some(v)
            ==> recv_result::<T, R>(received) == Ok::<T, Error>(v)),
        recv_result::<T, R>(received) matches Ok(v) ==> (received matches Ok(r) && <R as Repr<
            T,
        >>::message(&r) == Some(v)),
{
}

} // verus!
