//! Session types: the protocol constructors, their duals, and a mathematical
//! model of a protocol's shape in which duality is proved to be an involution.
use std::marker::PhantomData;
use vstd::prelude::*;

verus! {

/// The shape of a session type: who sends next, which side picks a branch,
/// and where the protocol loops. Message types are carried by the Rust types
/// themselves and are not part of the shape.
pub enum Session {
    /// The session ends.
    Close,
    /// The session ends and the raw channel is handed back.
    IntoRaw,
    /// Receive a message, then continue.
    Recv(Box<Session>),
    /// Send a message, then continue.
    Send(Box<Session>),
    /// This side picks one of two continuations.
    Choose(Box<Session>, Box<Session>),
    /// The other side picks one of two continuations.
    Offer(Box<Session>, Box<Session>),
    /// A recursion point.
    Rec(Box<Session>),
    /// A jump back to the enclosing recursion point that many levels out.
    Var(nat),
}

impl Session {
    /// The protocol seen from the other end: every send becomes a receive and
    /// every choice an offer, and the other way round.
    pub open spec fn dual(self) -> Session
        decreases self,
    {
        match self {
            Session::Close => Session::Close,
            Session::IntoRaw => Session::IntoRaw,
            Session::Recv(p) => Session::Send(Box::new(p.dual())),
            Session::Send(p) => Session::Recv(Box::new(p.dual())),
            Session::Choose(p, q) => Session::Offer(Box::new(p.dual()), Box::new(q.dual())),
            Session::Offer(p, q) => Session::Choose(Box::new(p.dual()), Box::new(q.dual())),
            Session::Rec(p) => Session::Rec(Box::new(p.dual())),
            Session::Var(n) => Session::Var(n),
        }
    }
}

/// Duality is an involution: the dual of the dual of a protocol is the
/// protocol itself.
pub proof fn lemma_dual_involutive(s: Session)
    ensures
        s.dual().dual() == s,
    decreases s,
{
    match s {
        Session::Recv(p) => lemma_dual_involutive(*p),
        Session::Send(p) => lemma_dual_involutive(*p),
        Session::Choose(p, q) => {
            lemma_dual_involutive(*p);
            lemma_dual_involutive(*q);
        },
        Session::Offer(p, q) => {
            lemma_dual_involutive(*p);
            lemma_dual_involutive(*q);
        },
        Session::Rec(p) => lemma_dual_involutive(*p),
        _ => {},
    }
}

/// Ends the session.
pub struct Close;

/// Ends the session and hands the raw channel back.
pub struct IntoRaw;

/// Receive a `T`, then continue with `P`.
pub struct Recv<T, P>(PhantomData<(T, P)>);

/// Send a `T`, then continue with `P`.
pub struct Send<T, P>(PhantomData<(T, P)>);

/// Pick `P` or `Q` and tell the other side.
pub struct Choose<P, Q>(PhantomData<(P, Q)>);

/// Let the other side pick `P` or `Q`.
pub struct Offer<P, Q>(PhantomData<(P, Q)>);

/// A recursion point whose body is `P`.
pub struct Rec<P>(PhantomData<P>);

/// A jump to the recursion point `N` levels up.
pub struct Var<N>(PhantomData<N>);

/// The level zero.
pub struct Z;

/// The level after `N`.
pub struct S<N>(PhantomData<N>);

/// A recursion level: `Z`, or `S` of a level.
pub trait Level {
    /// How many levels out the jump goes.
    spec fn level() -> nat;
}

impl Level for Z {
    open spec fn level() -> nat {
        0
    }
}

impl<N: Level> Level for S<N> {
    open spec fn level() -> nat {
        N::level() + 1
    }
}

/// A session type together with the session type of the other end.
pub trait HasDual {
    /// The session type of the other end.
    type Dual;
}

/// A session type whose shape is known, built from the constructors of this
/// module.
pub trait Protocol: HasDual {
    /// The shape of this session type.
    spec fn session() -> Session;
}

/// `D` is the session type of the other end of `Self`: its shape is the dual
/// of `Self`'s.
pub trait DualOf<D: Protocol>: Protocol {
    proof fn lemma_dual_of()
        ensures
            D::session() == Self::session().dual(),
    ;
}

impl HasDual for Close {
    type Dual = Close;
}

impl Protocol for Close {
    open spec fn session() -> Session {
        Session::Close
    }
}

impl DualOf<Close> for Close {
    proof fn lemma_dual_of() {
    }
}

impl HasDual for IntoRaw {
    type Dual = IntoRaw;
}

impl Protocol for IntoRaw {
    open spec fn session() -> Session {
        Session::IntoRaw
    }
}

impl DualOf<IntoRaw> for IntoRaw {
    proof fn lemma_dual_of() {
    }
}

impl<T, P: HasDual> HasDual for Recv<T, P> {
    type Dual = Send<T, P::Dual>;
}

impl<T, P: Protocol> Protocol for Recv<T, P> {
    open spec fn session() -> Session {
        Session::Recv(Box::new(P::session()))
    }
}

impl<T, P: DualOf<PD>, PD: Protocol> DualOf<Send<T, PD>> for Recv<T, P> {
    proof fn lemma_dual_of() {
        P::lemma_dual_of();
    }
}

impl<T, P: HasDual> HasDual for Send<T, P> {
    type Dual = Recv<T, P::Dual>;
}

impl<T, P: Protocol> Protocol for Send<T, P> {
    open spec fn session() -> Session {
        Session::Send(Box::new(P::session()))
    }
}

impl<T, P: DualOf<PD>, PD: Protocol> DualOf<Recv<T, PD>> for Send<T, P> {
    proof fn lemma_dual_of() {
        P::lemma_dual_of();
    }
}

impl<P: HasDual, Q: HasDual> HasDual for Choose<P, Q> {
    type Dual = Offer<P::Dual, Q::Dual>;
}

impl<P: Protocol, Q: Protocol> Protocol for Choose<P, Q> {
    open spec fn session() -> Session {
        Session::Choose(Box::new(P::session()), Box::new(Q::session()))
    }
}

impl<P: DualOf<PD>, Q: DualOf<QD>, PD: Protocol, QD: Protocol> DualOf<Offer<PD, QD>> for Choose<
    P,
    Q,
> {
    proof fn lemma_dual_of() {
        P::lemma_dual_of();
        Q::lemma_dual_of();
    }
}

impl<P: HasDual, Q: HasDual> HasDual for Offer<P, Q> {
    type Dual = Choose<P::Dual, Q::Dual>;
}

impl<P: Protocol, Q: Protocol> Protocol for Offer<P, Q> {
    open spec fn session() -> Session {
        Session::Offer(Box::new(P::session()), Box::new(Q::session()))
    }
}

impl<P: DualOf<PD>, Q: DualOf<QD>, PD: Protocol, QD: Protocol> DualOf<Choose<PD, QD>> for Offer<
    P,
    Q,
> {
    proof fn lemma_dual_of() {
        P::lemma_dual_of();
        Q::lemma_dual_of();
    }
}

impl HasDual for Var<Z> {
    type Dual = Var<Z>;
}

impl Protocol for Var<Z> {
    open spec fn session() -> Session {
        Session::Var(Z::level())
    }
}

impl DualOf<Var<Z>> for Var<Z> {
    proof fn lemma_dual_of() {
    }
}

impl<N> HasDual for Var<S<N>> {
    type Dual = Var<S<N>>;
}

impl<N: Level> Protocol for Var<S<N>> {
    open spec fn session() -> Session {
        Session::Var(S::<N>::level())
    }
}

impl<N: Level> DualOf<Var<S<N>>> for Var<S<N>> {
    proof fn lemma_dual_of() {
    }
}

impl<P: HasDual> HasDual for Rec<P> {
    type Dual = Rec<P::Dual>;
}

impl<P: Protocol> Protocol for Rec<P> {
    open spec fn session() -> Session {
        Session::Rec(Box::new(P::session()))
    }
}

impl<P: DualOf<PD>, PD: Protocol> DualOf<Rec<PD>> for Rec<P> {
    proof fn lemma_dual_of() {
        P::lemma_dual_of();
    }
}

/// Every matching pair of steps keeps the two ends dual: when one end's
/// shape is the dual of the other's, then after a send and its receive, a
/// choice and its offer (in either branch), or entering a recursion point on
/// both sides, the shapes the two ends go on with are again dual; a jump
/// goes to the same level on both sides, and both ends close together.
pub proof fn lemma_steps_keep_duality(s: Session, d: Session)
    requires
        d == s.dual(),
    ensures
        s matches Session::Send(p) ==> d matches Session::Recv(q) && *q == p.dual(),
        s matches Session::Recv(p) ==> d matches Session::Send(q) && *q == p.dual(),
        s matches Session::Choose(p1, p2) ==> d matches Session::Offer(q1, q2) && *q1 == p1.dual()
            && *q2 == p2.dual(),
        s matches Session::Offer(p1, p2) ==> d matches Session::Choose(q1, q2) && *q1 == p1.dual()
            && *q2 == p2.dual(),
        s matches Session::Rec(p) ==> d matches Session::Rec(q) && *q == p.dual(),
        s matches Session::Var(n) ==> d == Session::Var(n),
        s == Session::Close ==> d == Session::Close,
        s == Session::IntoRaw ==> d == Session::IntoRaw,
{
}

/// The other end of a session type has the dual shape: for every session
/// type `P` built from this module's constructors, the shape of
/// `P::Dual` is the dual of the shape of `P`.
pub proof fn lemma_dual_session<P: DualOf<<P as HasDual>::Dual>>()
    where
        <P as HasDual>::Dual: Protocol,
    ensures
        <<P as HasDual>::Dual as Protocol>::session() == P::session().dual(),
{
    P::lemma_dual_of();
}

/// Taking the other end twice gives back the session type one started from:
/// the dual of the shape of `P::Dual` is the shape of `P` itself.
pub proof fn lemma_dual_of_dual<P: DualOf<<P as HasDual>::Dual>>()
    where
        <P as HasDual>::Dual: Protocol,
    ensures
        <<P as HasDual>::Dual as Protocol>::session().dual() == P::session(),
{
    P::lemma_dual_of();
    lemma_dual_involutive(P::session());
}

} // verus!
