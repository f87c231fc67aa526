//! Generic session types for channels that carry every message in one common
//! representation.
use vstd::prelude::*;

mod session;
pub use session::{
    lemma_dual_involutive, lemma_dual_of_dual, lemma_dual_session, lemma_steps_keep_duality, Level, Choose, Close, DualOf, HasDual,
    IntoRaw, Offer, Protocol, Rec, Recv, Send, Session, Var, S, Z,
};

mod chan;
pub use chan::{
    choice_result, choice_step, choice_tag, lemma_choice_agreement, lemma_choice_result_cases,
    lemma_failed_choice_receive_is_recv_err, lemma_recv_result_cases, lemma_failed_receive_is_recv_err,
    lemma_left_offered_as_left, lemma_true_offered_as_right, lemma_sent_message_received,
    recv_result, Branch, Chan, Choose3, OfferExt, RawChan,
};

mod repr;
pub use repr::Repr;

verus! {

/// The ways a session operation can fail.
#[derive(Clone, PartialEq, Eq, PartialOrd, Ord, Hash, Debug, Structural)]
pub enum Error {
    SendErr,
    RecvErr,
    ConvertErr,
}

impl Error {
    /// The text that describes the error.
    pub open spec fn text(self) -> Seq<char> {
        match self {
            Error::SendErr => "send error"@,
            Error::RecvErr => "recv error"@,
            Error::ConvertErr => "repr convert error"@,
        }
    }

    /// The text that describes the error.
    pub fn to_string(&self) -> (s: String)
        ensures
            s@ == self.text(),
    {
        match self {
            Error::SendErr => "send error".to_owned(),
            Error::RecvErr => "recv error".to_owned(),
            Error::ConvertErr => "repr convert error".to_owned(),
        }
    }
}

} // verus!
