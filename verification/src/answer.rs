//! The reply to a login-phase custom query.

use vstd::prelude::*;

verus! {

/// Payload byte of an answer that reports a successful authentication.
pub const ANSWER_SUCCESS: u8 = 1;

/// Payload byte of an answer that reports a failed authentication.
pub const ANSWER_FAILURE: u8 = 0;

/// A login-phase custom-query answer, keyed by the transaction id of the
/// query it replies to.
#[derive(Clone, Debug, PartialEq, Eq)]
pub struct CustomQueryAnswer {
    pub transaction_id: u32,
    pub data: Option<Vec<u8>>,
}

/// What an answer holds.
pub struct AnswerView {
    pub transaction_id: u32,
    pub data: Option<Seq<u8>>,
}

impl View for CustomQueryAnswer {
    type V = AnswerView;

    open spec fn view(&self) -> AnswerView {
        AnswerView {
            transaction_id: self.transaction_id,
            data: match self.data {
                Some(data) => Some(data@),
                None => None,
            },
        }
    }
}

/// What an answer holds, where there is one.
pub open spec fn view_of(answer: Option<CustomQueryAnswer>) -> Option<AnswerView> {
    match answer {
        Some(packet) => Some(packet@),
        None => None,
    }
}

/// The payload that encodes the outcome of a join: a single byte.
pub open spec fn answer_payload(success: bool) -> Seq<u8> {
    if success {
        seq![ANSWER_SUCCESS]
    } else {
        seq![ANSWER_FAILURE]
    }
}

/// The answer to the query `transaction_id` that reports `success`.
pub open spec fn answer_to(transaction_id: u32, success: bool) -> AnswerView {
    AnswerView { transaction_id, data: Some(answer_payload(success)) }
}

/// Builds the answer to the query `transaction_id` that reports `success`.
pub fn build_custom_query_answer(transaction_id: u32, success: bool) -> (answer: CustomQueryAnswer)
    ensures
        answer@ == answer_to(transaction_id, success),
{
    let mut data: Vec<u8> = Vec::new();
    if success {
        data.push(ANSWER_SUCCESS);
    } else {
        data.push(ANSWER_FAILURE);
    }
    assert(data@ =~= answer_payload(success));
    CustomQueryAnswer { transaction_id, data: Some(data) }
}

impl CustomQueryAnswer {
    /// Whether the answer reports a successful authentication: its payload is
    /// the single success byte.
    pub fn reports_success(&self) -> (success: bool)
        ensures
            success == (self@.data == Some(answer_payload(true))),
    {
        match &self.data {
            Some(data) => {
                let is_success = data.len() == 1 && data[0] == ANSWER_SUCCESS;
                proof {
                    if is_success {
                        assert(data@ =~= answer_payload(true));
                    } else {
                        assert(answer_payload(true).len() == 1);
                        assert(answer_payload(true)[0] == ANSWER_SUCCESS);
                    }
                }
                is_success
            },
            None => false,
        }
    }
}

} // verus!
