//! Market questions, their resolutions, and the payout invariants.

use crate::text::{decimal_text, digits_of};
use vstd::prelude::*;
use vstd::string::StringExecFns;

verus! {

/// A market question as published, with its provenance.
#[derive(Debug)]
pub struct QuestionTestament {
    pub question: String,
    pub oracle: String,
    pub description: String,
    pub results: Vec<String>,
    pub generated_at: String,
    pub is_scalar: bool,
}

/// The part of a question that is sent on for resolution.
#[derive(Debug)]
pub struct QuestionInfo {
    pub question: String,
    pub description: String,
    pub results: Vec<String>,
    pub is_scalar: bool,
}

/// The resolution of a question: one payout entry per outcome, in the order
/// of the question's outcome labels. An entry is a weight, any number from
/// zero up.
#[derive(Debug)]
pub struct QuestionResponse {
    pub answer: String,
    pub explanation: String,
    pub payout_vector: Vec<u64>,
    pub valid: bool,
}

/// What a [`QuestionResponse`] holds, as mathematical values.
pub struct Resolution {
    pub answer: Seq<char>,
    pub explanation: Seq<char>,
    pub payout_vector: Seq<u64>,
    pub valid: bool,
}

impl View for QuestionResponse {
    type V = Resolution;

    open spec fn view(&self) -> Resolution {
        Resolution {
            answer: self.answer@,
            explanation: self.explanation@,
            payout_vector: self.payout_vector@,
            valid: self.valid,
        }
    }
}

/// The labels of a list of outcomes, as mathematical values.
pub open spec fn labels(results: Seq<String>) -> Seq<Seq<char>> {
    results.map_values(|s: String| s@)
}

/// What a [`QuestionInfo`] holds, as mathematical values.
pub struct Request {
    pub question: Seq<char>,
    pub description: Seq<char>,
    pub results: Seq<Seq<char>>,
    pub is_scalar: bool,
}

impl View for QuestionInfo {
    type V = Request;

    open spec fn view(&self) -> Request {
        Request {
            question: self.question@,
            description: self.description@,
            results: labels(self.results@),
            is_scalar: self.is_scalar,
        }
    }
}

impl QuestionTestament {
    /// The request that this question gives: its text, description, outcome
    /// labels and scalar flag, without the oracle and the timestamp.
    pub open spec fn request(&self) -> Request {
        Request {
            question: self.question@,
            description: self.description@,
            results: labels(self.results@),
            is_scalar: self.is_scalar,
        }
    }

    /// Strips the provenance and keeps what resolution needs.
    pub fn into_info(self) -> (info: QuestionInfo)
        ensures
            info@ == self.request(),
    {
        QuestionInfo {
            question: self.question,
            description: self.description,
            results: self.results,
            is_scalar: self.is_scalar,
        }
    }
}

impl QuestionInfo {
    /// The number of outcomes of the question.
    pub fn outcome_count(&self) -> (n: usize)
        ensures
            n == self@.results.len(),
    {
        self.results.len()
    }
}

/// Why a payout vector was refused.
#[derive(Debug, Clone, Copy, PartialEq, Eq, Structural)]
pub enum PayoutError {
    /// The vector does not have one entry per outcome.
    LengthMismatch { actual: usize, expected: usize },
    /// The resolution is marked not valid, and some entry is not `1`.
    CancelPayoutNotUniform,
}

/// What is said of a payout vector of the wrong length: before the length,
/// between the two lengths, and after the number of outcomes.
pub const LENGTH_MISMATCH_HEAD: &'static str = "Payout vector length (";

pub const LENGTH_MISMATCH_MID: &'static str = ") does not match results length (";

pub const LENGTH_MISMATCH_TAIL: &'static str = ")";

/// What is said of a cancellation that does not pay `1` to every outcome.
pub const NOT_UNIFORM: &'static str =
    "Invalid response: valid is false but payout_vector is not all ones";

impl PayoutError {
    /// The error in words. The lengths stand in decimal.
    pub open spec fn text(self) -> Seq<char> {
        match self {
            PayoutError::LengthMismatch { actual, expected } => LENGTH_MISMATCH_HEAD@ + digits_of(
                actual as nat,
            ) + LENGTH_MISMATCH_MID@ + digits_of(expected as nat) + LENGTH_MISMATCH_TAIL@,
            PayoutError::CancelPayoutNotUniform => NOT_UNIFORM@,
        }
    }

    /// Says the error in words.
    pub fn message(&self) -> (message: String)
        ensures
            message@ == self.text(),
    {
        match self {
            PayoutError::LengthMismatch { actual, expected } => {
                let mut message = LENGTH_MISMATCH_HEAD.to_owned();
                message.append(decimal_text(*actual as u64).as_str());
                message.append(LENGTH_MISMATCH_MID);
                message.append(decimal_text(*expected as u64).as_str());
                message.append(LENGTH_MISMATCH_TAIL);
                message
            },
            PayoutError::CancelPayoutNotUniform => NOT_UNIFORM.to_owned(),
        }
    }
}

/// Every entry of `payout` is `1`.
pub open spec fn all_ones(payout: Seq<u64>) -> bool {
    forall|i: int| 0 <= i < payout.len() ==> payout[i] == 1
}

/// The payout vector that cancels a question of `n` outcomes.
pub open spec fn cancellation(n: nat) -> Seq<u64> {
    Seq::new(n, |i: int| 1u64)
}

/// The first payout invariant that `r` breaks for a question of `expected`
/// outcomes, if it breaks one. The length is looked at first.
pub open spec fn payout_fault(r: Resolution, expected: usize) -> Option<PayoutError> {
    if r.payout_vector.len() != expected {
        Some(
            PayoutError::LengthMismatch {
                actual: r.payout_vector.len() as usize,
                expected,
            },
        )
    } else if !r.valid && !all_ones(r.payout_vector) {
        Some(PayoutError::CancelPayoutNotUniform)
    } else {
        None
    }
}

/// `r` is a resolution that may be released for a question of `expected`
/// outcomes.
pub open spec fn accepted(r: Resolution, expected: usize) -> bool {
    payout_fault(r, expected) is None
}

/// Whether every entry of `payout` is `1`.
pub fn is_all_ones(payout: &Vec<u64>) -> (uniform: bool)
    ensures
        uniform == all_ones(payout@),
{
    let mut i: usize = 0;
    while i < payout.len()
        invariant
            i <= payout.len(),
            forall|j: int| 0 <= j < i ==> payout@[j] == 1,
        decreases payout.len() - i,
    {
        if payout[i] != 1 {
            return false;
        }
        i += 1;
    }
    true
}

/// Builds the payout vector that cancels a question of `n` outcomes.
pub fn cancel_payout(n: usize) -> (payout: Vec<u64>)
    ensures
        payout@ == cancellation(n as nat),
{
    let mut payout: Vec<u64> = Vec::new();
    let mut i: usize = 0;
    while i < n
        invariant
            i <= n,
            payout@.len() == i,
            forall|j: int| 0 <= j < i ==> payout@[j] == 1,
        decreases n - i,
    {
        payout.push(1u64);
        i += 1;
    }
    payout
}

impl QuestionResponse {
    /// Checks the payout invariants for a question of `expected` outcomes:
    /// the vector has one entry per outcome, and a resolution that is not
    /// valid pays `1` to every outcome.
    pub fn check_payout(&self, expected: usize) -> (verdict: Result<(), PayoutError>)
        ensures
            verdict is Ok <==> accepted(self@, expected),
            verdict matches Err(e) ==> payout_fault(self@, expected) == Some(e),
            verdict is Ok ==> self@.payout_vector.len() == expected,
            verdict is Ok && !self.valid ==> all_ones(self@.payout_vector),
    {
        if self.payout_vector.len() != expected {
            return Err(
                PayoutError::LengthMismatch { actual: self.payout_vector.len(), expected },
            );
        }
        if !self.valid && !is_all_ones(&self.payout_vector) {
            return Err(PayoutError::CancelPayoutNotUniform);
        }
        Ok(())
    }
}

/// An accepted resolution has one payout entry per outcome.
pub proof fn lemma_accepted_length(r: Resolution, expected: usize)
    requires
        accepted(r, expected),
    ensures
        r.payout_vector.len() == expected,
{
}

/// An accepted resolution that is not valid pays exactly `1` to every
/// outcome.
pub proof fn lemma_accepted_cancellation(r: Resolution, expected: usize)
    requires
        accepted(r, expected),
        !r.valid,
    ensures
        r.payout_vector == cancellation(expected as nat),
        forall|i: int| 0 <= i < expected ==> r.payout_vector[i] == 1,
{
    assert(r.payout_vector =~= cancellation(expected as nat));
}

} // verus!
