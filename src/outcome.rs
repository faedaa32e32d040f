//! The outcome of one verification call and the lines that report it.
use vstd::prelude::*;
use crate::classify::{classified, extract_error_message};

verus! {

/// Stands for a fault whose payload carried no text.
pub const NO_PAYLOAD_TEXT: &'static str = "Unknown panic occurred during verification";

/// Printed when the proof is accepted.
pub const SUCCESS_BANNER: &'static str = "\u{2705} VERIFICATION SUCCESSFUL: The Solana consensus proof is valid!";

/// Printed when the proof is refused or the verifier faults.
pub const FAILURE_BANNER: &'static str = "\u{274c} VERIFICATION FAILED: The Solana consensus proof is invalid.";

/// Put before the reason of a failure.
pub const ERROR_PREFIX: &'static str = "Error: ";

/// Heads the raw text of a fault.
pub const DETAIL_HEADING: &'static str = "\nDetailed error information (for debugging):";

/// What one call of the verifier came to.
#[derive(Debug)]
pub enum Outcome {
    /// The proof checked out under the key.
    Verified,
    /// The verifier refused the proof, with its error text.
    Rejected(String),
    /// The verifier faulted, with the fault's text.
    InternalFault(String),
}

/// The text of a fault: the payload's own text when it had one.
pub open spec fn fault_text_of(payload: Option<Seq<char>>) -> Seq<char> {
    match payload {
        Some(s) => s,
        None => NO_PAYLOAD_TEXT@,
    }
}

/// The view of an optional payload text.
pub open spec fn payload_view(payload: Option<String>) -> Option<Seq<char>> {
    match payload {
        Some(s) => Some(s@),
        None => None,
    }
}

/// The text of a fault whose payload is `payload` (`None` where it carried no
/// text).
pub fn fault_text(payload: Option<String>) -> (r: String)
    ensures
        r@ == fault_text_of(payload_view(payload)),
{
    match payload {
        Some(s) => s,
        None => String::from_str(NO_PAYLOAD_TEXT),
    }
}

impl Outcome {
    /// The outcome of a call that either returned (`Ok`, with the verifier's
    /// own result and its error text) or faulted (`Err`, with the fault's
    /// payload text if it had one).
    pub fn from_call(call: Result<Result<(), String>, Option<String>>) -> (o: Outcome)
        ensures
            match call {
                Ok(Ok(())) => o is Verified,
                Ok(Err(e)) => o is Rejected && o->Rejected_0@ == e@,
                Err(p) => o is InternalFault && o->InternalFault_0@ == fault_text_of(
                    payload_view(p),
                ),
            },
    {
        match call {
            Ok(Ok(())) => Outcome::Verified,
            Ok(Err(e)) => Outcome::Rejected(e),
            Err(p) => Outcome::InternalFault(fault_text(p)),
        }
    }

    /// Whether the proof was accepted.
    pub fn is_verified(&self) -> (r: bool)
        ensures
            r == self is Verified,
    {
        match self {
            Outcome::Verified => true,
            _ => false,
        }
    }

    /// The lines that report this outcome, in the order they are printed.
    pub open spec fn report_spec(self) -> Seq<Seq<char>> {
        match self {
            Outcome::Verified => seq![SUCCESS_BANNER@],
            Outcome::Rejected(e) => seq![FAILURE_BANNER@, ERROR_PREFIX@ + e@],
            Outcome::InternalFault(raw) => seq![
                FAILURE_BANNER@,
                ERROR_PREFIX@ + classified(raw@),
                DETAIL_HEADING@,
                raw@,
            ],
        }
    }

    /// The lines that report this outcome: a banner, then for a failure the
    /// reason, and for a fault also its raw text.
    pub fn report_lines(&self) -> (r: Vec<String>)
        ensures
            r@.map_values(|l: String| l@) == self.report_spec(),
    {
        let mut r: Vec<String> = Vec::new();
        match self {
            Outcome::Verified => {
                r.push(String::from_str(SUCCESS_BANNER));
            },
            Outcome::Rejected(e) => {
                r.push(String::from_str(FAILURE_BANNER));
                r.push(String::from_str(ERROR_PREFIX).concat(e.as_str()));
            },
            Outcome::InternalFault(raw) => {
                let friendly = extract_error_message(raw.as_str());
                r.push(String::from_str(FAILURE_BANNER));
                r.push(String::from_str(ERROR_PREFIX).concat(friendly.as_str()));
                r.push(String::from_str(DETAIL_HEADING));
                r.push(raw.clone());
            },
        }
        proof {
            assert(r@.map_values(|l: String| l@) =~= self.report_spec());
        }
        r
    }
}

} // verus!
