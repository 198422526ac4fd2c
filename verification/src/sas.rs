//! The steps of a verification by short authentication string (SAS): what
//! each change of the flow and each requested action leads to.
use vstd::prelude::*;

use crate::bridge::{emojis_into_chat, Emoji, VerificationSymbolSequence};
use crate::chat::{VerificationEndEvent, VerificationEndResult};

verus! {

/// The way the users compare their short authentication string.
#[derive(Debug, Clone, Copy, PartialEq, Eq, Structural)]
pub enum CrossSigningMethod {
    /// Emojis with their descriptions.
    SasSymbol,
    /// Three numbers.
    SasString,
}

impl CrossSigningMethod {
    /// The code of each way.
    pub open spec fn spec_code(self) -> i32 {
        match self {
            CrossSigningMethod::SasSymbol => 0,
            CrossSigningMethod::SasString => 1,
        }
    }

    /// The code of the way.
    pub fn to_i32(self) -> (c: i32)
        ensures
            c == self.spec_code(),
    {
        match self {
            CrossSigningMethod::SasSymbol => 0,
            CrossSigningMethod::SasString => 1,
        }
    }
}

/// The short authentication string shown to the user.
#[derive(Debug, PartialEq, Eq)]
pub enum VerificationCode {
    Symbols(VerificationSymbolSequence),
    StringCode(String),
}

/// The users agreed on a short authentication string to compare.
#[derive(Debug, PartialEq, Eq)]
pub struct CrossSigningMethodSelectedEvent {
    pub verification_flow_id: String,
    /// The code of the way the users compare.
    pub selected_method: i32,
    pub verification_code: Option<VerificationCode>,
}

/// The states of a verification flow.
pub enum SasState {
    Created,
    Started,
    Accepted,
    /// The keys were exchanged: the emojis where both sides support them,
    /// and the three numbers.
    KeysExchanged(Option<Vec<Emoji>>, u16, u16, u16),
    Confirmed,
    Done,
    Cancelled,
}

/// An action that the application asks of a running verification.
#[derive(Debug, Clone, Copy, PartialEq, Eq, Structural)]
pub enum VerificationAction {
    Cancel,
    Confirm,
    /// An action that this way of verifying does not take.
    Other,
}

/// What the verification does next.
#[derive(Debug, PartialEq, Eq)]
pub enum SasStep {
    /// Nothing; wait for the next change or action.
    Continue,
    /// Send the event to the application, then wait.
    Present(CrossSigningMethodSelectedEvent),
    /// Send the end event to the application and stop.
    End(VerificationEndEvent),
    /// Cancel the flow on the server, then send what `cancel_outcome` gives
    /// and stop.
    Cancel,
    /// Confirm the short authentication string on the server; on failure,
    /// send the error's end event and stop, else wait.
    Confirm,
    /// Stop.
    Stop,
}

/// The decimal digits of the number.
pub open spec fn decimal(n: nat) -> Seq<char>
    decreases n,
{
    if n < 10 {
        seq![digit_char(n)]
    } else {
        decimal(n / 10).push(digit_char(n % 10))
    }
}

/// The character of a digit.
pub open spec fn digit_char(d: nat) -> char {
    if d == 0 {
        '0'
    } else if d == 1 {
        '1'
    } else if d == 2 {
        '2'
    } else if d == 3 {
        '3'
    } else if d == 4 {
        '4'
    } else if d == 5 {
        '5'
    } else if d == 6 {
        '6'
    } else if d == 7 {
        '7'
    } else if d == 8 {
        '8'
    } else {
        '9'
    }
}

/// The string of one digit.
fn digit_str(d: u16) -> (r: &'static str)
    requires
        d < 10,
    ensures
        r@ == seq![digit_char(d as nat)],
{
    proof {
        reveal_strlit("0");
        reveal_strlit("1");
        reveal_strlit("2");
        reveal_strlit("3");
        reveal_strlit("4");
        reveal_strlit("5");
        reveal_strlit("6");
        reveal_strlit("7");
        reveal_strlit("8");
        reveal_strlit("9");
    }
    if d == 0 {
        "0"
    } else if d == 1 {
        "1"
    } else if d == 2 {
        "2"
    } else if d == 3 {
        "3"
    } else if d == 4 {
        "4"
    } else if d == 5 {
        "5"
    } else if d == 6 {
        "6"
    } else if d == 7 {
        "7"
    } else if d == 8 {
        "8"
    } else {
        "9"
    }
}

/// Appends the decimal digits of the number.
fn append_decimal(s: &mut String, n: u16)
    ensures
        final(s)@ == old(s)@ + decimal(n as nat),
    decreases n,
{
    if n < 10 {
        s.append(digit_str(n));
    } else {
        append_decimal(s, n / 10);
        s.append(digit_str(n % 10));
        proof {
            assert(old(s)@ + decimal((n / 10) as nat) + seq![digit_char((n % 10) as nat)] =~= old(s)@ + decimal(
                n as nat,
            ));
        }
    }
}

/// The three numbers of a short authentication string, separated by
/// spaces.
pub open spec fn decimals_text(a: u16, b: u16, c: u16) -> Seq<char> {
    decimal(a as nat) + seq![' '] + decimal(b as nat) + seq![' '] + decimal(c as nat)
}

/// The three numbers of a short authentication string, separated by
/// spaces.
pub fn decimals_string(a: u16, b: u16, c: u16) -> (r: String)
    ensures
        r@ == decimals_text(a, b, c),
{
    let mut s = String::new();
    append_decimal(&mut s, a);
    s.append(" ");
    append_decimal(&mut s, b);
    s.append(" ");
    append_decimal(&mut s, c);
    proof {
        reveal_strlit(" ");
        assert(s@ =~= decimals_text(a, b, c));
    }
    s
}

/// Whether the event presents the short authentication string of the flow:
/// the emojis, each with its description, where there are any, else the
/// three numbers.
pub open spec fn sas_presented(
    e: CrossSigningMethodSelectedEvent,
    flow_id: String,
    emojis: Option<Vec<Emoji>>,
    a: u16,
    b: u16,
    c: u16,
) -> bool {
    &&& e.verification_flow_id == flow_id
    &&& match emojis {
        Some(es) => {
            &&& e.selected_method == CrossSigningMethod::SasSymbol.spec_code()
            &&& e.verification_code matches Some(VerificationCode::Symbols(seq))
            &&& seq.symbols@.len() == es@.len()
            &&& forall|i: int|
                0 <= i < es@.len() ==> {
                    &&& #[trigger] seq.symbols@[i].symbol@ == es@[i].symbol@
                    &&& seq.symbols@[i].description matches Some(d) && d@ == es@[i].description@
                }
        },
        None => {
            &&& e.selected_method == CrossSigningMethod::SasString.spec_code()
            &&& e.verification_code matches Some(VerificationCode::StringCode(t))
            &&& t@ == decimals_text(a, b, c)
        },
    }
}

/// The event that presents the short authentication string: the emojis
/// where there are any, else the three numbers.
pub fn present_sas(flow_id: String, emojis: Option<Vec<Emoji>>, a: u16, b: u16, c: u16) -> (r: CrossSigningMethodSelectedEvent)
    ensures
        sas_presented(r, flow_id, emojis, a, b, c),
{
    match emojis {
        Some(es) => {
            let symbols = emojis_into_chat(es.as_slice());
            CrossSigningMethodSelectedEvent {
                verification_flow_id: flow_id,
                selected_method: CrossSigningMethod::SasSymbol.to_i32(),
                verification_code: Some(VerificationCode::Symbols(symbols)),
            }
        },
        None => CrossSigningMethodSelectedEvent {
            verification_flow_id: flow_id,
            selected_method: CrossSigningMethod::SasString.to_i32(),
            verification_code: Some(VerificationCode::StringCode(decimals_string(a, b, c))),
        },
    }
}

/// The end event of the flow, successful or not.
pub fn verification_end_event(flow_id: String, successful: bool) -> (r: VerificationEndEvent)
    ensures
        r.verification_flow_id == Some(flow_id),
        r.result == Some(VerificationEndResult::Successful(successful)),
{
    VerificationEndEvent {
        verification_flow_id: Some(flow_id),
        result: Some(VerificationEndResult::Successful(successful)),
    }
}

/// What a change of the flow leads to: presenting the string once keys are
/// exchanged, a successful end once done, an unsuccessful one once
/// cancelled, and waiting otherwise.
pub fn process_state_change(flow_id: String, state: SasState) -> (r: SasStep)
    ensures
        match state {
            SasState::KeysExchanged(emojis, a, b, c) => r matches SasStep::Present(e) && sas_presented(
                e,
                flow_id,
                emojis,
                a,
                b,
                c,
            ),
            SasState::Done => r == SasStep::End(
                VerificationEndEvent {
                    verification_flow_id: Some(flow_id),
                    result: Some(VerificationEndResult::Successful(true)),
                },
            ),
            SasState::Cancelled => r == SasStep::End(
                VerificationEndEvent {
                    verification_flow_id: Some(flow_id),
                    result: Some(VerificationEndResult::Successful(false)),
                },
            ),
            _ => r == SasStep::Continue,
        },
{
    match state {
        SasState::KeysExchanged(emojis, a, b, c) => SasStep::Present(present_sas(flow_id, emojis, a, b, c)),
        SasState::Done => SasStep::End(verification_end_event(flow_id, true)),
        SasState::Cancelled => SasStep::End(verification_end_event(flow_id, false)),
        _ => SasStep::Continue,
    }
}

/// What an action of the application leads to; a closed channel of actions
/// stops the flow.
pub fn process_action(action: Option<VerificationAction>) -> (r: SasStep)
    ensures
        match action {
            None => r == SasStep::Stop,
            Some(VerificationAction::Cancel) => r == SasStep::Cancel,
            Some(VerificationAction::Confirm) => r == SasStep::Confirm,
            Some(VerificationAction::Other) => r == SasStep::Continue,
        },
{
    match action {
        None => SasStep::Stop,
        Some(VerificationAction::Cancel) => SasStep::Cancel,
        Some(VerificationAction::Confirm) => SasStep::Confirm,
        Some(VerificationAction::Other) => SasStep::Continue,
    }
}

/// The end event after cancelling on the server succeeded: an unsuccessful
/// end.
pub fn cancel_outcome(flow_id: String) -> (r: VerificationEndEvent)
    ensures
        r.verification_flow_id == Some(flow_id),
        r.result == Some(VerificationEndResult::Successful(false)),
{
    verification_end_event(flow_id, false)
}

} // verus!
