//! The outcome of one position computation.
//!
//! The engine answers a computation with a return code, six numbers and a
//! message buffer. Numbers travel through this library as the bit patterns
//! of IEEE 754 double-precision values: they are moved, never computed on.

use vstd::prelude::*;
use vstd::string::StringExecFns;
use vstd::utf8::{decode_utf8, valid_utf8};
use crate::swiss_ephm::body::Body;
use crate::swiss_ephm::lifecycle::{assert_ephe_ready, Ephemeris, Phase};
use crate::swiss_ephm::text::{append_decimal, decimal, decoded_text, logical_content};

verus! {

/// Position and velocity of a body, three components each. Units and frame
/// follow from the flags of the computation.
#[derive(Clone, Debug, PartialEq, Eq)]
pub struct BodyResult {
    /// The position of the body.
    pub pos: Vec<u64>,
    /// The velocity of the body.
    pub vel: Vec<u64>,
}

/// Obliquity of the ecliptic and nutation, four angles.
#[derive(Clone, Debug, PartialEq, Eq)]
pub struct EclipticAndNutationResult {
    pub ecliptic_true_obliquity: u64,
    pub ecliptic_mean_obliquity: u64,
    pub nutation_lng: u64,
    pub nutation_obliquity: u64,
}

/// What a successful computation yields: one shape for the bodies, another
/// for the ecliptic and nutation pseudo-body.
#[derive(Clone, Debug, PartialEq, Eq)]
pub enum CalculationResult {
    Body(BodyResult),
    EclipticAndNutation(EclipticAndNutationResult),
}

/// A computation that the engine refused, with the engine's own code and
/// message.
#[derive(Clone, Debug, PartialEq, Eq)]
pub struct CalculationError {
    /// The engine's return code.
    pub code: i32,
    /// The engine's message.
    pub msg: String,
}

/// Whether `result` is the body result that the engine's six numbers stand
/// for: the first three are the position, the last three the velocity.
pub open spec fn is_body_result(result: CalculationResult, out: Seq<u64>) -> bool {
    &&& result matches CalculationResult::Body(b)
    &&& b.pos@ == out.subrange(0, 3)
    &&& b.vel@ == out.subrange(3, 6)
}

/// Whether `result` is the ecliptic and nutation result that the engine's
/// numbers stand for: the first four are the angles, in the order of the
/// fields.
pub open spec fn is_ecliptic_result(result: CalculationResult, out: Seq<u64>) -> bool {
    &&& result matches CalculationResult::EclipticAndNutation(e)
    &&& e.ecliptic_true_obliquity == out[0]
    &&& e.ecliptic_mean_obliquity == out[1]
    &&& e.nutation_lng == out[2]
    &&& e.nutation_obliquity == out[3]
}

/// Whether `outcome` is what the engine's reply stands for.
///
/// A zero code is a success, and the body that was asked for selects the
/// shape of the result. Any other code is a failure that carries the code
/// and the message, and nothing of the numbers.
pub open spec fn is_outcome(
    outcome: Result<CalculationResult, CalculationError>,
    body: Body,
    code: i32,
    out: Seq<u64>,
    message: Seq<char>,
) -> bool {
    if code == 0 {
        &&& outcome matches Ok(result)
        &&& if body == Body::EclipticNutation {
            is_ecliptic_result(result, out)
        } else {
            is_body_result(result, out)
        }
    } else {
        &&& outcome matches Err(e)
        &&& e.code == code
        &&& e.msg@ == message
    }
}

/// The shape of an outcome is decided by the code and the body alone: a
/// success for a body holds three position and three velocity values, a
/// success for the ecliptic and nutation pseudo-body holds the four angles,
/// and a failure holds no result at all.
pub proof fn outcome_shape(
    outcome: Result<CalculationResult, CalculationError>,
    body: Body,
    code: i32,
    out: Seq<u64>,
    message: Seq<char>,
)
    requires
        out.len() == 6,
        is_outcome(outcome, body, code, out, message),
    ensures
        outcome is Ok <==> code == 0,
        code == 0 && body != Body::EclipticNutation ==> {
            &&& outcome matches Ok(CalculationResult::Body(b))
            &&& b.pos@.len() == 3
            &&& b.vel@.len() == 3
        },
        code == 0 && body == Body::EclipticNutation ==> outcome matches Ok(
            CalculationResult::EclipticAndNutation(_),
        ),
        code != 0 ==> (outcome matches Err(e) && e.code == code),
{
}

impl CalculationError {
    /// The error as one line of text.
    pub fn to_string(&self) -> (text: String)
        ensures
            text@ == "CalculationError { code: "@ + decimal(self.code as int) + ", message: "@
                + self.msg@ + " }"@,
    {
        let mut text: String = "CalculationError { code: ".to_owned();
        append_decimal(&mut text, self.code);
        text.append(", message: ");
        text.append(self.msg.as_str());
        text.append(" }");
        text
    }
}

/// Turns the engine's reply to a computation into a typed outcome.
///
/// `code` is the engine's return code, `out` its six numbers and `message`
/// the decoded text of its message buffer.
pub fn classify(body: Body, code: i32, out: &[u64; 6], message: String) -> (outcome: Result<
    CalculationResult,
    CalculationError,
>)
    ensures
        is_outcome(outcome, body, code, out@, message@),
        outcome is Ok <==> code == 0,
{
    if code != 0 {
        Err(CalculationError { code, msg: message })
    } else if body.is_ecliptic_nutation() {
        Ok(
            CalculationResult::EclipticAndNutation(
                EclipticAndNutationResult {
                    ecliptic_true_obliquity: out[0],
                    ecliptic_mean_obliquity: out[1],
                    nutation_lng: out[2],
                    nutation_obliquity: out[3],
                },
            ),
        )
    } else {
        let pos: Vec<u64> = vec![out[0], out[1], out[2]];
        let vel: Vec<u64> = vec![out[3], out[4], out[5]];
        proof {
            assert(pos@ =~= out@.subrange(0, 3));
            assert(vel@ =~= out@.subrange(3, 6));
        }
        Ok(CalculationResult::Body(BodyResult { pos, vel }))
    }
}

/// Completes a computation for `body` from the engine's reply.
///
/// The engine is to be called with the code of `body`, the bits of the
/// flags, a buffer of six numbers and a message buffer; `code`, `out` and
/// `errbuf` are what it returned and wrote. The answer is a result in the
/// shape that `body` selects where the code is zero, and the engine's code
/// and message where it is not.
///
/// The engine must be ready, and the text in the message buffer must be
/// well-formed, as the engine's buffer contract has it.
pub fn calculate_ut(engine: &Ephemeris, body: Body, code: i32, out: &[u64; 6], errbuf: &[u8]) -> (r:
    Result<CalculationResult, CalculationError>)
    requires
        engine@.phase == Phase::Ready,
        valid_utf8(logical_content(errbuf@)),
    ensures
        is_outcome(r, body, code, out@, decode_utf8(logical_content(errbuf@))),
        r is Ok <==> code == 0,
{
    assert_ephe_ready(engine, "calculate_ut");
    let message: String = decoded_text(errbuf);
    classify(body, code, out, message)
}

} // verus!
