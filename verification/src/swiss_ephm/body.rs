//! Celestial bodies and the integer codes by which the engine knows them.

use vstd::prelude::*;

verus! {

/// A body whose position the engine can compute.
///
/// `EclipticNutation` is no physical body: it asks the engine for the
/// obliquity of the ecliptic and the nutation, and its result has another
/// shape than that of every other body.
#[derive(Clone, Copy, Debug, PartialEq, Eq, Structural)]
pub enum Body {
    EclipticNutation,
    Sun,
    Moon,
    Mercury,
    Venus,
    Mars,
    Jupiter,
    Saturn,
    Uranus,
    Neptune,
    Pluto,
    MeanNode,
    TrueNode,
    MeanLunarApogee,
    OsculatingLunarApogee,
    Earth,
    Chiron,
    Pholus,
    Ceres,
    Pallas,
    Juno,
    Vesta,
}

/// The engine's code of a body.
pub open spec fn body_code(body: Body) -> int {
    match body {
        Body::EclipticNutation => -1,
        Body::Sun => 0,
        Body::Moon => 1,
        Body::Mercury => 2,
        Body::Venus => 3,
        Body::Mars => 4,
        Body::Jupiter => 5,
        Body::Saturn => 6,
        Body::Uranus => 7,
        Body::Neptune => 8,
        Body::Pluto => 9,
        Body::MeanNode => 10,
        Body::TrueNode => 11,
        Body::MeanLunarApogee => 12,
        Body::OsculatingLunarApogee => 13,
        Body::Earth => 14,
        Body::Chiron => 15,
        Body::Pholus => 16,
        Body::Ceres => 17,
        Body::Pallas => 18,
        Body::Juno => 19,
        Body::Vesta => 20,
    }
}

/// The body that the engine knows under `code`, if there is one.
pub open spec fn body_of_code(code: int) -> Option<Body> {
    if code == -1 {
        Some(Body::EclipticNutation)
    } else if code == 0 {
        Some(Body::Sun)
    } else if code == 1 {
        Some(Body::Moon)
    } else if code == 2 {
        Some(Body::Mercury)
    } else if code == 3 {
        Some(Body::Venus)
    } else if code == 4 {
        Some(Body::Mars)
    } else if code == 5 {
        Some(Body::Jupiter)
    } else if code == 6 {
        Some(Body::Saturn)
    } else if code == 7 {
        Some(Body::Uranus)
    } else if code == 8 {
        Some(Body::Neptune)
    } else if code == 9 {
        Some(Body::Pluto)
    } else if code == 10 {
        Some(Body::MeanNode)
    } else if code == 11 {
        Some(Body::TrueNode)
    } else if code == 12 {
        Some(Body::MeanLunarApogee)
    } else if code == 13 {
        Some(Body::OsculatingLunarApogee)
    } else if code == 14 {
        Some(Body::Earth)
    } else if code == 15 {
        Some(Body::Chiron)
    } else if code == 16 {
        Some(Body::Pholus)
    } else if code == 17 {
        Some(Body::Ceres)
    } else if code == 18 {
        Some(Body::Pallas)
    } else if code == 19 {
        Some(Body::Juno)
    } else if code == 20 {
        Some(Body::Vesta)
    } else {
        None
    }
}

impl Body {
    /// The code under which the engine knows this body.
    pub fn code(self) -> (code: i32)
        ensures
            code == body_code(self),
            -1 <= code <= 20,
    {
        match self {
            Body::EclipticNutation => -1,
            Body::Sun => 0,
            Body::Moon => 1,
            Body::Mercury => 2,
            Body::Venus => 3,
            Body::Mars => 4,
            Body::Jupiter => 5,
            Body::Saturn => 6,
            Body::Uranus => 7,
            Body::Neptune => 8,
            Body::Pluto => 9,
            Body::MeanNode => 10,
            Body::TrueNode => 11,
            Body::MeanLunarApogee => 12,
            Body::OsculatingLunarApogee => 13,
            Body::Earth => 14,
            Body::Chiron => 15,
            Body::Pholus => 16,
            Body::Ceres => 17,
            Body::Pallas => 18,
            Body::Juno => 19,
            Body::Vesta => 20,
        }
    }

    /// The body with the given engine code; `None` for a number that is the
    /// code of no body.
    pub fn from_code(code: i32) -> (body: Option<Body>)
        ensures
            body == body_of_code(code as int),
            body is Some <==> -1 <= code <= 20,
    {
        match code {
            -1 => Some(Body::EclipticNutation),
            0 => Some(Body::Sun),
            1 => Some(Body::Moon),
            2 => Some(Body::Mercury),
            3 => Some(Body::Venus),
            4 => Some(Body::Mars),
            5 => Some(Body::Jupiter),
            6 => Some(Body::Saturn),
            7 => Some(Body::Uranus),
            8 => Some(Body::Neptune),
            9 => Some(Body::Pluto),
            10 => Some(Body::MeanNode),
            11 => Some(Body::TrueNode),
            12 => Some(Body::MeanLunarApogee),
            13 => Some(Body::OsculatingLunarApogee),
            14 => Some(Body::Earth),
            15 => Some(Body::Chiron),
            16 => Some(Body::Pholus),
            17 => Some(Body::Ceres),
            18 => Some(Body::Pallas),
            19 => Some(Body::Juno),
            20 => Some(Body::Vesta),
            _ => None,
        }
    }

    /// Whether this is the pseudo-body that stands for the ecliptic and
    /// nutation angles.
    pub fn is_ecliptic_nutation(self) -> (yes: bool)
        ensures
            yes == (self == Body::EclipticNutation),
            yes == (body_code(self) == -1),
    {
        match self {
            Body::EclipticNutation => true,
            _ => false,
        }
    }
}

/// Every body is found again from its code.
pub proof fn body_code_round_trip(body: Body)
    ensures
        body_of_code(body_code(body)) == Some(body),
{
}

/// A code that names a body is the code of that body, and of no other.
pub proof fn body_of_code_is_inverse(code: int, body: Body)
    ensures
        body_of_code(code) == Some(body) <==> body_code(body) == code,
{
}

/// Two different bodies never share a code.
pub proof fn body_code_is_injective(a: Body, b: Body)
    requires
        body_code(a) == body_code(b),
    ensures
        a == b,
{
}

} // verus!
