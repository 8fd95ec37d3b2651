//! Computation flags and the bits by which the engine knows them.

use vstd::prelude::*;

verus! {

/// One switch of a computation: the ephemeris model, the reference frame,
/// the coordinate system, or the precision of the speed terms.
#[derive(Clone, Copy, Debug, PartialEq, Eq, Structural)]
pub enum Flag {
    JPLEphemeris,
    SwissEphemeris,
    MoshierEphemeris,
    HeliocentricPos,
    TruePos,
    HighPrecSpeed,
    CartesianCoords,
    BarycentricPos,
}

/// The engine's bit of a flag.
pub open spec fn flag_bits(flag: Flag) -> i32 {
    match flag {
        Flag::JPLEphemeris => 1i32,
        Flag::SwissEphemeris => 2i32,
        Flag::MoshierEphemeris => 4i32,
        Flag::HeliocentricPos => 8i32,
        Flag::TruePos => 16i32,
        Flag::HighPrecSpeed => 256i32,
        Flag::CartesianCoords => 4096i32,
        Flag::BarycentricPos => 16384i32,
    }
}

/// The flag that the engine knows under the single bit `bits`, if there is
/// one.
pub open spec fn flag_of_bits(bits: i32) -> Option<Flag> {
    if bits == 1 {
        Some(Flag::JPLEphemeris)
    } else if bits == 2 {
        Some(Flag::SwissEphemeris)
    } else if bits == 4 {
        Some(Flag::MoshierEphemeris)
    } else if bits == 8 {
        Some(Flag::HeliocentricPos)
    } else if bits == 16 {
        Some(Flag::TruePos)
    } else if bits == 256 {
        Some(Flag::HighPrecSpeed)
    } else if bits == 4096 {
        Some(Flag::CartesianCoords)
    } else if bits == 16384 {
        Some(Flag::BarycentricPos)
    } else {
        None
    }
}

/// The bitwise OR of the bits of all the flags in `flags`.
pub open spec fn combined_bits(flags: Seq<Flag>) -> i32
    decreases flags.len(),
{
    if flags.len() == 0 {
        0i32
    } else {
        combined_bits(flags.drop_last()) | flag_bits(flags.last())
    }
}

/// Whether the bit of `flag` is set in `bits`.
pub open spec fn has_flag(bits: i32, flag: Flag) -> bool {
    bits & flag_bits(flag) == flag_bits(flag)
}

/// Every flag is found again from its bit.
pub proof fn flag_bits_round_trip(flag: Flag)
    ensures
        flag_of_bits(flag_bits(flag)) == Some(flag),
{
}

/// A bit that names a flag is the bit of that flag, and of no other.
pub proof fn flag_of_bits_is_inverse(bits: i32, flag: Flag)
    ensures
        flag_of_bits(bits) == Some(flag) <==> flag_bits(flag) == bits,
{
}

proof fn lemma_one_bit_or(x: i32, a: i32, f: i32)
    by (bit_vector)
    requires
        a == 1 || a == 2 || a == 4 || a == 8 || a == 16 || a == 256 || a == 4096 || a == 16384,
        f == 1 || f == 2 || f == 4 || f == 8 || f == 16 || f == 256 || f == 4096 || f == 16384,
    ensures
        ((x | a) & f == f) <==> ((x & f == f) || a == f),
        0i32 & f != f,
{
}

/// A combination holds the bit of a flag exactly if the flag is among
/// those that were combined.
pub proof fn combined_bits_membership(flags: Seq<Flag>, flag: Flag)
    ensures
        has_flag(combined_bits(flags), flag) <==> flags.contains(flag),
    decreases flags.len(),
{
    if flags.len() == 0 {
        lemma_one_bit_or(0i32, flag_bits(flag), flag_bits(flag));
    } else {
        let front = flags.drop_last();
        let last = flags.last();
        combined_bits_membership(front, flag);
        lemma_one_bit_or(combined_bits(front), flag_bits(last), flag_bits(flag));
        if flags.contains(flag) {
            let i = choose|i: int| 0 <= i < flags.len() && flags[i] == flag;
            if i < front.len() {
                assert(front[i] == flag);
            }
        }
        if front.contains(flag) {
            let i = choose|i: int| 0 <= i < front.len() && front[i] == flag;
            assert(flags[i] == flag);
        }
        if last == flag {
            assert(flags[flags.len() - 1] == flag);
        }
    }
}

impl Flag {
    /// The bit under which the engine knows this flag.
    pub fn bits(self) -> (bits: i32)
        ensures
            bits == flag_bits(self),
    {
        match self {
            Flag::JPLEphemeris => 1,
            Flag::SwissEphemeris => 2,
            Flag::MoshierEphemeris => 4,
            Flag::HeliocentricPos => 8,
            Flag::TruePos => 16,
            Flag::HighPrecSpeed => 256,
            Flag::CartesianCoords => 4096,
            Flag::BarycentricPos => 16384,
        }
    }

    /// The flag with the given bit; `None` for a number that is the bit of
    /// no single flag.
    pub fn from_bits(bits: i32) -> (flag: Option<Flag>)
        ensures
            flag == flag_of_bits(bits),
    {
        match bits {
            1 => Some(Flag::JPLEphemeris),
            2 => Some(Flag::SwissEphemeris),
            4 => Some(Flag::MoshierEphemeris),
            8 => Some(Flag::HeliocentricPos),
            16 => Some(Flag::TruePos),
            256 => Some(Flag::HighPrecSpeed),
            4096 => Some(Flag::CartesianCoords),
            16384 => Some(Flag::BarycentricPos),
            _ => None,
        }
    }

    /// Combines flags into the bitset that the engine takes: the bitwise OR
    /// of their bits. The bit of a flag is set in the result exactly if the
    /// flag is among `flags`.
    pub fn combine(flags: &[Flag]) -> (bits: i32)
        ensures
            bits == combined_bits(flags@),
            forall|flag: Flag| has_flag(bits, flag) <==> flags@.contains(flag),
    {
        let mut bits: i32 = 0;
        let mut i: usize = 0;
        while i < flags.len()
            invariant
                i <= flags@.len(),
                bits == combined_bits(flags@.subrange(0, i as int)),
            decreases flags@.len() - i,
        {
            proof {
                let next = flags@.subrange(0, i + 1);
                assert(next.drop_last() =~= flags@.subrange(0, i as int));
                assert(next.last() == flags@[i as int]);
            }
            bits = bits | flags[i].bits();
            i = i + 1;
        }
        proof {
            assert(flags@.subrange(0, i as int) =~= flags@);
            assert forall|flag: Flag| has_flag(bits, flag) <==> flags@.contains(flag) by {
                combined_bits_membership(flags@, flag);
            }
        }
        bits
    }
}

} // verus!
