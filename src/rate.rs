use vstd::prelude::*;

verus! {

/// How the session treats the bit rate the probe achieved.
#[derive(Debug, Clone, Copy, PartialEq, Eq, Structural)]
pub enum RateCheck {
    /// The probe runs at the requested rate.
    Confirmed,
    /// The probe runs at another rate, which the caller accepts; it is reported.
    Approximate,
    /// The probe runs at another rate, which the caller does not accept.
    Unachievable,
}

/// Judges the rate `achieved` against the rate `requested`; a differing rate
/// is accepted only where `allow_approx` is set.
pub fn check_rate(requested: u32, achieved: u32, allow_approx: bool) -> (r: RateCheck)
    ensures
        requested == achieved ==> r == RateCheck::Confirmed,
        requested != achieved && allow_approx ==> r == RateCheck::Approximate,
        requested != achieved && !allow_approx ==> r == RateCheck::Unachievable,
{
    if achieved == requested {
        RateCheck::Confirmed
    } else if allow_approx {
        RateCheck::Approximate
    } else {
        RateCheck::Unachievable
    }
}

impl RateCheck {
    /// The status the process ends with on this verdict, where it must end:
    /// 1 when the rate cannot be had, none otherwise.
    pub fn exit_code(&self) -> (r: Option<i32>)
        ensures
            *self == RateCheck::Unachievable ==> r == Some(1i32),
            *self != RateCheck::Unachievable ==> r is None,
    {
        match self {
            RateCheck::Unachievable => Some(1),
            _ => None,
        }
    }

    /// Whether the achieved rate differs from the requested one, so that a
    /// notice is due.
    pub fn is_mismatch(&self) -> (r: bool)
        ensures
            r == (*self != RateCheck::Confirmed),
    {
        match self {
            RateCheck::Confirmed => false,
            _ => true,
        }
    }
}

} // verus!
