//! The fixed time step between consecutive samples of a series.

use vstd::prelude::*;
use crate::text::same_text;

verus! {

/// Number of seconds in one hour.
pub const SECONDS_PER_HOUR: u64 = 3600;

/// Number of seconds in a quarter of an hour.
pub const SECONDS_PER_QUARTER: u64 = 900;

/// The step between two consecutive samples of a series.
#[derive(Clone, Copy, Debug, PartialEq, Eq, Structural)]
pub enum ResolutionDuration {
    /// One hour.
    PT1H,
    /// Fifteen minutes.
    PT15M,
}

/// The resolution a request asks for when it names none.
pub fn default_resolution() -> (name: String)
    ensures
        name@ == "PT1H"@,
{
    "PT1H".to_owned()
}

impl ResolutionDuration {
    /// The resolution that a declared resolution string names, if it names
    /// one: `PT1H` is an hour, `PT15M` and `PT15MIN` are a quarter.
    pub open spec fn spec_parse(s: Seq<char>) -> Option<ResolutionDuration> {
        if s == "PT1H"@ {
            Some(ResolutionDuration::PT1H)
        } else if s == "PT15M"@ || s == "PT15MIN"@ {
            Some(ResolutionDuration::PT15M)
        } else {
            None
        }
    }

    /// The resolution of a series that declares `s`: the one `s` names, and
    /// an hour where it names none.
    pub open spec fn spec_from_str(s: Seq<char>) -> ResolutionDuration {
        match Self::spec_parse(s) {
            Some(resolution) => resolution,
            None => ResolutionDuration::PT1H,
        }
    }

    /// The canonical name of the resolution.
    pub open spec fn spec_to_str(self) -> Seq<char> {
        match self {
            ResolutionDuration::PT1H => "PT1H"@,
            ResolutionDuration::PT15M => "PT15M"@,
        }
    }

    /// The length of the step in seconds.
    pub open spec fn spec_seconds(self) -> int {
        match self {
            ResolutionDuration::PT1H => 3600,
            ResolutionDuration::PT15M => 900,
        }
    }

    /// Reads a declared resolution string. `None` means that the string is
    /// not one of the recognised names, so that a caller can report the
    /// fallback that [`ResolutionDuration::from_str`] applies.
    pub fn parse(s: &str) -> (parsed: Option<ResolutionDuration>)
        ensures
            parsed == Self::spec_parse(s@),
    {
        if same_text(s, "PT1H") {
            Some(ResolutionDuration::PT1H)
        } else if same_text(s, "PT15M") || same_text(s, "PT15MIN") {
            Some(ResolutionDuration::PT15M)
        } else {
            None
        }
    }

    /// The resolution of a series that declares `s`. Unrecognised strings
    /// are read as one hour.
    pub fn from_str(s: &str) -> (resolution: ResolutionDuration)
        ensures
            resolution == Self::spec_from_str(s@),
    {
        match Self::parse(s) {
            Some(resolution) => resolution,
            None => ResolutionDuration::PT1H,
        }
    }

    /// The canonical name of the resolution.
    pub fn to_str(&self) -> (name: &'static str)
        ensures
            name@ == self.spec_to_str(),
    {
        match self {
            ResolutionDuration::PT1H => "PT1H",
            ResolutionDuration::PT15M => "PT15M",
        }
    }

    /// The length of the step in seconds.
    pub fn seconds(&self) -> (secs: u64)
        ensures
            secs == self.spec_seconds(),
    {
        match self {
            ResolutionDuration::PT1H => SECONDS_PER_HOUR,
            ResolutionDuration::PT15M => SECONDS_PER_QUARTER,
        }
    }

    /// Reading the canonical name of a resolution gives that resolution
    /// back, and the name is a recognised one.
    pub proof fn lemma_name_round_trip(resolution: ResolutionDuration)
        ensures
            Self::spec_parse(resolution.spec_to_str()) == Some(resolution),
            Self::spec_from_str(resolution.spec_to_str()) == resolution,
    {
        reveal_strlit("PT1H");
        reveal_strlit("PT15M");
        reveal_strlit("PT15MIN");
        assert("PT1H"@.len() == 4);
        assert("PT15M"@.len() == 5);
    }
}

} // verus!
