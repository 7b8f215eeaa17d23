//! Region tags and the rule that reads one from a caller's string.

use crate::text::{ascii_uppercase, join, str_eq, to_ascii_uppercase};
use vstd::prelude::*;
use vstd::string::*;

verus! {

/// A geographic routing tag.
#[derive(Debug, Clone, Copy, PartialEq, Eq, Structural)]
pub enum Regions {
    IN,
    US,
}

/// A region string outside the recognised alias set.
#[derive(Debug, PartialEq, Eq)]
pub struct UnsupportedRegion {
    /// The string as the caller gave it.
    pub region: String,
}

impl UnsupportedRegion {
    /// The text of the failure: `Region <string> not supported`.
    pub fn message(&self) -> (text: String)
        ensures
            text@ == "Region "@ + self.region@ + " not supported"@,
    {
        let mut text = join("Region ", self.region.as_str());
        text.append(" not supported");
        text
    }
}

impl Regions {
    /// The region a string names, letter case aside: `IN` and `IND` name
    /// `IN`, `US` and `USA` name `US`, and nothing else names a region.
    pub open spec fn of(s: Seq<char>) -> Option<Regions> {
        let folded = ascii_uppercase(s);
        if folded == "IN"@ || folded == "IND"@ {
            Some(Regions::IN)
        } else if folded == "US"@ || folded == "USA"@ {
            Some(Regions::US)
        } else {
            None
        }
    }

    /// The region an optional request string names: no string asks for no
    /// region, a recognised one for its region, and any other is handed
    /// back as the error.
    pub open spec fn requested(region: Option<&str>) -> Result<Option<Regions>, Seq<char>> {
        match region {
            None => Ok(None),
            Some(s) => match Regions::of(s@) {
                Some(r) => Ok(Some(r)),
                None => Err(s@),
            },
        }
    }

    /// Reads a region from a string, ignoring ASCII letter case.
    pub fn parse(s: &str) -> (parsed: Result<Regions, UnsupportedRegion>)
        ensures
            match Regions::of(s@) {
                Some(r) => parsed == Ok::<Regions, UnsupportedRegion>(r),
                None => parsed matches Err(e) && e.region@ == s@,
            },
    {
        let folded = to_ascii_uppercase(s);
        let f = folded.as_str();
        if str_eq(f, "IN") || str_eq(f, "IND") {
            Ok(Regions::IN)
        } else if str_eq(f, "US") || str_eq(f, "USA") {
            Ok(Regions::US)
        } else {
            Err(UnsupportedRegion { region: s.to_owned() })
        }
    }

    /// Reads an optional request string: see [`Regions::requested`].
    pub fn parse_request(region: Option<&str>) -> (parsed: Result<Option<Regions>, UnsupportedRegion>)
        ensures
            match Regions::requested(region) {
                Ok(r) => parsed == Ok::<Option<Regions>, UnsupportedRegion>(r),
                Err(bad) => parsed matches Err(e) && e.region@ == bad,
            },
    {
        match region {
            None => Ok(None),
            Some(s) => match Regions::parse(s) {
                Ok(r) => Ok(Some(r)),
                Err(e) => Err(e),
            },
        }
    }
}

} // verus!
