//! The deployment environment and the store keys it namespaces.

use crate::text::{ascii_lowercase, join, str_eq, to_ascii_lowercase};
use vstd::prelude::*;
use vstd::string::*;

verus! {

/// The deployment environment a process runs in.
#[derive(Debug, Clone, Copy, PartialEq, Eq, Structural)]
pub enum Env {
    Prod,
    Dev,
}

/// An environment setting that names neither environment.
#[derive(Debug, PartialEq, Eq)]
pub struct InvalidEnv {
    /// The setting, in ASCII lower case.
    pub value: String,
}

impl InvalidEnv {
    /// The text of the failure: `Siblings: invalid env: <setting>`.
    pub fn message(&self) -> (text: String)
        ensures
            text@ == "Siblings: invalid env: "@ + self.value@,
    {
        join("Siblings: invalid env: ", self.value.as_str())
    }
}

impl Env {
    /// The environment a setting selects: an absent setting selects `Dev`;
    /// `prod` and `dev`, letter case aside, select their environment; any
    /// other setting selects none.
    pub open spec fn of_setting(setting: Option<&str>) -> Option<Env> {
        match setting {
            None => Some(Env::Dev),
            Some(s) => {
                let folded = ascii_lowercase(s@);
                if folded == "prod"@ {
                    Some(Env::Prod)
                } else if folded == "dev"@ {
                    Some(Env::Dev)
                } else {
                    None
                }
            },
        }
    }

    /// The environment whose store a seeding run fills: `Dev` for the
    /// setting `dev`, spelled exactly so, and `Prod` for every other or
    /// absent setting.
    pub open spec fn of_seed_setting(setting: Option<&str>) -> Env {
        match setting {
            Some(s) if s@ == "dev"@ => Env::Dev,
            _ => Env::Prod,
        }
    }

    /// The prefix that keeps the two environments apart in one store.
    pub open spec fn prefix(self) -> Seq<char> {
        match self {
            Env::Prod => "ep-"@,
            Env::Dev => "dev-ep-"@,
        }
    }

    /// The store key under which a sibling's record lives.
    pub open spec fn store_key(self, sibling: Seq<char>) -> Seq<char> {
        self.prefix() + sibling
    }

    /// Reads the environment from the value of the environment setting.
    pub fn new_from_env(setting: Option<&str>) -> (env: Result<Env, InvalidEnv>)
        ensures
            match Env::of_setting(setting) {
                Some(e) => env == Ok::<Env, InvalidEnv>(e),
                None => env matches Err(e) && setting matches Some(s) && e.value@
                    == ascii_lowercase(s@),
            },
    {
        match setting {
            None => Ok(Env::Dev),
            Some(s) => {
                let folded = to_ascii_lowercase(s);
                if str_eq(folded.as_str(), "prod") {
                    Ok(Env::Prod)
                } else if str_eq(folded.as_str(), "dev") {
                    Ok(Env::Dev)
                } else {
                    Err(InvalidEnv { value: folded })
                }
            },
        }
    }

    /// Picks the environment that a seeding run writes to.
    pub fn for_seeding(setting: Option<&str>) -> (env: Env)
        ensures
            env == Env::of_seed_setting(setting),
    {
        match setting {
            Some(s) => {
                if str_eq(s, "dev") {
                    Env::Dev
                } else {
                    Env::Prod
                }
            },
            None => Env::Prod,
        }
    }

    /// The name of the document a seeding run reads for this environment.
    pub fn seed_file(self) -> (name: &'static str)
        ensures
            name@ == (match self {
                Env::Prod => "siblings.json"@,
                Env::Dev => "siblings-dev.json"@,
            }),
    {
        match self {
            Env::Prod => "siblings.json",
            Env::Dev => "siblings-dev.json",
        }
    }

    /// Builds the store key of a sibling in this environment.
    pub fn make_store_key(self, sibling: &str) -> (key: String)
        ensures
            key@ == self.store_key(sibling@),
    {
        match self {
            Env::Prod => join("ep-", sibling),
            Env::Dev => join("dev-ep-", sibling),
        }
    }
}

} // verus!
