//! The in-memory registry: one fixed slot for each well-known sibling and
//! an open mapping for every other name.

use crate::record::{Record, RegionEndpoint};
use crate::text::str_eq;
use vstd::hash_map::StringHashMap;
use vstd::prelude::*;
use vstd::string::*;

verus! {

/// The siblings that have a slot of their own in the registry.
#[derive(Debug, Clone, Copy, PartialEq, Eq, Structural)]
pub enum WellKnown {
    August,
    BankStatement,
    K9,
    Matrix,
    Pandora,
    Retina,
    Schematron,
    Sentry,
    Thumbnailer,
    Xchange,
}

impl WellKnown {
    /// The name under which the sibling is known to the store.
    pub open spec fn name(self) -> Seq<char> {
        match self {
            WellKnown::August => "august"@,
            WellKnown::BankStatement => "bank-statement"@,
            WellKnown::K9 => "k9"@,
            WellKnown::Matrix => "matrix"@,
            WellKnown::Pandora => "pandora"@,
            WellKnown::Retina => "retina"@,
            WellKnown::Schematron => "schematron"@,
            WellKnown::Sentry => "sentry"@,
            WellKnown::Thumbnailer => "thumbnailer"@,
            WellKnown::Xchange => "xchange"@,
        }
    }

    /// The well-known sibling that a name denotes, if it denotes one.
    pub open spec fn of(name: Seq<char>) -> Option<WellKnown> {
        if name == WellKnown::August.name() {
            Some(WellKnown::August)
        } else if name == WellKnown::BankStatement.name() {
            Some(WellKnown::BankStatement)
        } else if name == WellKnown::K9.name() {
            Some(WellKnown::K9)
        } else if name == WellKnown::Matrix.name() {
            Some(WellKnown::Matrix)
        } else if name == WellKnown::Pandora.name() {
            Some(WellKnown::Pandora)
        } else if name == WellKnown::Retina.name() {
            Some(WellKnown::Retina)
        } else if name == WellKnown::Schematron.name() {
            Some(WellKnown::Schematron)
        } else if name == WellKnown::Sentry.name() {
            Some(WellKnown::Sentry)
        } else if name == WellKnown::Thumbnailer.name() {
            Some(WellKnown::Thumbnailer)
        } else if name == WellKnown::Xchange.name() {
            Some(WellKnown::Xchange)
        } else {
            None
        }
    }

    /// The names of the well-known siblings differ from one another, so
    /// each sibling is the one that its own name denotes.
    pub proof fn lemma_names_denote(self)
        ensures
            WellKnown::of(self.name()) == Some(self),
    {
        reveal_strlit("august");
        reveal_strlit("bank-statement");
        reveal_strlit("k9");
        reveal_strlit("matrix");
        reveal_strlit("pandora");
        reveal_strlit("retina");
        reveal_strlit("schematron");
        reveal_strlit("sentry");
        reveal_strlit("thumbnailer");
        reveal_strlit("xchange");
        // Names of one length differ in their first letter.
        assert("august"@.len() == 6 && "august"@[0] == 'a');
        assert("bank-statement"@.len() == 14);
        assert("k9"@.len() == 2);
        assert("matrix"@.len() == 6 && "matrix"@[0] == 'm');
        assert("pandora"@.len() == 7 && "pandora"@[0] == 'p');
        assert("retina"@.len() == 6 && "retina"@[0] == 'r');
        assert("schematron"@.len() == 10);
        assert("sentry"@.len() == 6 && "sentry"@[0] == 's');
        assert("thumbnailer"@.len() == 11);
        assert("xchange"@.len() == 7 && "xchange"@[0] == 'x');
    }

    /// The sibling's name.
    pub fn as_str(self) -> (name: &'static str)
        ensures
            name@ == self.name(),
    {
        match self {
            WellKnown::August => "august",
            WellKnown::BankStatement => "bank-statement",
            WellKnown::K9 => "k9",
            WellKnown::Matrix => "matrix",
            WellKnown::Pandora => "pandora",
            WellKnown::Retina => "retina",
            WellKnown::Schematron => "schematron",
            WellKnown::Sentry => "sentry",
            WellKnown::Thumbnailer => "thumbnailer",
            WellKnown::Xchange => "xchange",
        }
    }

    /// Finds the well-known sibling that a name denotes.
    pub fn from_name(name: &str) -> (found: Option<WellKnown>)
        ensures
            found == WellKnown::of(name@),
    {
        if str_eq(name, "august") {
            Some(WellKnown::August)
        } else if str_eq(name, "bank-statement") {
            Some(WellKnown::BankStatement)
        } else if str_eq(name, "k9") {
            Some(WellKnown::K9)
        } else if str_eq(name, "matrix") {
            Some(WellKnown::Matrix)
        } else if str_eq(name, "pandora") {
            Some(WellKnown::Pandora)
        } else if str_eq(name, "retina") {
            Some(WellKnown::Retina)
        } else if str_eq(name, "schematron") {
            Some(WellKnown::Schematron)
        } else if str_eq(name, "sentry") {
            Some(WellKnown::Sentry)
        } else if str_eq(name, "thumbnailer") {
            Some(WellKnown::Thumbnailer)
        } else if str_eq(name, "xchange") {
            Some(WellKnown::Xchange)
        } else {
            None
        }
    }
}

/// The registry of records, by sibling name.
pub struct Endpoints {
    august: Option<RegionEndpoint>,
    bankstatement: Option<RegionEndpoint>,
    k9: Option<RegionEndpoint>,
    matrix: Option<RegionEndpoint>,
    pandora: Option<RegionEndpoint>,
    retina: Option<RegionEndpoint>,
    schematron: Option<RegionEndpoint>,
    sentry: Option<RegionEndpoint>,
    siblings: StringHashMap<RegionEndpoint>,
    thumbnailer: Option<RegionEndpoint>,
    xchange: Option<RegionEndpoint>,
}

impl Endpoints {
    /// What the slot of a well-known sibling holds.
    pub closed spec fn slot(&self, sibling: WellKnown) -> Option<RegionEndpoint> {
        match sibling {
            WellKnown::August => self.august,
            WellKnown::BankStatement => self.bankstatement,
            WellKnown::K9 => self.k9,
            WellKnown::Matrix => self.matrix,
            WellKnown::Pandora => self.pandora,
            WellKnown::Retina => self.retina,
            WellKnown::Schematron => self.schematron,
            WellKnown::Sentry => self.sentry,
            WellKnown::Thumbnailer => self.thumbnailer,
            WellKnown::Xchange => self.xchange,
        }
    }

    /// The record held for a name: that of its slot where the name is
    /// well known, else that of the open mapping.
    pub closed spec fn held(&self, name: Seq<char>) -> Option<RegionEndpoint> {
        match WellKnown::of(name) {
            Some(sibling) => self.slot(sibling),
            None => self.siblings@.get(name),
        }
    }
}

impl View for Endpoints {
    type V = Map<Seq<char>, Record>;

    /// The registry as one mapping from sibling name to record.
    closed spec fn view(&self) -> Map<Seq<char>, Record> {
        Map::new(|name: Seq<char>| self.held(name) is Some, |name: Seq<char>| self.held(name)->0@)
    }
}

impl Default for Endpoints {
    fn default() -> (registry: Self)
        ensures
            registry@ == Map::<Seq<char>, Record>::empty(),
    {
        Endpoints::new()
    }
}

impl Endpoints {
    /// The empty registry.
    pub fn new() -> (registry: Self)
        ensures
            registry@ == Map::<Seq<char>, Record>::empty(),
    {
        let registry = Endpoints {
            august: None,
            bankstatement: None,
            k9: None,
            matrix: None,
            pandora: None,
            retina: None,
            schematron: None,
            sentry: None,
            siblings: StringHashMap::new(),
            thumbnailer: None,
            xchange: None,
        };
        proof {
            assert(registry@ =~= Map::<Seq<char>, Record>::empty());
        }
        registry
    }

    /// The record held for a sibling, if one is held.
    pub fn get(&self, sibling: &str) -> (record: Option<&RegionEndpoint>)
        ensures
            match record {
                Some(r) => self@.contains_key(sibling@) && r@ == self@[sibling@],
                None => !self@.contains_key(sibling@),
            },
    {
        match WellKnown::from_name(sibling) {
            Some(WellKnown::August) => self.august.as_ref(),
            Some(WellKnown::BankStatement) => self.bankstatement.as_ref(),
            Some(WellKnown::K9) => self.k9.as_ref(),
            Some(WellKnown::Matrix) => self.matrix.as_ref(),
            Some(WellKnown::Pandora) => self.pandora.as_ref(),
            Some(WellKnown::Retina) => self.retina.as_ref(),
            Some(WellKnown::Schematron) => self.schematron.as_ref(),
            Some(WellKnown::Sentry) => self.sentry.as_ref(),
            Some(WellKnown::Thumbnailer) => self.thumbnailer.as_ref(),
            Some(WellKnown::Xchange) => self.xchange.as_ref(),
            None => self.siblings.get(sibling),
        }
    }

    /// Holds `record` for a sibling from now on, in place of what was held
    /// for it; what is held for other siblings stays.
    pub fn put(&mut self, sibling: &str, record: RegionEndpoint)
        ensures
            final(self)@ == old(self)@.insert(sibling@, record@),
    {
        match WellKnown::from_name(sibling) {
            Some(WellKnown::August) => self.august = Some(record),
            Some(WellKnown::BankStatement) => self.bankstatement = Some(record),
            Some(WellKnown::K9) => self.k9 = Some(record),
            Some(WellKnown::Matrix) => self.matrix = Some(record),
            Some(WellKnown::Pandora) => self.pandora = Some(record),
            Some(WellKnown::Retina) => self.retina = Some(record),
            Some(WellKnown::Schematron) => self.schematron = Some(record),
            Some(WellKnown::Sentry) => self.sentry = Some(record),
            Some(WellKnown::Thumbnailer) => self.thumbnailer = Some(record),
            Some(WellKnown::Xchange) => self.xchange = Some(record),
            None => self.siblings.insert(sibling.to_owned(), record),
        }
        proof {
            assert forall|name: Seq<char>| name != sibling@ implies self.held(name) == old(
                self,
            ).held(name) by {}
            assert(self.held(sibling@) == Some(record));
            assert(self@ =~= old(self)@.insert(sibling@, record@));
        }
    }

    /// Forgets every record.
    pub fn flush(&mut self)
        ensures
            final(self)@ == Map::<Seq<char>, Record>::empty(),
    {
        *self = Endpoints::new();
    }
}

} // verus!
