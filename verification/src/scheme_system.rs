//! The scheme systems that Tinted Theming defines.
use vstd::prelude::*;

verus! {

/// A scheme system: the family a scheme's palette belongs to.
#[derive(Clone, Copy, Debug, PartialEq, Eq, Structural)]
pub enum SchemeSystem {
    /// Base16, the default system.
    Base16,
    /// Base24.
    Base24,
    /// Tinted8.
    Tinted8,
}

impl SchemeSystem {
    /// The system's name as it appears in scheme names and directories.
    pub open spec fn name(self) -> Seq<char> {
        match self {
            SchemeSystem::Base16 => seq!['b', 'a', 's', 'e', '1', '6'],
            SchemeSystem::Base24 => seq!['b', 'a', 's', 'e', '2', '4'],
            SchemeSystem::Tinted8 => seq!['t', 'i', 'n', 't', 'e', 'd', '8'],
        }
    }

    /// The system's name as it appears in scheme names and directories.
    pub fn as_str(&self) -> (res: &'static str)
        ensures
            res@ == self.name(),
    {
        proof {
            reveal_strlit("base16");
            reveal_strlit("base24");
            reveal_strlit("tinted8");
        }
        match self {
            SchemeSystem::Base16 => "base16",
            SchemeSystem::Base24 => "base24",
            SchemeSystem::Tinted8 => "tinted8",
        }
    }

    /// The system whose name is `s`, if any.
    pub open spec fn from_name(s: Seq<char>) -> Option<SchemeSystem> {
        if s == SchemeSystem::Base16.name() {
            Some(SchemeSystem::Base16)
        } else if s == SchemeSystem::Base24.name() {
            Some(SchemeSystem::Base24)
        } else if s == SchemeSystem::Tinted8.name() {
            Some(SchemeSystem::Tinted8)
        } else {
            None
        }
    }

    /// Parses a system name.
    pub fn from_str(s: &str) -> (res: Option<SchemeSystem>)
        ensures
            res == SchemeSystem::from_name(s@),
    {
        if crate::text::str_eq(s, SchemeSystem::Base16.as_str()) {
            Some(SchemeSystem::Base16)
        } else if crate::text::str_eq(s, SchemeSystem::Base24.as_str()) {
            Some(SchemeSystem::Base24)
        } else if crate::text::str_eq(s, SchemeSystem::Tinted8.as_str()) {
            Some(SchemeSystem::Tinted8)
        } else {
            None
        }
    }

    /// Every system, in its canonical order.
    pub open spec fn all() -> Seq<SchemeSystem> {
        seq![SchemeSystem::Base16, SchemeSystem::Base24, SchemeSystem::Tinted8]
    }

    /// Every system, in its canonical order.
    pub fn variants() -> (res: Vec<SchemeSystem>)
        ensures
            res@ == SchemeSystem::all(),
    {
        let v = vec![SchemeSystem::Base16, SchemeSystem::Base24, SchemeSystem::Tinted8];
        assert(v@ =~= SchemeSystem::all());
        v
    }

    /// The default system (Base16).
    pub fn default_system() -> (res: SchemeSystem)
        ensures
            res == SchemeSystem::Base16,
    {
        SchemeSystem::Base16
    }
}

/// Each system's name parses back to that system.
pub proof fn lemma_system_name_round_trip(s: SchemeSystem)
    ensures
        SchemeSystem::from_name(s.name()) == Some(s),
{
    let b16 = SchemeSystem::Base16.name();
    let b24 = SchemeSystem::Base24.name();
    let t8 = SchemeSystem::Tinted8.name();
    assert(b16[5] != b24[5]);
    assert(b16.len() != t8.len());
    assert(b24.len() != t8.len());
}

} // verus!
