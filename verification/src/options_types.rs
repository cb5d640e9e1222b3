//! The closed option catalogs: operating system, display, reboot action.
//!
//! Every catalog value has a stable lowercase code used for storage and
//! on the command line.  The human-readable display form is a separate
//! concern and may differ in casing.

use vstd::prelude::*;

use crate::text::str_eq;

verus! {

/// The value of a catalog whose code is `s`, if any.
pub open spec fn spec_from_code<O: OptionType>(s: Seq<char>) -> Option<O> {
    if exists|v: O| O::spec_values().contains(v) && v.spec_code() == s {
        Some(choose|v: O| O::spec_values().contains(v) && v.spec_code() == s)
    } else {
        None
    }
}

/// A closed, small enumeration with a stable string code per value.
pub trait OptionType: Sized + Copy {
    /// All values, in their stable order.
    spec fn spec_values() -> Seq<Self>;

    /// The stable code of a value.
    spec fn spec_code(self) -> Seq<char>;

    /// The catalog is exhaustive and codes are pairwise distinct.
    proof fn lemma_catalog()
        ensures
            forall|v: Self| Self::spec_values().contains(v),
            forall|i: int, j: int|
                0 <= i < j < Self::spec_values().len() ==> (
                #[trigger] Self::spec_values()[i]).spec_code() != (
                #[trigger] Self::spec_values()[j]).spec_code(),
    ;

    /// All values, in their stable order.
    fn values() -> (r: Vec<Self>)
        ensures
            r@ == Self::spec_values(),
    ;

    /// The stable code of this value.
    fn to_option_string(&self) -> (r: &'static str)
        ensures
            r@ == self.spec_code(),
    ;

    /// The value with the given code: an exact, case-sensitive search
    /// over the catalog; `None` if no code matches.
    fn from_option_string(option_string: &str) -> (r: Option<Self>)
        ensures
            match r {
                Some(v) => Self::spec_values().contains(v) && v.spec_code() == option_string@,
                None => !(exists|v: Self|
                    Self::spec_values().contains(v) && v.spec_code() == option_string@),
            },
    {
        let values = Self::values();
        let n = values.len();
        let mut i: usize = 0;
        while i < n
            invariant
                values@ == Self::spec_values(),
                n == values@.len(),
                i <= n,
                forall|j: int|
                    0 <= j < i ==> (#[trigger] Self::spec_values()[j]).spec_code()
                        != option_string@,
            decreases n - i,
        {
            let v = values[i];
            if str_eq(v.to_option_string(), option_string) {
                proof {
                    assert(Self::spec_values()[i as int] == v);
                    assert(Self::spec_values().contains(v));
                }
                return Some(v);
            }
            i += 1;
        }
        proof {
            if exists|v: Self| Self::spec_values().contains(v) && v.spec_code()
                == option_string@ {
                let w = choose|w: Self|
                    Self::spec_values().contains(w) && w.spec_code() == option_string@;
                let wi = choose|wi: int|
                    0 <= wi < Self::spec_values().len() && Self::spec_values()[wi] == w;
                assert(Self::spec_values()[wi].spec_code() != option_string@);
            }
        }
        None
    }
}

/// With distinct codes, a found match is the only one: what
/// `from_option_string` returns is pinned down exactly.
pub proof fn lemma_from_code_unique<O: OptionType>(v: O, s: Seq<char>)
    requires
        O::spec_values().contains(v),
        v.spec_code() == s,
    ensures
        spec_from_code::<O>(s) == Some(v),
{
    O::lemma_catalog();
    let w = choose|w: O| O::spec_values().contains(w) && w.spec_code() == s;
    assert(O::spec_values().contains(w) && w.spec_code() == s);
    let wi = choose|wi: int| 0 <= wi < O::spec_values().len() && O::spec_values()[wi] == w;
    let vi = choose|vi: int| 0 <= vi < O::spec_values().len() && O::spec_values()[vi] == v;
    if wi != vi {
        assert(O::spec_values()[wi].spec_code() == O::spec_values()[vi].spec_code());
        assert(false);
    }
}

/// Catalog symmetry law: for every catalog, looking up the code of any
/// value yields exactly that value (and only an actual code yields
/// anything, by definition of the lookup).
pub proof fn lemma_catalog_symmetry<O: OptionType>(v: O)
    ensures
        spec_from_code::<O>(v.spec_code()) == Some(v),
{
    O::lemma_catalog();
    assert(O::spec_values().contains(v));
    lemma_from_code_unique(v, v.spec_code());
}

/// Which operating system boots.
#[derive(Clone, Copy, PartialEq, Eq, Structural, Debug)]
pub enum OperatingSystem {
    Windows,
    Linux,
}

impl OperatingSystem {
    /// The human-readable name (the code stays lowercase).
    pub open spec fn spec_display_name(self) -> Seq<char> {
        match self {
            OperatingSystem::Windows => "Windows"@,
            OperatingSystem::Linux => "Linux"@,
        }
    }

    pub fn display_name(&self) -> (r: &'static str)
        ensures
            r@ == self.spec_display_name(),
    {
        match self {
            OperatingSystem::Windows => "Windows",
            OperatingSystem::Linux => "Linux",
        }
    }
}

impl OptionType for OperatingSystem {
    open spec fn spec_values() -> Seq<OperatingSystem> {
        seq![OperatingSystem::Windows, OperatingSystem::Linux]
    }

    open spec fn spec_code(self) -> Seq<char> {
        match self {
            OperatingSystem::Windows => "windows"@,
            OperatingSystem::Linux => "linux"@,
        }
    }

    proof fn lemma_catalog() {
        assert forall|v: OperatingSystem| Self::spec_values().contains(v) by {
            match v {
                OperatingSystem::Windows => assert(Self::spec_values()[0] == v),
                OperatingSystem::Linux => assert(Self::spec_values()[1] == v),
            }
        }
        reveal_strlit("windows");
        reveal_strlit("linux");
        assert("windows"@.len() == 7);
        assert("linux"@.len() == 5);
    }

    fn values() -> (r: Vec<OperatingSystem>) {
        let mut r: Vec<OperatingSystem> = Vec::new();
        r.push(OperatingSystem::Windows);
        r.push(OperatingSystem::Linux);
        proof {
            assert(r@ =~= Self::spec_values());
        }
        r
    }

    fn to_option_string(&self) -> (r: &'static str) {
        match self {
            OperatingSystem::Windows => "windows",
            OperatingSystem::Linux => "linux",
        }
    }
}

/// Which physical display Windows uses.
#[derive(Clone, Copy, PartialEq, Eq, Structural, Debug)]
pub enum Display {
    Monitor,
    TV,
}

impl Display {
    /// The human-readable name (`TV` capitalizes; its code stays `tv`).
    pub open spec fn spec_display_name(self) -> Seq<char> {
        match self {
            Display::Monitor => "monitor"@,
            Display::TV => "TV"@,
        }
    }

    pub fn display_name(&self) -> (r: &'static str)
        ensures
            r@ == self.spec_display_name(),
    {
        match self {
            Display::Monitor => "monitor",
            Display::TV => "TV",
        }
    }

    /// The one other display: the catalog has exactly two values.
    pub open spec fn spec_other(self) -> Display {
        match self {
            Display::Monitor => Display::TV,
            Display::TV => Display::Monitor,
        }
    }

    /// The one other display: the catalog has exactly two values.
    pub fn other(&self) -> (r: Display)
        ensures
            r == self.spec_other(),
            r != *self,
            Display::spec_values().contains(r),
    {
        proof {
            Display::lemma_catalog();
        }
        match self {
            Display::Monitor => Display::TV,
            Display::TV => Display::Monitor,
        }
    }
}

impl OptionType for Display {
    open spec fn spec_values() -> Seq<Display> {
        seq![Display::Monitor, Display::TV]
    }

    open spec fn spec_code(self) -> Seq<char> {
        match self {
            Display::Monitor => "monitor"@,
            Display::TV => "tv"@,
        }
    }

    proof fn lemma_catalog() {
        assert forall|v: Display| Self::spec_values().contains(v) by {
            match v {
                Display::Monitor => assert(Self::spec_values()[0] == v),
                Display::TV => assert(Self::spec_values()[1] == v),
            }
        }
        reveal_strlit("monitor");
        reveal_strlit("tv");
        assert("monitor"@.len() == 7);
        assert("tv"@.len() == 2);
    }

    fn values() -> (r: Vec<Display>) {
        let mut r: Vec<Display> = Vec::new();
        r.push(Display::Monitor);
        r.push(Display::TV);
        proof {
            assert(r@ =~= Self::spec_values());
        }
        r
    }

    fn to_option_string(&self) -> (r: &'static str) {
        match self {
            Display::Monitor => "monitor",
            Display::TV => "tv",
        }
    }
}

/// What to do with the machine once the script is applied.
#[derive(Clone, Copy, PartialEq, Eq, Structural, Debug)]
pub enum RebootAction {
    Reboot,
    Shutdown,
}

impl OptionType for RebootAction {
    open spec fn spec_values() -> Seq<RebootAction> {
        seq![RebootAction::Reboot, RebootAction::Shutdown]
    }

    open spec fn spec_code(self) -> Seq<char> {
        match self {
            RebootAction::Reboot => "reboot"@,
            RebootAction::Shutdown => "shutdown"@,
        }
    }

    proof fn lemma_catalog() {
        assert forall|v: RebootAction| Self::spec_values().contains(v) by {
            match v {
                RebootAction::Reboot => assert(Self::spec_values()[0] == v),
                RebootAction::Shutdown => assert(Self::spec_values()[1] == v),
            }
        }
        reveal_strlit("reboot");
        reveal_strlit("shutdown");
        assert("reboot"@.len() == 6);
        assert("shutdown"@.len() == 8);
    }

    fn values() -> (r: Vec<RebootAction>) {
        let mut r: Vec<RebootAction> = Vec::new();
        r.push(RebootAction::Reboot);
        r.push(RebootAction::Shutdown);
        proof {
            assert(r@ =~= Self::spec_values());
        }
        r
    }

    fn to_option_string(&self) -> (r: &'static str) {
        match self {
            RebootAction::Reboot => "reboot",
            RebootAction::Shutdown => "shutdown",
        }
    }
}

} // verus!
