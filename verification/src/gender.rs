use core::cmp::Ordering;
use vstd::prelude::*;

verus! {

/// Grammatical gender recorded for a name.
///
/// The variants are ordered `Male < Female < Unisex`. The order only serves to
/// sort and store values in a stable way.
#[derive(Debug, Clone, Copy, PartialEq, Eq, Structural, Ord)]
pub enum Gender {
    Male,
    Female,
    Unisex,
}

impl Gender {
    /// Position of the variant in the order `Male < Female < Unisex`.
    pub open spec fn rank(self) -> nat {
        match self {
            Gender::Male => 0,
            Gender::Female => 1,
            Gender::Unisex => 2,
        }
    }

    /// Whether a name stored with gender `self` passes a filter that asks for
    /// `requested`: a unisex name passes every filter, any other name passes
    /// only the filter that asks for exactly its own gender.
    pub open spec fn passes(self, requested: Gender) -> bool {
        self == requested || self == Gender::Unisex
    }

    /// The word shown for this gender in a report.
    pub open spec fn label_text(self) -> Seq<char> {
        match self {
            Gender::Male => "Masculine"@,
            Gender::Female => "Feminine"@,
            Gender::Unisex => "Unisex"@,
        }
    }

    /// Decides whether a name stored with gender `self` passes a filter that
    /// asks for `requested`.
    pub fn passes_filter(self, requested: Gender) -> (passed: bool)
        ensures
            passed == self.passes(requested),
    {
        match (self, requested) {
            (Gender::Male, Gender::Female) => false,
            (Gender::Female, Gender::Male) => false,
            (Gender::Male, Gender::Unisex) => false,
            (Gender::Female, Gender::Unisex) => false,
            _ => true,
        }
    }

    /// The word shown for this gender in a report.
    pub fn label(self) -> (word: &'static str)
        ensures
            word@ == self.label_text(),
    {
        match self {
            Gender::Male => "Masculine",
            Gender::Female => "Feminine",
            Gender::Unisex => "Unisex",
        }
    }

    /// The pairs that a gender filter turns away are exactly the four in
    /// which the stored gender is `Male` or `Female` and the requested one
    /// is anything else.
    pub proof fn lemma_rejected_pairs(stored: Gender, requested: Gender)
        ensures
            !stored.passes(requested) <==> {
                ||| (stored == Gender::Male && requested == Gender::Female)
                ||| (stored == Gender::Female && requested == Gender::Male)
                ||| (stored == Gender::Male && requested == Gender::Unisex)
                ||| (stored == Gender::Female && requested == Gender::Unisex)
            },
    {
    }
}

impl Default for Gender {
    /// A name whose gender was not given is unisex.
    fn default() -> (gender: Gender)
        ensures
            gender == Gender::Unisex,
    {
        Gender::Unisex
    }
}

impl PartialOrd for Gender {
    fn partial_cmp(&self, other: &Gender) -> (order: Option<Ordering>) {
        let order = match (*self, *other) {
            (Gender::Male, Gender::Male) => Ordering::Equal,
            (Gender::Male, _) => Ordering::Less,
            (Gender::Female, Gender::Male) => Ordering::Greater,
            (Gender::Female, Gender::Female) => Ordering::Equal,
            (Gender::Female, Gender::Unisex) => Ordering::Less,
            (Gender::Unisex, Gender::Unisex) => Ordering::Equal,
            (Gender::Unisex, _) => Ordering::Greater,
        };
        Some(order)
    }
}

impl vstd::std_specs::cmp::PartialOrdSpecImpl for Gender {
    open spec fn obeys_partial_cmp_spec() -> bool {
        true
    }

    open spec fn partial_cmp_spec(&self, other: &Gender) -> Option<Ordering> {
        if self.rank() < other.rank() {
            Some(Ordering::Less)
        } else if self.rank() == other.rank() {
            Some(Ordering::Equal)
        } else {
            Some(Ordering::Greater)
        }
    }
}

} // verus!
