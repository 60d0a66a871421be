//! Identifiers and categories that describe sound sources.

use vstd::prelude::*;

verus! {

/// Parameter identifier.
#[derive(Clone, Debug, PartialEq, Eq, Hash)]
pub struct ParamId(pub String);

impl ParamId {
    /// An identifier with the text `id`.
    pub fn new(id: &str) -> (param_id: Self)
        ensures
            param_id.0@ == id@,
    {
        ParamId(id.to_owned())
    }
}

/// Whether two strings hold the same characters.
pub(crate) fn str_equal(a: &str, b: &str) -> (equal: bool)
    ensures
        equal == (a@ == b@),
{
    let n = a.unicode_len();
    if n != b.unicode_len() {
        return false;
    }
    let mut i: usize = 0;
    while i < n
        invariant
            n == a@.len(),
            n == b@.len(),
            i <= n,
            forall|j: int| 0 <= j < i ==> a@[j] == b@[j],
        decreases n - i,
    {
        if a.get_char(i) != b.get_char(i) {
            return false;
        }
        i = i + 1;
    }
    assert(a@ =~= b@);
    true
}

/// Source category, for classification.
#[derive(Clone, Debug, PartialEq, Eq, Hash, Structural)]
pub enum SourceCategory {
    Synth,
    Sampler,
    Effect,
    Drum,
    Other,
}

/// The name under which a category is written.
pub open spec fn category_name(category: SourceCategory) -> Seq<char> {
    match category {
        SourceCategory::Synth => "synth"@,
        SourceCategory::Sampler => "sampler"@,
        SourceCategory::Effect => "effect"@,
        SourceCategory::Drum => "drum"@,
        SourceCategory::Other => "other"@,
    }
}

/// The category that a name stands for; a name that is none of the known
/// ones stands for `Other`.
pub open spec fn category_of_name(name: Seq<char>) -> SourceCategory {
    if name == "synth"@ {
        SourceCategory::Synth
    } else if name == "sampler"@ {
        SourceCategory::Sampler
    } else if name == "effect"@ {
        SourceCategory::Effect
    } else if name == "drum"@ {
        SourceCategory::Drum
    } else {
        SourceCategory::Other
    }
}

impl SourceCategory {
    /// The category's name.
    pub fn as_str(&self) -> (name: &str)
        ensures
            name@ == category_name(*self),
    {
        match self {
            SourceCategory::Synth => "synth",
            SourceCategory::Sampler => "sampler",
            SourceCategory::Effect => "effect",
            SourceCategory::Drum => "drum",
            SourceCategory::Other => "other",
        }
    }

    /// The category named `s`; `Other` for any unknown name.
    pub fn from_str(s: &str) -> (category: Self)
        ensures
            category == category_of_name(s@),
    {
        if str_equal(s, "synth") {
            SourceCategory::Synth
        } else if str_equal(s, "sampler") {
            SourceCategory::Sampler
        } else if str_equal(s, "effect") {
            SourceCategory::Effect
        } else if str_equal(s, "drum") {
            SourceCategory::Drum
        } else {
            SourceCategory::Other
        }
    }
}

/// A category's name reads back as the same category.
pub proof fn lemma_category_name_roundtrip(category: SourceCategory)
    ensures
        category_of_name(category_name(category)) == category,
{
    reveal_strlit("synth");
    reveal_strlit("sampler");
    reveal_strlit("effect");
    reveal_strlit("drum");
    reveal_strlit("other");
    assert("sampler"@.len() != "synth"@.len());
    assert("effect"@.len() != "synth"@.len() && "effect"@.len() != "sampler"@.len());
    assert("drum"@.len() != "synth"@.len() && "drum"@.len() != "sampler"@.len()
        && "drum"@.len() != "effect"@.len());
    assert("other"@[0] != "synth"@[0]);
    assert("other"@.len() != "sampler"@.len() && "other"@.len() != "effect"@.len()
        && "other"@.len() != "drum"@.len());
}

} // verus!
