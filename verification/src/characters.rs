//! Story characters that can switch sides and be combined.

use vstd::prelude::*;
use vstd::string::StringExecFns;

verus! {

/// Which side a character is on.
#[derive(Debug, PartialEq, Eq, Structural)]
pub enum CharacterType {
    Demon,
    Human,
}

/// The opposite side.
pub open spec fn flipped(kind: CharacterType) -> CharacterType {
    match kind {
        CharacterType::Demon => CharacterType::Human,
        CharacterType::Human => CharacterType::Demon,
    }
}

/// A named character on one of the two sides.
pub struct Character {
    pub kind: CharacterType,
    pub name: String,
}

impl Character {
    /// Negation: the same character on the opposite side.
    pub fn not(self) -> (r: Character)
        ensures
            r.kind == flipped(self.kind),
            r.name == self.name,
    {
        let kind = match &self.kind {
            CharacterType::Demon => CharacterType::Human,
            CharacterType::Human => CharacterType::Demon,
        };
        Character { kind, name: self.name }
    }

    /// Combination: the names joined with a hyphen, and a human exactly
    /// when the two sides agree.
    pub fn mul(self, rhs: Character) -> (r: Character)
        ensures
            r.name@ == self.name@ + "-"@ + rhs.name@,
            r.kind == (if self.kind == rhs.kind {
                CharacterType::Human
            } else {
                CharacterType::Demon
            }),
    {
        let name = self.name.concat("-").concat(rhs.name.as_str());
        let kind = match self.kind == rhs.kind {
            true => CharacterType::Human,
            false => CharacterType::Demon,
        };
        Character { kind, name }
    }
}

} // verus!
