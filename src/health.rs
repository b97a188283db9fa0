use vstd::prelude::*;

use crate::decimal::{decimal, decimal_string};

verus! {

/// Hit points carried by an entity.
#[derive(Debug, Clone, Copy, PartialEq, Eq, Structural)]
pub struct Health(pub u32);

/// The right-hand side of `health += value` as a script hands it over: a
/// number already converted to `u32`, or any other value, known by the name
/// of its type.
#[derive(Debug)]
pub enum Operand {
    Number(u32),
    Other { type_string: String },
}

/// Why adding to a `Health` failed.
#[derive(Debug)]
pub enum HealthError {
    /// The operand was not a number.
    UnexpectedType { expected: String, unexpected: String },
    /// The sum does not fit in `u32`.
    Overflow,
}

/// The name of the type that `Health` accepts as an operand.
pub open spec fn number_kind() -> Seq<char> {
    seq!['N', 'u', 'm', 'b', 'e', 'r']
}

/// The text that a script shows for a health of `n`.
pub open spec fn display_of(n: u32) -> Seq<char> {
    seq!['H', 'e', 'a', 'l', 't', 'h', '!', '!', '!', '('] + decimal(n as nat) + seq![')']
}

impl Health {
    /// Adds a script value to the hit points: a number is added, anything
    /// else is refused with the name of its type; a sum past `u32::MAX`
    /// leaves the hit points as they were.
    pub fn add_assign(&mut self, rhs: &Operand) -> (r: Result<(), HealthError>)
        ensures
            match rhs {
                Operand::Number(v) => {
                    if old(self).0 + *v <= u32::MAX {
                        r is Ok && final(self).0 == old(self).0 + *v
                    } else {
                        r matches Err(HealthError::Overflow) && *final(self) == *old(self)
                    }
                },
                Operand::Other { type_string } => {
                    &&& *final(self) == *old(self)
                    &&& r matches Err(HealthError::UnexpectedType { expected, unexpected })
                    &&& expected@ == number_kind()
                    &&& unexpected@ == type_string@
                },
            },
    {
        match rhs {
            Operand::Number(v) => {
                match self.0.checked_add(*v) {
                    Some(sum) => {
                        self.0 = sum;
                        Ok(())
                    },
                    None => Err(HealthError::Overflow),
                }
            },
            Operand::Other { type_string } => {
                proof {
                    reveal_strlit("Number");
                }
                Err(
                    HealthError::UnexpectedType {
                        expected: String::from_str("Number"),
                        unexpected: type_string.clone(),
                    },
                )
            },
        }
    }

    /// The text shown for this value: `Health!!!(<hit points>)`.
    pub fn display_text(&self) -> (r: String)
        ensures
            r@ == display_of(self.0),
    {
        proof {
            reveal_strlit("Health!!!(");
            reveal_strlit(")");
        }
        let mut s = String::from_str("Health!!!(");
        let digits = decimal_string(self.0);
        s.append(digits.as_str());
        s.append(")");
        proof {
            assert(s@ =~= display_of(self.0));
        }
        s
    }
}

} // verus!
