//! The errors that building, converting and combining data can return.

use vstd::prelude::*;
use vstd::string::*;

verus! {

/// Why an operation on arrays or series was refused.
#[derive(Debug, Clone, PartialEq, Eq)]
pub enum DataError {
    /// A conversion between units of different dimensions; both unit names.
    IncompatibleUnits { from: String, to: String },
    /// A sum of quantities whose units are not identical; both unit names.
    IncompatibleAddition { lhs: String, rhs: String },
    /// A difference of quantities whose units are not identical; both unit
    /// names.
    IncompatibleSubtraction { lhs: String, rhs: String },
    /// A division by a quantity that holds a zero.
    DivideByZero,
    /// A quantity that is missing or is not of the required shape.
    InvalidQuantity(String),
    /// Two parts of one value that do not fit together.
    MismatchError(String),
}

/// The character for one decimal digit.
pub open spec fn digit(d: nat) -> char {
    if d == 0 {
        '0'
    } else if d == 1 {
        '1'
    } else if d == 2 {
        '2'
    } else if d == 3 {
        '3'
    } else if d == 4 {
        '4'
    } else if d == 5 {
        '5'
    } else if d == 6 {
        '6'
    } else if d == 7 {
        '7'
    } else if d == 8 {
        '8'
    } else {
        '9'
    }
}

/// A natural number written in decimal, without leading zeros.
pub open spec fn decimal_text(n: nat) -> Seq<char>
    decreases n,
{
    if n < 10 {
        seq![digit(n)]
    } else {
        decimal_text(n / 10) + seq![digit(n % 10)]
    }
}

/// The text that reports an index of one length beside values of another.
pub open spec fn length_mismatch_text(index_len: nat, value_len: nat) -> Seq<char> {
    "Index length ("@ + decimal_text(index_len) + ") must match value length ("@ + decimal_text(
        value_len,
    ) + ")"@
}

fn digit_str(d: usize) -> (s: &'static str)
    requires
        d < 10,
    ensures
        s@ == seq![digit(d as nat)],
{
    proof {
        reveal_strlit("0");
        reveal_strlit("1");
        reveal_strlit("2");
        reveal_strlit("3");
        reveal_strlit("4");
        reveal_strlit("5");
        reveal_strlit("6");
        reveal_strlit("7");
        reveal_strlit("8");
        reveal_strlit("9");
    }
    let s = if d == 0 {
        "0"
    } else if d == 1 {
        "1"
    } else if d == 2 {
        "2"
    } else if d == 3 {
        "3"
    } else if d == 4 {
        "4"
    } else if d == 5 {
        "5"
    } else if d == 6 {
        "6"
    } else if d == 7 {
        "7"
    } else if d == 8 {
        "8"
    } else {
        "9"
    };
    assert(s@ =~= seq![digit(d as nat)]);
    s
}

/// Writes a number in decimal.
pub fn decimal(n: usize) -> (s: String)
    ensures
        s@ == decimal_text(n as nat),
    decreases n,
{
    if n < 10 {
        String::from_str(digit_str(n))
    } else {
        decimal(n / 10).concat(digit_str(n % 10))
    }
}

/// The message for an index whose length differs from that of the values.
pub fn length_mismatch_message(index_len: usize, value_len: usize) -> (s: String)
    ensures
        s@ == length_mismatch_text(index_len as nat, value_len as nat),
{
    let a = decimal(index_len);
    let b = decimal(value_len);
    String::from_str("Index length (").concat(a.as_str()).concat(
        ") must match value length (",
    ).concat(b.as_str()).concat(")")
}

impl DataError {
    /// The text of the error, as a reader sees it.
    pub open spec fn text(self) -> Seq<char> {
        match self {
            DataError::IncompatibleUnits { from, to } => "Incompatible units: Cannot convert '"@
                + from@ + "' to '"@ + to@ + "'. Dimensions differ."@,
            DataError::IncompatibleAddition { lhs, rhs } => "Incompatible units: Cannot add '"@
                + lhs@ + "' and '"@ + rhs@ + "'. Units are not identical."@,
            DataError::IncompatibleSubtraction { lhs, rhs } =>
                "Incompatible units: Cannot subtract '"@ + lhs@ + "' and '"@ + rhs@
                    + "'. Units are not identical."@,
            DataError::DivideByZero => "Invalid operation: Cannot divide by zero."@,
            DataError::InvalidQuantity(m) => "Invalid quantity: '"@ + m@ + "'"@,
            DataError::MismatchError(m) => "Mismatched quantity: "@ + m@,
        }
    }

    /// Renders the error as text.
    pub fn message(&self) -> (s: String)
        ensures
            s@ == self.text(),
    {
        match self {
            DataError::IncompatibleUnits { from, to } => String::from_str(
                "Incompatible units: Cannot convert '",
            ).concat(from.as_str()).concat("' to '").concat(to.as_str()).concat(
                "'. Dimensions differ.",
            ),
            DataError::IncompatibleAddition { lhs, rhs } => String::from_str(
                "Incompatible units: Cannot add '",
            ).concat(lhs.as_str()).concat("' and '").concat(rhs.as_str()).concat(
                "'. Units are not identical.",
            ),
            DataError::IncompatibleSubtraction { lhs, rhs } => String::from_str(
                "Incompatible units: Cannot subtract '",
            ).concat(lhs.as_str()).concat("' and '").concat(rhs.as_str()).concat(
                "'. Units are not identical.",
            ),
            DataError::DivideByZero => String::from_str("Invalid operation: Cannot divide by zero."),
            DataError::InvalidQuantity(m) => String::from_str("Invalid quantity: '").concat(
                m.as_str(),
            ).concat("'"),
            DataError::MismatchError(m) => String::from_str("Mismatched quantity: ").concat(
                m.as_str(),
            ),
        }
    }
}

} // verus!
