//! What a text field tells the keyboard about its content.

use vstd::prelude::*;

verus! {

/// A set of hints about the text field, one bit per hint.
#[derive(Clone, Copy, Debug, PartialEq, Eq, Structural)]
pub struct ContentHint {
    pub bits: u32,
}

impl ContentHint {
    /// The empty set of hints.
    pub fn none() -> (hint: ContentHint)
        ensures
            hint.bits == 0,
    {
        ContentHint { bits: 0 }
    }
}

/// The kind of text that a field expects.
#[derive(Clone, Copy, Debug, PartialEq, Eq, Structural)]
pub enum ContentPurpose {
    Normal,
    Alpha,
    Digits,
    Number,
    Phone,
    Url,
    Email,
    Name,
    Password,
    Pin,
    Date,
    Time,
    Datetime,
    Terminal,
}

impl ContentPurpose {
    /// The number that stands for this purpose on the wire.
    pub open spec fn spec_code(self) -> u32 {
        match self {
            ContentPurpose::Normal => 0,
            ContentPurpose::Alpha => 1,
            ContentPurpose::Digits => 2,
            ContentPurpose::Number => 3,
            ContentPurpose::Phone => 4,
            ContentPurpose::Url => 5,
            ContentPurpose::Email => 6,
            ContentPurpose::Name => 7,
            ContentPurpose::Password => 8,
            ContentPurpose::Pin => 9,
            ContentPurpose::Date => 10,
            ContentPurpose::Time => 11,
            ContentPurpose::Datetime => 12,
            ContentPurpose::Terminal => 13,
        }
    }

    /// Returns the number that stands for this purpose on the wire.
    pub fn code(self) -> (code: u32)
        ensures
            code == self.spec_code(),
    {
        match self {
            ContentPurpose::Normal => 0,
            ContentPurpose::Alpha => 1,
            ContentPurpose::Digits => 2,
            ContentPurpose::Number => 3,
            ContentPurpose::Phone => 4,
            ContentPurpose::Url => 5,
            ContentPurpose::Email => 6,
            ContentPurpose::Name => 7,
            ContentPurpose::Password => 8,
            ContentPurpose::Pin => 9,
            ContentPurpose::Date => 10,
            ContentPurpose::Time => 11,
            ContentPurpose::Datetime => 12,
            ContentPurpose::Terminal => 13,
        }
    }
}

} // verus!
