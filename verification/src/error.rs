//! Why an action was turned down.

use vstd::prelude::*;
use vstd::string::StringExecFns;

verus! {

/// What an error is, as plain values.
pub enum BErrorView {
    Custom(Seq<char>),
    SameContinent,
    GreyHeld,
}

/// A rule that an action broke. The player may try something else.
#[derive(Debug)]
pub enum BError {
    /// A reason given in words.
    Custom(String),
    /// The pile already holds as many countries of that continent as allowed.
    SameContinent,
    /// Going home was asked for while its condition on grey cards is unmet.
    GreyHeld,
}

impl View for BError {
    type V = BErrorView;

    open spec fn view(&self) -> BErrorView {
        match self {
            BError::Custom(reason) => BErrorView::Custom(reason@),
            BError::SameContinent => BErrorView::SameContinent,
            BError::GreyHeld => BErrorView::GreyHeld,
        }
    }
}

impl BErrorView {
    /// The sentence shown to the player.
    pub open spec fn message(self) -> Seq<char> {
        match self {
            BErrorView::Custom(reason) => reason,
            BErrorView::SameContinent => "too many countries of the same continent"@,
            BErrorView::GreyHeld => "you can't go home with grey cards"@,
        }
    }
}

impl BError {
    /// The sentence shown to the player.
    pub fn message(&self) -> (text: String)
        ensures
            text@ == self@.message(),
    {
        match self {
            BError::Custom(reason) => reason.clone(),
            BError::SameContinent => String::from_str("too many countries of the same continent"),
            BError::GreyHeld => String::from_str("you can't go home with grey cards"),
        }
    }
}

} // verus!
