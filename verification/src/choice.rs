//! What can be offered as an option: anything that can describe itself.

use vstd::prelude::*;
use vstd::string::StringExecFns;

verus! {

/// An option that a decision source can present.
pub trait Choice {
    /// The text under which the option is presented.
    fn describe(&self) -> String;
}

/// An option whose description is held in the option itself.
pub trait ConstantChoice {
    fn describe_str(&self) -> &str;
}

impl<T> Choice for T where T: ConstantChoice {
    fn describe(&self) -> (text: String)
        ensures
            exists|held: &str| #[trigger] call_ensures(T::describe_str, (self,), held) && text@ == held@,
    {
        String::from_str(self.describe_str())
    }
}

} // verus!
