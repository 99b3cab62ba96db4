//! The steps of the registration form.

use vstd::prelude::*;

verus! {

/// The steps, in the order in which a user takes them.
#[derive(Clone, Copy, PartialEq, Eq, Debug, Structural)]
pub enum RegisterStep {
    CreateAccount,
    VerifyEmail,
    SetPassword,
    SetUsername,
}

impl RegisterStep {
    /// The place of the step, from 0.
    pub open spec fn place(self) -> nat {
        match self {
            RegisterStep::CreateAccount => 0,
            RegisterStep::VerifyEmail => 1,
            RegisterStep::SetPassword => 2,
            RegisterStep::SetUsername => 3,
        }
    }

    /// The place of the step, from 0.
    pub fn index(self) -> (r: usize)
        ensures
            r == self.place(),
    {
        match self {
            RegisterStep::CreateAccount => 0,
            RegisterStep::VerifyEmail => 1,
            RegisterStep::SetPassword => 2,
            RegisterStep::SetUsername => 3,
        }
    }

    /// The step that follows; the last step stays.
    pub fn next(self) -> (r: Self)
        ensures
            r.place() == if self.place() < 3 {
                self.place() + 1
            } else {
                3
            },
    {
        match self {
            RegisterStep::CreateAccount => RegisterStep::VerifyEmail,
            RegisterStep::VerifyEmail => RegisterStep::SetPassword,
            RegisterStep::SetPassword => RegisterStep::SetUsername,
            RegisterStep::SetUsername => RegisterStep::SetUsername,
        }
    }

    /// The step before; the first step stays.
    pub fn back(self) -> (r: Self)
        ensures
            r.place() == if self.place() > 0 {
                self.place() - 1
            } else {
                0
            },
    {
        match self {
            RegisterStep::CreateAccount => RegisterStep::CreateAccount,
            RegisterStep::VerifyEmail => RegisterStep::CreateAccount,
            RegisterStep::SetPassword => RegisterStep::VerifyEmail,
            RegisterStep::SetUsername => RegisterStep::SetPassword,
        }
    }

    /// What the step is called in the indicator.
    pub fn label(self) -> (r: &'static str)
        ensures
            r@ == match self {
                RegisterStep::CreateAccount => "Account"@,
                RegisterStep::VerifyEmail => "Verify"@,
                RegisterStep::SetPassword => "Password"@,
                RegisterStep::SetUsername => "Username"@,
            },
    {
        match self {
            RegisterStep::CreateAccount => "Account",
            RegisterStep::VerifyEmail => "Verify",
            RegisterStep::SetPassword => "Password",
            RegisterStep::SetUsername => "Username",
        }
    }

    /// Whether the indicator shows a step as reached when the user is at
    /// `current`: the current step and every step before it are.
    pub fn is_reached(self, current: RegisterStep) -> (r: bool)
        ensures
            r == (self.place() <= current.place()),
    {
        self.index() <= current.index()
    }
}

} // verus!
