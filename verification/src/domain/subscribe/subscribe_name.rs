//! The name of a subscription: between 1 and 20 characters.

use vstd::prelude::*;

verus! {

/// The most characters a subscription name may have.
pub const SUBSCRIBE_NAME_MAX: usize = 20;

/// The name of a subscription.
#[derive(Debug, PartialEq, Eq)]
pub struct SubscribeName(String);

/// Why a text is no category name.
#[derive(Debug, Clone, Copy, PartialEq, Eq, Structural)]
pub enum SubscribeNameError {
    /// The text is empty.
    Empty,
    /// The text has more than 20 characters.
    TooLong,
}

impl SubscribeNameError {
    /// The message of this error.
    pub open spec fn message(self) -> Seq<char> {
        match self {
            SubscribeNameError::Empty => "the subscribe name is empty"@,
            SubscribeNameError::TooLong => "the subscribe name is too long"@,
        }
    }

    /// The message of this error, as a string.
    pub fn to_string(&self) -> (r: String)
        ensures
            r@ == self.message(),
    {
        match self {
            SubscribeNameError::Empty => "the subscribe name is empty".to_owned(),
            SubscribeNameError::TooLong => "the subscribe name is too long".to_owned(),
        }
    }
}

/// What validating `s` as a subscription name gives. Length counts characters,
/// not bytes.
pub open spec fn subscribe_name_spec(s: Seq<char>) -> Result<Seq<char>, SubscribeNameError> {
    if s.len() == 0 {
        Err(SubscribeNameError::Empty)
    } else if s.len() > SUBSCRIBE_NAME_MAX {
        Err(SubscribeNameError::TooLong)
    } else {
        Ok(s)
    }
}

impl View for SubscribeName {
    type V = Seq<char>;

    /// The characters of the name.
    closed spec fn view(&self) -> Seq<char> {
        self.0@
    }
}

impl SubscribeName {
    /// What holds of every value of the type.
    #[verifier::type_invariant]
    pub open spec fn inv(self) -> bool {
        self.wf()
    }

    /// The name is not empty and has at most 20 characters.
    pub open spec fn wf(self) -> bool {
        1 <= self@.len() <= SUBSCRIBE_NAME_MAX
    }

    /// Validates `value` as a subscription name.
    pub fn new(value: &str) -> (r: Result<Self, SubscribeNameError>)
        ensures
            match r {
                Ok(name) => subscribe_name_spec(value@) == Ok::<Seq<char>, SubscribeNameError>(name@)
                    && name.wf(),
                Err(e) => subscribe_name_spec(value@) == Err::<Seq<char>, SubscribeNameError>(e),
            },
    {
        let n = value.unicode_len();
        if n == 0 {
            Err(SubscribeNameError::Empty)
        } else if n > SUBSCRIBE_NAME_MAX {
            Err(SubscribeNameError::TooLong)
        } else {
            Ok(Self(value.to_owned()))
        }
    }

    /// Validates `s` as a subscription name; the same as [`SubscribeName::new`].
    pub fn from_str(s: &str) -> (r: Result<Self, SubscribeNameError>)
        ensures
            match r {
                Ok(name) => subscribe_name_spec(s@) == Ok::<Seq<char>, SubscribeNameError>(name@)
                    && name.wf(),
                Err(e) => subscribe_name_spec(s@) == Err::<Seq<char>, SubscribeNameError>(e),
            },
    {
        Self::new(s)
    }

    /// The name as a string.
    pub fn to_string(&self) -> (r: String)
        ensures
            r@ == self@,
    {
        self.0.clone()
    }
}

impl Clone for SubscribeName {
    fn clone(&self) -> (r: Self)
        ensures
            r == *self,
    {
        proof {
            use_type_invariant(self);
        }
        Self(self.0.clone())
    }
}

} // verus!
