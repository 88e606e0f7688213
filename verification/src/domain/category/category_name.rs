//! The name of a category: between 1 and 20 characters.

use vstd::prelude::*;

verus! {

/// The most characters a category name may have.
pub const CATEGORY_NAME_MAX: usize = 20;

/// The name of a category.
#[derive(Debug, PartialEq, Eq)]
pub struct CategoryName(String);

/// Why a text is no category name.
#[derive(Debug, Clone, Copy, PartialEq, Eq, Structural)]
pub enum CategoryNameError {
    /// The text is empty.
    Empty,
    /// The text has more than 20 characters.
    TooLong,
}

impl CategoryNameError {
    /// The message of this error.
    pub open spec fn message(self) -> Seq<char> {
        match self {
            CategoryNameError::Empty => "the category name is empty"@,
            CategoryNameError::TooLong => "the category name is too long"@,
        }
    }

    /// The message of this error, as a string.
    pub fn to_string(&self) -> (r: String)
        ensures
            r@ == self.message(),
    {
        match self {
            CategoryNameError::Empty => "the category name is empty".to_owned(),
            CategoryNameError::TooLong => "the category name is too long".to_owned(),
        }
    }
}

/// What validating `s` as a category name gives. Length counts characters,
/// not bytes.
pub open spec fn category_name_spec(s: Seq<char>) -> Result<Seq<char>, CategoryNameError> {
    if s.len() == 0 {
        Err(CategoryNameError::Empty)
    } else if s.len() > CATEGORY_NAME_MAX {
        Err(CategoryNameError::TooLong)
    } else {
        Ok(s)
    }
}

impl View for CategoryName {
    type V = Seq<char>;

    /// The characters of the name.
    closed spec fn view(&self) -> Seq<char> {
        self.0@
    }
}

impl CategoryName {
    /// What holds of every value of the type.
    #[verifier::type_invariant]
    pub open spec fn inv(self) -> bool {
        self.wf()
    }

    /// The name is not empty and has at most 20 characters.
    pub open spec fn wf(self) -> bool {
        1 <= self@.len() <= CATEGORY_NAME_MAX
    }

    /// Validates `value` as a category name.
    pub fn new(value: &str) -> (r: Result<Self, CategoryNameError>)
        ensures
            match r {
                Ok(name) => category_name_spec(value@) == Ok::<Seq<char>, CategoryNameError>(name@)
                    && name.wf(),
                Err(e) => category_name_spec(value@) == Err::<Seq<char>, CategoryNameError>(e),
            },
    {
        let n = value.unicode_len();
        if n == 0 {
            Err(CategoryNameError::Empty)
        } else if n > CATEGORY_NAME_MAX {
            Err(CategoryNameError::TooLong)
        } else {
            Ok(Self(value.to_owned()))
        }
    }

    /// Validates `s` as a category name; the same as [`CategoryName::new`].
    pub fn from_str(s: &str) -> (r: Result<Self, CategoryNameError>)
        ensures
            match r {
                Ok(name) => category_name_spec(s@) == Ok::<Seq<char>, CategoryNameError>(name@)
                    && name.wf(),
                Err(e) => category_name_spec(s@) == Err::<Seq<char>, CategoryNameError>(e),
            },
    {
        Self::new(s)
    }

    /// The name as a string.
    pub fn to_string(&self) -> (r: String)
        ensures
            r@ == self@,
    {
        self.0.clone()
    }
}

impl Clone for CategoryName {
    fn clone(&self) -> (r: Self)
        ensures
            r == *self,
    {
        proof {
            use_type_invariant(self);
        }
        Self(self.0.clone())
    }
}

} // verus!
