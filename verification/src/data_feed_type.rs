use vstd::prelude::*;

verus! {

/// The feed that a session carries.
#[derive(Debug, Clone, Copy, PartialEq, Eq, Structural)]
pub enum DataFeedType {
    Itch,
    Mdf,
}

impl DataFeedType {
    /// The feed's name, in capitals.
    pub open spec fn name(self) -> Seq<char> {
        match self {
            DataFeedType::Itch => "ITCH"@,
            DataFeedType::Mdf => "MDF"@,
        }
    }

    /// The feed's name, in capitals.
    #[inline]
    pub fn as_str(&self) -> (name: &str)
        ensures
            name@ == self.name(),
    {
        match self {
            DataFeedType::Itch => "ITCH",
            DataFeedType::Mdf => "MDF",
        }
    }
}

} // verus!
