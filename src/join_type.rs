use vstd::prelude::*;

verus! {

/// The kinds of join a query plan can perform.
#[derive(Debug, PartialEq, Eq, Structural, Clone, Copy)]
pub enum JoinType {
    Left,
    Right,
    Inner,
    Full,
}

/// The display name of each join kind.
pub open spec fn join_type_name(j: JoinType) -> Seq<char> {
    match j {
        JoinType::Left => "Left Join"@,
        JoinType::Right => "Right Join"@,
        JoinType::Inner => "Inner Join"@,
        JoinType::Full => "Full Join"@,
    }
}

impl JoinType {
    /// The human-readable name of the join, as shown in plan output.
    pub fn to_string(&self) -> (r: String)
        ensures
            r@ == join_type_name(*self),
    {
        match self {
            JoinType::Left => String::from_str("Left Join"),
            JoinType::Right => String::from_str("Right Join"),
            JoinType::Inner => String::from_str("Inner Join"),
            JoinType::Full => String::from_str("Full Join"),
        }
    }
}

} // verus!
