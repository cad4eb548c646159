//! Errors of handing resources between plugins.
use vstd::prelude::*;

verus! {

/// Creating a resource failed.
#[derive(Debug, Clone, Copy, PartialEq, Eq, Structural)]
pub enum ResourceCreationError {
    ResourceTableFull,
}

/// Receiving a resource failed.
#[derive(Debug, Clone, Copy, PartialEq, Eq, Structural)]
pub enum ResourceReceiveError {
    InvalidHandle,
}

impl ResourceCreationError {
    /// The error's description.
    pub fn message(&self) -> (r: &'static str)
        ensures
            match self {
                ResourceCreationError::ResourceTableFull => r@ == "Resource Table Full"@,
            },
    {
        match self {
            ResourceCreationError::ResourceTableFull => "Resource Table Full",
        }
    }

    /// The case of the interface's error variant that a plugin receives for
    /// this error.
    pub fn case_name(&self) -> (r: &'static str)
        ensures
            match self {
                ResourceCreationError::ResourceTableFull => r@ == "resource-table-full"@,
            },
    {
        match self {
            ResourceCreationError::ResourceTableFull => "resource-table-full",
        }
    }
}

impl ResourceReceiveError {
    /// The error's description.
    pub fn message(&self) -> (r: &'static str)
        ensures
            match self {
                ResourceReceiveError::InvalidHandle => r@ == "Invalid Handle"@,
            },
    {
        match self {
            ResourceReceiveError::InvalidHandle => "Invalid Handle",
        }
    }

    /// The case of the interface's error variant that a plugin receives for
    /// this error.
    pub fn case_name(&self) -> (r: &'static str)
        ensures
            match self {
                ResourceReceiveError::InvalidHandle => r@ == "invalid-resource-handle"@,
            },
    {
        match self {
            ResourceReceiveError::InvalidHandle => "invalid-resource-handle",
        }
    }
}

} // verus!
