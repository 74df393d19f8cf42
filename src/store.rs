use vstd::prelude::*;

verus! {

/// The namespace of the protected configuration store that holds the value.
pub const CRYPTOGRAPHY_NAMESPACE: &'static str = "SOFTWARE\\Microsoft\\Cryptography";

/// The name of the machine identity value inside that namespace.
pub const MACHINE_GUID_VALUE: &'static str = "MachineGuid";

/// Why a read of the machine identity value failed.
#[derive(Clone, Copy, Debug, PartialEq, Eq, Structural)]
pub enum ReadError {
    /// The namespace or the value could not be opened or found.
    NotAccessible,
    /// The stored value is not representable as a string.
    TypeMismatch,
}

/// Why a write of the machine identity value failed.
#[derive(Clone, Copy, Debug, PartialEq, Eq, Structural)]
pub enum WriteError {
    /// Mutation rights on the namespace could not be acquired.
    AccessDenied,
    /// Any other failure of the platform store.
    StoreFailure,
}

impl ReadError {
    /// The human-readable detail of this error.
    pub open spec fn text(self) -> Seq<char> {
        match self {
            ReadError::NotAccessible => "configuration value not accessible"@,
            ReadError::TypeMismatch => "configuration value is not a string"@,
        }
    }

    pub fn describe(&self) -> (r: String)
        ensures
            r@ == self.text(),
    {
        match self {
            ReadError::NotAccessible => "configuration value not accessible".to_owned(),
            ReadError::TypeMismatch => "configuration value is not a string".to_owned(),
        }
    }
}

impl WriteError {
    /// The human-readable detail of this error.
    pub open spec fn text(self) -> Seq<char> {
        match self {
            WriteError::AccessDenied => "access denied"@,
            WriteError::StoreFailure => "configuration store failure"@,
        }
    }

    pub fn describe(&self) -> (r: String)
        ensures
            r@ == self.text(),
    {
        match self {
            WriteError::AccessDenied => "access denied".to_owned(),
            WriteError::StoreFailure => "configuration store failure".to_owned(),
        }
    }
}

} // verus!
