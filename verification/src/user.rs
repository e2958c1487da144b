//! User enumerations and the text forms they are stored and served under.

use vstd::prelude::*;
use vstd::string::StringExecFns;

use crate::text::str_eq;

verus! {

/// What a user may do.
#[derive(Debug, Clone, Copy, PartialEq, Eq, Structural)]
pub enum UserRole {
    Admin,
    User,
}

/// What kind of account a user holds.
#[derive(Debug, Clone, Copy, PartialEq, Eq, Structural)]
pub enum UserType {
    Seller,
    Artist,
}

/// Where a user's pending request stands.
#[derive(Debug, Clone, Copy, PartialEq, Eq, Structural)]
pub enum RequestStatus {
    NotSend,
    Pending,
    Confirmed,
    Rejected,
}

impl UserRole {
    pub open spec fn spec_str(self) -> Seq<char> {
        match self {
            UserRole::Admin => "admin"@,
            UserRole::User => "user"@,
        }
    }

    /// The stored text of this role.
    pub fn to_string(&self) -> (r: String)
        ensures
            r@ == self.spec_str(),
    {
        match self {
            UserRole::Admin => String::from_str("admin"),
            UserRole::User => String::from_str("user"),
        }
    }

    /// Reads a role back from its stored text; any other text is rejected.
    pub fn from_str(s: &str) -> (r: Result<UserRole, ()>)
        ensures
            match r {
                Ok(v) => s@ == v.spec_str(),
                Err(_) => s@ != UserRole::Admin.spec_str() && s@ != UserRole::User.spec_str(),
            },
    {
        if str_eq(s, "admin") {
            Ok(UserRole::Admin)
        } else if str_eq(s, "user") {
            Ok(UserRole::User)
        } else {
            Err(())
        }
    }
}

impl UserType {
    pub open spec fn spec_str(self) -> Seq<char> {
        match self {
            UserType::Seller => "seller"@,
            UserType::Artist => "artist"@,
        }
    }

    /// The stored text of this account kind.
    pub fn to_string(&self) -> (r: String)
        ensures
            r@ == self.spec_str(),
    {
        match self {
            UserType::Seller => String::from_str("seller"),
            UserType::Artist => String::from_str("artist"),
        }
    }

    /// Reads an account kind back from its stored text.
    pub fn from_str(s: &str) -> (r: Result<UserType, ()>)
        ensures
            match r {
                Ok(v) => s@ == v.spec_str(),
                Err(_) => s@ != UserType::Seller.spec_str() && s@ != UserType::Artist.spec_str(),
            },
    {
        if str_eq(s, "seller") {
            Ok(UserType::Seller)
        } else if str_eq(s, "artist") {
            Ok(UserType::Artist)
        } else {
            Err(())
        }
    }
}

impl RequestStatus {
    pub open spec fn spec_str(self) -> Seq<char> {
        match self {
            RequestStatus::NotSend => "notsend"@,
            RequestStatus::Pending => "pending"@,
            RequestStatus::Confirmed => "confirmed"@,
            RequestStatus::Rejected => "rejected"@,
        }
    }

    /// The stored text of this status.
    pub fn to_string(&self) -> (r: String)
        ensures
            r@ == self.spec_str(),
    {
        match self {
            RequestStatus::NotSend => String::from_str("notsend"),
            RequestStatus::Pending => String::from_str("pending"),
            RequestStatus::Confirmed => String::from_str("confirmed"),
            RequestStatus::Rejected => String::from_str("rejected"),
        }
    }

    /// Reads a status back from its stored text.
    pub fn from_str(s: &str) -> (r: Result<RequestStatus, ()>)
        ensures
            match r {
                Ok(v) => s@ == v.spec_str(),
                Err(_) => s@ != RequestStatus::NotSend.spec_str() && s@
                    != RequestStatus::Pending.spec_str() && s@
                    != RequestStatus::Confirmed.spec_str() && s@
                    != RequestStatus::Rejected.spec_str(),
            },
    {
        if str_eq(s, "notsend") {
            Ok(RequestStatus::NotSend)
        } else if str_eq(s, "pending") {
            Ok(RequestStatus::Pending)
        } else if str_eq(s, "confirmed") {
            Ok(RequestStatus::Confirmed)
        } else if str_eq(s, "rejected") {
            Ok(RequestStatus::Rejected)
        } else {
            Err(())
        }
    }
}

} // verus!
