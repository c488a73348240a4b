use vstd::prelude::*;

verus! {

/// The capability tier attached to each account. Routes declare an explicit
/// allow-list of roles; the tiers are not ordered.
#[derive(Clone, Copy, PartialEq, Eq, Structural, Debug)]
pub enum CustomerRole {
    Admin,
    Staff,
    Viewer,
}

/// The durable account record as this core reads it: the identifier is the
/// canonical string form used as a token subject, `password` is the stored
/// bcrypt hash, and the timestamps are seconds since the Unix epoch.
#[derive(Clone, Debug)]
pub struct Customer {
    pub id: String,
    pub firstname: String,
    pub lastname: String,
    pub password: String,
    pub email: String,
    pub role: CustomerRole,
    pub created_at: Option<i64>,
    pub updated_at: Option<i64>,
}

/// The fields handed to the persistence collaborator to create an account;
/// `password` is already hashed by the time this is built.
#[derive(Clone, Debug)]
pub struct CreateCustomerSchema {
    pub firstname: String,
    pub lastname: String,
    pub email: String,
    pub password: String,
    pub role: Option<CustomerRole>,
}

/// An account as it may appear in a response: every field of the record
/// except the stored credential hash.
#[derive(Clone, Debug)]
pub struct CustomerPublic {
    pub id: String,
    pub firstname: String,
    pub lastname: String,
    pub email: String,
    pub role: CustomerRole,
    pub created_at: Option<i64>,
    pub updated_at: Option<i64>,
}

impl Customer {
    /// This record shaped for a response, with the credential hash left out.
    pub fn without_password(&self) -> (r: CustomerPublic)
        ensures
            r.id@ == self.id@,
            r.firstname@ == self.firstname@,
            r.lastname@ == self.lastname@,
            r.email@ == self.email@,
            r.role == self.role,
            r.created_at == self.created_at,
            r.updated_at == self.updated_at,
    {
        CustomerPublic {
            id: self.id.clone(),
            firstname: self.firstname.clone(),
            lastname: self.lastname.clone(),
            email: self.email.clone(),
            role: self.role,
            created_at: self.created_at,
            updated_at: self.updated_at,
        }
    }
}

} // verus!
