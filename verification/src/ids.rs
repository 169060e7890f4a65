//! Opaque string-backed identifier types.
//!
//! The store never inspects the text of an identifier: it only compares,
//! hashes, and embeds identifiers in keys. Validation of identifier syntax is
//! the collaborator layer's concern, so construction here is total.

use vstd::prelude::*;

verus! {

/// Environment scope identifier (for example `dev` or `prod`).
#[derive(Debug)]
pub struct EnvId(pub String);

impl View for EnvId {
    type V = Seq<char>;

    open spec fn view(&self) -> Seq<char> {
        self.0@
    }
}

impl Clone for EnvId {
    fn clone(&self) -> (r: Self)
        ensures
            r@ == self@,
    {
        EnvId(self.0.clone())
    }
}

impl EnvId {
    /// Wraps the provided text as an environment identifier.
    pub fn new(value: String) -> (r: EnvId)
        ensures
            r@ == value@,
    {
        EnvId(value)
    }

    /// Borrows the underlying text.
    pub fn as_str(&self) -> (r: &str)
        ensures
            r@ == self@,
    {
        self.0.as_str()
    }
}

/// Tenant identifier.
#[derive(Debug)]
pub struct TenantId(pub String);

impl View for TenantId {
    type V = Seq<char>;

    open spec fn view(&self) -> Seq<char> {
        self.0@
    }
}

impl Clone for TenantId {
    fn clone(&self) -> (r: Self)
        ensures
            r@ == self@,
    {
        TenantId(self.0.clone())
    }
}

impl TenantId {
    /// Wraps the provided text as a tenant identifier.
    pub fn new(value: String) -> (r: TenantId)
        ensures
            r@ == value@,
    {
        TenantId(value)
    }

    /// Borrows the underlying text.
    pub fn as_str(&self) -> (r: &str)
        ensures
            r@ == self@,
    {
        self.0.as_str()
    }
}

/// Team identifier scoped to a tenant.
#[derive(Debug)]
pub struct TeamId(pub String);

impl View for TeamId {
    type V = Seq<char>;

    open spec fn view(&self) -> Seq<char> {
        self.0@
    }
}

impl Clone for TeamId {
    fn clone(&self) -> (r: Self)
        ensures
            r@ == self@,
    {
        TeamId(self.0.clone())
    }
}

impl TeamId {
    /// Wraps the provided text as a team identifier.
    pub fn new(value: String) -> (r: TeamId)
        ensures
            r@ == value@,
    {
        TeamId(value)
    }

    /// Borrows the underlying text.
    pub fn as_str(&self) -> (r: &str)
        ensures
            r@ == self@,
    {
        self.0.as_str()
    }
}

/// User identifier scoped to a tenant.
#[derive(Debug)]
pub struct UserId(pub String);

impl View for UserId {
    type V = Seq<char>;

    open spec fn view(&self) -> Seq<char> {
        self.0@
    }
}

impl Clone for UserId {
    fn clone(&self) -> (r: Self)
        ensures
            r@ == self@,
    {
        UserId(self.0.clone())
    }
}

impl UserId {
    /// Wraps the provided text as a user identifier.
    pub fn new(value: String) -> (r: UserId)
        ensures
            r@ == value@,
    {
        UserId(value)
    }

    /// Borrows the underlying text.
    pub fn as_str(&self) -> (r: &str)
        ensures
            r@ == self@,
    {
        self.0.as_str()
    }
}

/// Flow identifier naming the paused workflow definition.
#[derive(Debug)]
pub struct FlowId(pub String);

impl View for FlowId {
    type V = Seq<char>;

    open spec fn view(&self) -> Seq<char> {
        self.0@
    }
}

impl Clone for FlowId {
    fn clone(&self) -> (r: Self)
        ensures
            r@ == self@,
    {
        FlowId(self.0.clone())
    }
}

impl FlowId {
    /// Wraps the provided text as a flow identifier.
    pub fn new(value: String) -> (r: FlowId)
        ensures
            r@ == value@,
    {
        FlowId(value)
    }

    /// Borrows the underlying text.
    pub fn as_str(&self) -> (r: &str)
        ensures
            r@ == self@,
    {
        self.0.as_str()
    }
}

/// Pack identifier naming the bundle the flow was installed from.
#[derive(Debug)]
pub struct PackId(pub String);

impl View for PackId {
    type V = Seq<char>;

    open spec fn view(&self) -> Seq<char> {
        self.0@
    }
}

impl Clone for PackId {
    fn clone(&self) -> (r: Self)
        ensures
            r@ == self@,
    {
        PackId(self.0.clone())
    }
}

impl PackId {
    /// Wraps the provided text as a pack identifier.
    pub fn new(value: String) -> (r: PackId)
        ensures
            r@ == value@,
    {
        PackId(value)
    }

    /// Borrows the underlying text.
    pub fn as_str(&self) -> (r: &str)
        ensures
            r@ == self@,
    {
        self.0.as_str()
    }
}

} // verus!
