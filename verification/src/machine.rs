//! The catalog record and the envelope in which a page of records arrives.

use vstd::prelude::*;

verus! {

/// The active-status field as it arrives: the service sends either a boolean or
/// an integer, and anything else counts as inactive.
#[derive(Debug, Clone, Copy, PartialEq, Eq, Structural)]
pub enum ActiveStatus {
    /// A boolean was sent.
    Flag(bool),
    /// An integer that fits in `i64` was sent.
    Count(i64),
    /// Something else was sent.
    Other,
}

impl ActiveStatus {
    /// The single boolean that the field stands for: a boolean stands for itself,
    /// an integer is active exactly when it is 1, and anything else is inactive.
    pub open spec fn normalized(self) -> bool {
        match self {
            ActiveStatus::Flag(b) => b,
            ActiveStatus::Count(n) => n == 1,
            ActiveStatus::Other => false,
        }
    }

    /// Decodes the field into one boolean.
    pub fn normalize(self) -> (r: bool)
        ensures
            r == self.normalized(),
    {
        match self {
            ActiveStatus::Flag(b) => b,
            ActiveStatus::Count(n) => n == 1,
            ActiveStatus::Other => false,
        }
    }
}

/// One catalog entry.
#[derive(Debug, PartialEq, Eq)]
pub struct Machine {
    /// Unique identifier.
    pub id: u64,
    /// Display name.
    pub name: String,
    /// Platform tag.
    pub os: String,
    /// Point value.
    pub points: u64,
    /// Popularity rating, kept as the bit pattern of the number that was sent.
    pub star_bits: u64,
    /// Release timestamp.
    pub release: String,
    /// Difficulty tier.
    pub difficulty: u64,
    /// How many users completed the primary objective.
    pub user_owns_count: u64,
    /// Whether the current user completed the primary objective.
    pub auth_user_in_user_owns: bool,
    /// How many users completed the secondary objective.
    pub root_owns_count: u64,
    /// Whether the current user completed the secondary objective.
    pub auth_user_in_root_owns: bool,
    /// The active-status field as sent.
    pub active: ActiveStatus,
    /// Network address, known only for an active record after enrichment.
    pub ip: Option<String>,
}

impl Default for Machine {
    /// A record with every number zero, every text empty, no address, and an
    /// active-status field of no meaning.
    fn default() -> (r: Self)
        ensures
            r.id == 0,
            r.name@.len() == 0,
            r.os@.len() == 0,
            r.points == 0,
            r.star_bits == 0,
            r.release@.len() == 0,
            r.difficulty == 0,
            r.user_owns_count == 0,
            !r.auth_user_in_user_owns,
            r.root_owns_count == 0,
            !r.auth_user_in_root_owns,
            r.active == ActiveStatus::Other,
            r.ip.is_none(),
    {
        Machine {
            id: 0,
            name: String::new(),
            os: String::new(),
            points: 0,
            star_bits: 0,
            release: String::new(),
            difficulty: 0,
            user_owns_count: 0,
            auth_user_in_user_owns: false,
            root_owns_count: 0,
            auth_user_in_root_owns: false,
            active: ActiveStatus::Other,
            ip: None,
        }
    }
}

/// A copy of an optional string.
pub fn clone_text(t: &Option<String>) -> (r: Option<String>)
    ensures
        r == *t,
{
    match t {
        Some(s) => Some(s.clone()),
        None => None,
    }
}

impl Clone for Machine {
    fn clone(&self) -> (r: Self)
        ensures
            r == *self,
    {
        Machine {
            id: self.id,
            name: self.name.clone(),
            os: self.os.clone(),
            points: self.points,
            star_bits: self.star_bits,
            release: self.release.clone(),
            difficulty: self.difficulty,
            user_owns_count: self.user_owns_count,
            auth_user_in_user_owns: self.auth_user_in_user_owns,
            root_owns_count: self.root_owns_count,
            auth_user_in_root_owns: self.auth_user_in_root_owns,
            active: self.active,
            ip: clone_text(&self.ip),
        }
    }
}

impl Machine {
    /// Whether the record is active, as one boolean.
    pub open spec fn active(self) -> bool {
        self.active.normalized()
    }

    /// Whether the current user still misses one of the two objectives.
    pub open spec fn unfinished(self) -> bool {
        !self.auth_user_in_user_owns || !self.auth_user_in_root_owns
    }

    /// The record with its address set to `ip`.
    pub open spec fn with_ip(self, ip: Option<String>) -> Machine {
        Machine { ip, ..self }
    }

    /// Whether the record is active.
    pub fn is_active(&self) -> (r: bool)
        ensures
            r == self.active(),
    {
        self.active.normalize()
    }
}

/// The paging links of a page envelope.
#[derive(Debug, PartialEq, Eq)]
pub struct Link {
    /// Address of the first page.
    pub first: String,
    /// Address of the last page.
    pub last: String,
    /// Address of the page before this one, if any.
    pub prev: Option<String>,
    /// Address of the page after this one, if any.
    pub next: Option<String>,
}

impl Clone for Link {
    fn clone(&self) -> (r: Self)
        ensures
            r == *self,
    {
        Link {
            first: self.first.clone(),
            last: self.last.clone(),
            prev: clone_text(&self.prev),
            next: clone_text(&self.next),
        }
    }
}

impl Default for Link {
    /// Links with empty addresses and no neighbours.
    fn default() -> (r: Self)
        ensures
            r.first@.len() == 0,
            r.last@.len() == 0,
            r.prev.is_none(),
            r.next.is_none(),
    {
        Link { first: String::new(), last: String::new(), prev: None, next: None }
    }
}

/// One page of the catalog: its records and its paging links.
#[derive(Debug, PartialEq, Eq)]
pub struct Root {
    /// The records of the page, in the order sent.
    pub data: Vec<Machine>,
    /// The paging links.
    pub links: Link,
}

/// A copy of a list of records.
pub fn clone_machines(list: &Vec<Machine>) -> (r: Vec<Machine>)
    ensures
        r@ == list@,
{
    let mut out: Vec<Machine> = Vec::new();
    let mut i: usize = 0;
    while i < list.len()
        invariant
            i <= list.len(),
            out@ == list@.subrange(0, i as int),
        decreases list.len() - i,
    {
        out.push(list[i].clone());
        i = i + 1;
        assert(out@ =~= list@.subrange(0, i as int));
    }
    assert(list@.subrange(0, list.len() as int) =~= list@);
    out
}

impl Default for Root {
    /// A page without records and without neighbours.
    fn default() -> (r: Self)
        ensures
            r.data@.len() == 0,
            r.links.next.is_none(),
            r.links.prev.is_none(),
    {
        Root { data: Vec::new(), links: Link::default() }
    }
}

impl Clone for Root {
    fn clone(&self) -> (r: Self)
        ensures
            r.data@ == self.data@,
            r.links == self.links,
    {
        Root { data: clone_machines(&self.data), links: self.links.clone() }
    }
}

} // verus!
