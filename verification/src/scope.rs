//! Reserved paths and the sets of them a reservation holds.
use vstd::prelude::*;

use crate::ids::ReservationScopePath;

verus! {

/// Whether a scope names one file or a whole directory tree.
#[derive(Clone, Copy, Debug, PartialEq, Eq, Structural)]
pub enum ScopeKind {
    /// Exactly one repository file.
    File,
    /// A directory and everything beneath it.
    Tree,
}

impl ScopeKind {
    /// The spelling used when a scope is rendered as `kind:path`.
    pub fn label(&self) -> (label: &'static str)
        ensures
            label@ == (if *self is File {
                "file"@
            } else {
                "tree"@
            }),
    {
        match self {
            ScopeKind::File => "file",
            ScopeKind::Tree => "tree",
        }
    }
}

/// One reserved path.
#[derive(Debug, PartialEq, Eq)]
pub struct ReservationScope {
    /// The repository-relative path.
    pub path: ReservationScopePath,
    /// Whether the path is a file or a tree.
    pub kind: ScopeKind,
}

impl Clone for ReservationScope {
    fn clone(&self) -> (copy: Self)
        ensures
            copy == *self,
    {
        ReservationScope { path: self.path.clone(), kind: self.kind }
    }
}

/// A nonempty set of reserved paths.
#[derive(Debug, PartialEq, Eq)]
pub struct ReservationScopeSet {
    scopes: Vec<ReservationScope>,
}

/// A scope set must name at least one path.
#[derive(Clone, Copy, Debug, PartialEq, Eq, Structural)]
pub struct EmptyScopeSet;

impl ReservationScopeSet {
    /// The scopes in this set, in their recorded order.
    pub closed spec fn scopes(self) -> Seq<ReservationScope> {
        self.scopes@
    }

    /// Every set holds at least one scope.
    #[verifier::type_invariant]
    closed spec fn names_a_path(self) -> bool {
        self.scopes@.len() > 0
    }

    /// How many scopes the set holds; never zero.
    pub fn len(&self) -> (count: usize)
        ensures
            count == self.scopes().len(),
            count > 0,
    {
        proof {
            use_type_invariant(self);
        }
        self.scopes.len()
    }

    /// Build a set from scopes, refusing an empty list.
    pub fn try_from_scopes(scopes: Vec<ReservationScope>) -> (set: Result<Self, EmptyScopeSet>)
        ensures
            set is Ok <==> scopes@.len() > 0,
            set matches Ok(set) ==> set.scopes() == scopes@,
    {
        if scopes.len() == 0 {
            Err(EmptyScopeSet)
        } else {
            Ok(ReservationScopeSet { scopes })
        }
    }

    /// Borrow the scopes in their recorded order.
    pub fn as_slice(&self) -> (scopes: &[ReservationScope])
        ensures
            scopes@ == self.scopes(),
    {
        self.scopes.as_slice()
    }
}

impl Clone for ReservationScopeSet {
    fn clone(&self) -> (copy: Self)
        ensures
            copy.scopes() == self.scopes(),
    {
        proof {
            use_type_invariant(self);
        }
        let mut scopes: Vec<ReservationScope> = Vec::new();
        let mut index: usize = 0;
        while index < self.scopes.len()
            invariant
                index <= self.scopes@.len(),
                scopes@ == self.scopes@.take(index as int),
            decreases self.scopes@.len() - index,
        {
            scopes.push(self.scopes[index].clone());
            assert(self.scopes@.take(index + 1) == self.scopes@.take(index as int).push(
                self.scopes@[index as int],
            ));
            index += 1;
        }
        assert(self.scopes@.take(self.scopes@.len() as int) == self.scopes@);
        ReservationScopeSet { scopes }
    }
}

} // verus!
