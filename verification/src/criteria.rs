//! The filter and sort criteria of the listing, and the input mode.

use crate::machine::Machine;
use crate::text::{lemma_lex_le_reflexive, lemma_lex_le_total, lemma_lex_le_transitive, lex_le, str_le};
use vstd::prelude::*;

verus! {

/// Which records the listing shows.
#[derive(Debug, Clone, Copy, PartialEq, Eq, Structural)]
pub enum FilterCriteria {
    /// Every record.
    NoFilter,
    /// Records whose primary objective the current user has not completed.
    UserNotOwns,
    /// Records whose secondary objective the current user has not completed.
    RootNotOwns,
    /// Records of which the current user has completed neither objective.
    UserAndRootNotOwns,
}

/// By which key the listing is ordered.
#[derive(Debug, Clone, Copy, PartialEq, Eq, Structural)]
pub enum SortCriteria {
    /// Difficulty tier, lowest first.
    Difficulty,
    /// Primary completions, highest first.
    UserOwns,
    /// Secondary completions, highest first.
    RootOwns,
    /// Display name, in lexicographic order.
    Name,
}

/// How keystrokes are read.
#[derive(Debug, Clone, Copy, PartialEq, Eq, Structural)]
pub enum InputMode {
    /// Keystrokes are commands.
    Normal,
    /// Keystrokes edit the free-text buffer.
    Flag,
}

impl FilterCriteria {
    /// The criterion that follows this one in the cycle.
    pub open spec fn successor(self) -> FilterCriteria {
        match self {
            FilterCriteria::NoFilter => FilterCriteria::UserNotOwns,
            FilterCriteria::UserNotOwns => FilterCriteria::RootNotOwns,
            FilterCriteria::RootNotOwns => FilterCriteria::UserAndRootNotOwns,
            FilterCriteria::UserAndRootNotOwns => FilterCriteria::NoFilter,
        }
    }

    /// Whether the criterion lets the record through.
    pub open spec fn admits(self, m: Machine) -> bool {
        match self {
            FilterCriteria::NoFilter => true,
            FilterCriteria::UserNotOwns => !m.auth_user_in_user_owns,
            FilterCriteria::RootNotOwns => !m.auth_user_in_root_owns,
            FilterCriteria::UserAndRootNotOwns => !m.auth_user_in_user_owns
                && !m.auth_user_in_root_owns,
        }
    }

    /// The criterion that follows this one in the cycle.
    pub fn next(self) -> (r: FilterCriteria)
        ensures
            r == self.successor(),
    {
        match self {
            FilterCriteria::NoFilter => FilterCriteria::UserNotOwns,
            FilterCriteria::UserNotOwns => FilterCriteria::RootNotOwns,
            FilterCriteria::RootNotOwns => FilterCriteria::UserAndRootNotOwns,
            FilterCriteria::UserAndRootNotOwns => FilterCriteria::NoFilter,
        }
    }

    /// Tests a record against the criterion.
    pub fn keeps(self, m: &Machine) -> (r: bool)
        ensures
            r == self.admits(*m),
    {
        match self {
            FilterCriteria::NoFilter => true,
            FilterCriteria::UserNotOwns => !m.auth_user_in_user_owns,
            FilterCriteria::RootNotOwns => !m.auth_user_in_root_owns,
            FilterCriteria::UserAndRootNotOwns => !m.auth_user_in_user_owns
                && !m.auth_user_in_root_owns,
        }
    }
}

impl SortCriteria {
    /// The criterion that follows this one in the cycle.
    pub open spec fn successor(self) -> SortCriteria {
        match self {
            SortCriteria::Difficulty => SortCriteria::UserOwns,
            SortCriteria::UserOwns => SortCriteria::RootOwns,
            SortCriteria::RootOwns => SortCriteria::Name,
            SortCriteria::Name => SortCriteria::Difficulty,
        }
    }

    /// Whether `a` may stand before `b` in the listing: its key comes first or
    /// ties with that of `b`.
    pub open spec fn precedes(self, a: Machine, b: Machine) -> bool {
        match self {
            SortCriteria::Difficulty => a.difficulty <= b.difficulty,
            SortCriteria::UserOwns => a.user_owns_count >= b.user_owns_count,
            SortCriteria::RootOwns => a.root_owns_count >= b.root_owns_count,
            SortCriteria::Name => lex_le(a.name@, b.name@),
        }
    }

    /// Whether the two records have the same sort key.
    pub open spec fn ties(self, a: Machine, b: Machine) -> bool {
        self.precedes(a, b) && self.precedes(b, a)
    }

    /// The criterion that follows this one in the cycle.
    pub fn next(self) -> (r: SortCriteria)
        ensures
            r == self.successor(),
    {
        match self {
            SortCriteria::Difficulty => SortCriteria::UserOwns,
            SortCriteria::UserOwns => SortCriteria::RootOwns,
            SortCriteria::RootOwns => SortCriteria::Name,
            SortCriteria::Name => SortCriteria::Difficulty,
        }
    }

    /// Tests whether `a` may stand before `b`.
    pub fn before_or_tied(self, a: &Machine, b: &Machine) -> (r: bool)
        ensures
            r == self.precedes(*a, *b),
    {
        match self {
            SortCriteria::Difficulty => a.difficulty <= b.difficulty,
            SortCriteria::UserOwns => a.user_owns_count >= b.user_owns_count,
            SortCriteria::RootOwns => a.root_owns_count >= b.root_owns_count,
            SortCriteria::Name => str_le(a.name.as_str(), b.name.as_str()),
        }
    }

    /// Any two records are comparable under every criterion.
    pub proof fn lemma_precedes_total(self, a: Machine, b: Machine)
        ensures
            self.precedes(a, b) || self.precedes(b, a),
    {
        lemma_lex_le_total(a.name@, b.name@);
    }

    /// Every record ties with itself.
    pub proof fn lemma_precedes_reflexive(self, a: Machine)
        ensures
            self.precedes(a, a),
    {
        lemma_lex_le_reflexive(a.name@);
    }

    /// The order of every criterion is transitive.
    pub proof fn lemma_precedes_transitive(self, a: Machine, b: Machine, c: Machine)
        requires
            self.precedes(a, b),
            self.precedes(b, c),
        ensures
            self.precedes(a, c),
    {
        if self == SortCriteria::Name {
            lemma_lex_le_transitive(a.name@, b.name@, c.name@);
        }
    }
}

/// Four steps through the filter cycle lead back to where they started, and no
/// fewer do.
pub proof fn lemma_filter_cycle_closes(f: FilterCriteria)
    ensures
        f.successor().successor().successor().successor() == f,
        f.successor() != f,
        f.successor().successor() != f,
        f.successor().successor().successor() != f,
{
}

/// Four steps through the sort cycle lead back to where they started, and no
/// fewer do.
pub proof fn lemma_sort_cycle_closes(s: SortCriteria)
    ensures
        s.successor().successor().successor().successor() == s,
        s.successor() != s,
        s.successor().successor() != s,
        s.successor().successor().successor() != s,
{
}

} // verus!
