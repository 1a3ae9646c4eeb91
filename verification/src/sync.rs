use vstd::prelude::*;

verus! {

/// Which integrations a background sync pulls from.
#[derive(Clone, Copy, PartialEq, Eq, Debug, Structural)]
pub enum SyncKind {
    Full,
    GitHub,
    Jira,
}

/// Progress messages sent by a background sync.
pub enum SyncMsg {
    Status(String),
    Done,
    Error(String),
}

/// The menu label of a sync kind.
pub open spec fn kind_label(k: SyncKind) -> Seq<char> {
    match k {
        SyncKind::Full => "Full  (GitHub + Jira)"@,
        SyncKind::GitHub => "GitHub  (PRs & reviews)"@,
        SyncKind::Jira => "Jira  (sprint & backlog)"@,
    }
}

impl SyncKind {
    /// The menu label of the sync kind.
    pub fn label(self) -> (r: &'static str)
        ensures
            r@ == kind_label(self),
    {
        match self {
            SyncKind::Full => "Full  (GitHub + Jira)",
            SyncKind::GitHub => "GitHub  (PRs & reviews)",
            SyncKind::Jira => "Jira  (sprint & backlog)",
        }
    }

    /// Whether this kind of sync pulls GitHub pull requests.
    pub fn runs_github(self) -> (r: bool)
        ensures
            r == (self == SyncKind::Full || self == SyncKind::GitHub),
    {
        match self {
            SyncKind::Full | SyncKind::GitHub => true,
            SyncKind::Jira => false,
        }
    }

    /// Whether this kind of sync pulls Jira issues.
    pub fn runs_jira(self) -> (r: bool)
        ensures
            r == (self == SyncKind::Full || self == SyncKind::Jira),
    {
        match self {
            SyncKind::Full | SyncKind::Jira => true,
            SyncKind::GitHub => false,
        }
    }

    /// Whether this kind of sync re-embeds all todos afterwards (only a
    /// full sync does).
    pub fn runs_reindex(self) -> (r: bool)
        ensures
            r == (self == SyncKind::Full),
    {
        match self {
            SyncKind::Full => true,
            SyncKind::GitHub | SyncKind::Jira => false,
        }
    }

    /// The sync kind offered at a row of the sync menu (rows past the last
    /// one select the last entry).
    pub fn from_menu_row(row: usize) -> (r: SyncKind)
        ensures
            row == 0 ==> r == SyncKind::Full,
            row == 1 ==> r == SyncKind::GitHub,
            row >= 2 ==> r == SyncKind::Jira,
    {
        if row == 0 {
            SyncKind::Full
        } else if row == 1 {
            SyncKind::GitHub
        } else {
            SyncKind::Jira
        }
    }
}

} // verus!
