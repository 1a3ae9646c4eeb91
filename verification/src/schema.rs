//! Recognising the schema of a database written before migrations were
//! numbered.
use vstd::prelude::*;

verus! {

/// What an existing database's schema holds (tables and columns added by
/// each migration, newest last).
#[derive(Clone, Copy, PartialEq, Eq, Debug, Structural)]
pub struct LegacySchema {
    pub todos_table: bool,
    pub todos_url: bool,
    pub todos_due_date: bool,
    pub todos_priority: bool,
    pub todos_in_progress: bool,
    pub todos_started_at: bool,
    pub todos_completed_at: bool,
    pub comments_table: bool,
    pub comments_url: bool,
    pub topics_sort_order: bool,
}

/// The number of migrations a legacy database has already had: 0 without
/// a `todos` table, else the number of the newest migration whose change is
/// present (migrations are numbered from 1; the first creates the tables).
pub open spec fn legacy_version_spec(s: LegacySchema) -> u32 {
    if !s.todos_table {
        0
    } else if s.topics_sort_order {
        10
    } else if s.comments_url {
        9
    } else if s.comments_table {
        8
    } else if s.todos_completed_at {
        7
    } else if s.todos_started_at {
        6
    } else if s.todos_in_progress {
        5
    } else if s.todos_priority {
        4
    } else if s.todos_due_date {
        3
    } else if s.todos_url {
        2
    } else {
        1
    }
}

/// The migration version to record for a database that has none.
pub fn detect_legacy_version(s: &LegacySchema) -> (r: u32)
    ensures
        r == legacy_version_spec(*s),
        r <= 10,
{
    if !s.todos_table {
        return 0;
    }
    if s.topics_sort_order {
        return 10;
    }
    if s.comments_url {
        return 9;
    }
    if s.comments_table {
        return 8;
    }
    if s.todos_completed_at {
        return 7;
    }
    if s.todos_started_at {
        return 6;
    }
    if s.todos_in_progress {
        return 5;
    }
    if s.todos_priority {
        return 4;
    }
    if s.todos_due_date {
        return 3;
    }
    if s.todos_url {
        return 2;
    }
    1
}

} // verus!
