//! The task model: one to-do item and its priority.

use crate::date::Date;
use std::collections::BTreeMap;
use vstd::prelude::*;

verus! {

/// The number of priority levels: one for each letter from `a` to `z`.
pub const PRIORITY_LEVELS: u8 = 26;

/// The priority of a task: a level from 0, the most urgent, to 25, or none.
/// Priorities are ordered from the most urgent to none.
#[derive(Clone, Copy, Debug, PartialEq, Eq, Structural, PartialOrd, Ord, Hash)]
pub struct Priority {
    rank: u8,
}

impl Priority {
    #[verifier::type_invariant]
    spec fn well_formed(self) -> bool {
        self.rank <= PRIORITY_LEVELS
    }

    /// The level of the priority, or `None` for a task without priority.
    pub closed spec fn spec_level(&self) -> Option<u8> {
        if self.rank < PRIORITY_LEVELS {
            Some(self.rank)
        } else {
            None
        }
    }

    /// The priority of a task that has none.
    pub fn none() -> (priority: Priority)
        ensures
            priority.level() is None,
    {
        Priority { rank: PRIORITY_LEVELS }
    }

    /// The priority of the given level, if there is such a level.
    pub fn new(level: u8) -> (priority: Option<Priority>)
        ensures
            priority is Some <==> level < PRIORITY_LEVELS,
            priority matches Some(p) ==> p.level() == Some(level),
    {
        if level < PRIORITY_LEVELS {
            Some(Priority { rank: level })
        } else {
            None
        }
    }

    /// The letter that stands for a level: `a` for level 0, the most
    /// urgent, up to `z` for level 25.
    pub open spec fn level_letter(level: u8) -> char {
        (97 + level) as char
    }

    /// The letter of the priority, or `None` for a task without priority.
    pub fn letter(&self) -> (letter: Option<char>)
        ensures
            letter == match self.level() {
                Some(level) => Some(Priority::level_letter(level)),
                None => None,
            },
    {
        match self.level() {
            Some(level) => Some((97 + level) as char),
            None => None,
        }
    }

    /// The level of the priority, or `None` for a task without priority.
    #[verifier::when_used_as_spec(spec_level)]
    pub fn level(&self) -> (level: Option<u8>)
        ensures
            level == self.spec_level(),
            level matches Some(l) ==> l < PRIORITY_LEVELS,
    {
        if self.rank < PRIORITY_LEVELS {
            Some(self.rank)
        } else {
            None
        }
    }
}

/// One to-do item.
#[derive(Debug, PartialEq, Eq)]
pub struct Task {
    /// What is to be done.
    pub subject: String,
    /// Whether the task is completed.
    pub finished: bool,
    /// How urgent the task is.
    pub priority: Priority,
    /// The date by which the task is to be done, if it has one.
    pub due_date: Option<Date>,
    /// The date before which the task is deferred, if it is.
    pub threshold_date: Option<Date>,
    /// A free text attached to the task.
    pub note: Option<String>,
    /// The tags of the task, by key.
    pub tags: BTreeMap<String, String>,
}

/// What a task is: its fields, with texts and tags as mathematical values.
pub struct TaskView {
    pub subject: Seq<char>,
    pub finished: bool,
    pub priority: Priority,
    pub due_date: Option<Date>,
    pub threshold_date: Option<Date>,
    pub note: Option<Seq<char>>,
    pub tags: Map<String, String>,
}

impl View for Task {
    type V = TaskView;

    open spec fn view(&self) -> TaskView {
        TaskView {
            subject: self.subject@,
            finished: self.finished,
            priority: self.priority,
            due_date: self.due_date,
            threshold_date: self.threshold_date,
            note: match self.note {
                Some(text) => Some(text@),
                None => None,
            },
            tags: self.tags@,
        }
    }
}

impl DeepView for Task {
    type V = TaskView;

    open spec fn deep_view(&self) -> TaskView {
        self@
    }
}

impl Clone for Task {
    /// A copy of the task: every field of it is that of the task.
    fn clone(&self) -> (copy: Task)
        ensures
            copy@ == self@,
    {
        Task {
            subject: self.subject.clone(),
            finished: self.finished,
            priority: self.priority,
            due_date: self.due_date,
            threshold_date: self.threshold_date,
            note: self.note.clone(),
            tags: self.tags.clone(),
        }
    }
}

impl Task {
    /// An unfinished task with the given subject, without priority, dates,
    /// note or tags.
    pub fn new(subject: &str) -> (task: Task)
        ensures
            task@.subject == subject@,
            !task@.finished,
            task@.priority.level() is None,
            task@.due_date is None,
            task@.threshold_date is None,
            task@.note is None,
            task@.tags == Map::<String, String>::empty(),
    {
        Task {
            subject: subject.to_owned(),
            finished: false,
            priority: Priority::none(),
            due_date: None,
            threshold_date: None,
            note: None,
            tags: BTreeMap::new(),
        }
    }
}

} // verus!
