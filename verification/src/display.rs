//! What the reader of a task is shown: its dates in words and the marks and
//! labels of its card.

use crate::date::ymd_text;
use crate::date::Date;
use crate::tasks::Priority;
use crate::tasks::Task;
use crate::tasks::TaskView;
use vstd::prelude::*;
use vstd::string::StringExecFns;

verus! {

/// How `date` is written for a reader on the day `today`: the day itself,
/// the day before and the day after go by their names, every other date is
/// written out.
pub open spec fn alias_text(date: Date, today: Date) -> Seq<char> {
    if date.num_days_from_ce() == today.num_days_from_ce() {
        "today"@
    } else if date.num_days_from_ce() + 1 == today.num_days_from_ce() {
        "yesterday"@
    } else if date.num_days_from_ce() == today.num_days_from_ce() + 1 {
        "tomorrow"@
    } else {
        ymd_text(date.year() as int, date.month() as int, date.day() as int)
    }
}

/// Writes `date` for a reader on the day `today`.
pub fn date_alias(date: &Date, today: &Date) -> (alias: String)
    ensures
        alias@ == alias_text(*date, *today),
{
    let day: i64 = date.num_days_from_ce() as i64;
    let now: i64 = today.num_days_from_ce() as i64;
    if day == now {
        "today".to_owned()
    } else if day + 1 == now {
        "yesterday".to_owned()
    } else if day == now + 1 {
        "tomorrow".to_owned()
    } else {
        date.format_ymd()
    }
}

/// What the card of a task shows.
#[derive(Debug, PartialEq, Eq)]
pub struct Card {
    /// Whether the task is marked as finished.
    pub finished: bool,
    /// The letter of the priority to mark the task with, if it has one.
    pub priority: Option<char>,
    /// Whether the task has a note to open.
    pub note: bool,
    /// Whether the task has tags to list.
    pub keywords: bool,
    /// The label of the threshold date, if the task has one.
    pub threshold: Option<String>,
    /// Whether an arrow leads from the threshold date to the due date.
    pub arrow: bool,
    /// The label of the due date, if the task has one.
    pub due: Option<String>,
    /// Whether the task is marked as past due.
    pub past: bool,
}

/// What a card shows, with its labels as sequences of characters.
pub struct CardView {
    pub finished: bool,
    pub priority: Option<char>,
    pub note: bool,
    pub keywords: bool,
    pub threshold: Option<Seq<char>>,
    pub arrow: bool,
    pub due: Option<Seq<char>>,
    pub past: bool,
}

impl View for Card {
    type V = CardView;

    open spec fn view(&self) -> CardView {
        CardView {
            finished: self.finished,
            priority: self.priority,
            note: self.note,
            keywords: self.keywords,
            threshold: match self.threshold {
                Some(label) => Some(label@),
                None => None,
            },
            arrow: self.arrow,
            due: match self.due {
                Some(label) => Some(label@),
                None => None,
            },
            past: self.past,
        }
    }
}

/// The card of `task` for a reader on the day `today`.
///
/// The card marks a finished task and a task with priority, by the letter
/// of its level. It offers the note and lists the tags where there are any.
/// It labels the threshold date and the due date, each written as
/// `alias_text` says, with an arrow between them where the task has both,
/// and marks the task as past due where its due date is before `today`.
pub open spec fn card_of(task: TaskView, today: Date) -> CardView {
    CardView {
        finished: task.finished,
        priority: match task.priority.level() {
            Some(level) => Some(Priority::level_letter(level)),
            None => None,
        },
        note: task.note is Some,
        keywords: !task.tags.is_empty(),
        threshold: match task.threshold_date {
            Some(threshold) => Some("Deferred until "@ + alias_text(threshold, today)),
            None => None,
        },
        arrow: task.threshold_date is Some && task.due_date is Some,
        due: match task.due_date {
            Some(due) => Some("due: "@ + alias_text(due, today)),
            None => None,
        },
        past: match task.due_date {
            Some(due) => due.num_days_from_ce() < today.num_days_from_ce(),
            None => false,
        },
    }
}

/// Makes the card of `task` for a reader on the day `today`.
pub fn card(task: &Task, today: &Date) -> (card: Card)
    ensures
        card@ == card_of(task@, *today),
{
    let threshold = match task.threshold_date {
        Some(date) => Some("Deferred until ".to_owned().concat(date_alias(&date, today).as_str())),
        None => None,
    };
    let due = match task.due_date {
        Some(date) => Some("due: ".to_owned().concat(date_alias(&date, today).as_str())),
        None => None,
    };
    let past = match task.due_date {
        Some(date) => date.num_days_from_ce() < today.num_days_from_ce(),
        None => false,
    };
    Card {
        finished: task.finished,
        priority: task.priority.letter(),
        note: task.note.is_some(),
        keywords: !task.tags.is_empty(),
        threshold,
        arrow: task.threshold_date.is_some() && task.due_date.is_some(),
        due,
        past,
    }
}

} // verus!
