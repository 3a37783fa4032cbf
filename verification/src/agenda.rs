//! The agenda: due tasks sorted into buckets around a reference date.

use crate::date::lemma_next_day;
use crate::date::next_ymd;
use crate::date::valid_ymd;
use crate::date::Date;
use crate::date::MAX_YEAR;
use crate::tasks::Task;
use crate::tasks::TaskView;
use vstd::prelude::*;

verus! {

/// What the user wants to see in the agenda.
#[derive(Clone, Copy, Debug, PartialEq, Eq, Structural)]
pub struct Preferences {
    /// Show the tasks that are finished.
    pub show_done: bool,
    /// Show the tasks whose threshold date is still to come.
    pub show_deferred: bool,
}

/// Whether finished tasks are shown or `task` is not finished.
pub open spec fn passes_done(task: TaskView, preferences: Preferences) -> bool {
    preferences.show_done || !task.finished
}

/// Whether `task` is not hidden as deferred from a range of days that
/// begins on day number `start`: deferred tasks are shown, or the task has
/// no threshold date, or the range has no first day, or the threshold date
/// is not after that day.
pub open spec fn passes_deferred(
    task: TaskView,
    start: Option<i64>,
    preferences: Preferences,
) -> bool {
    preferences.show_deferred || match (task.threshold_date, start) {
        (Some(threshold), Some(first)) => threshold.num_days_from_ce() <= first,
        _ => true,
    }
}

/// Whether `due` is one of the days from `start` to `end`. The two bounds
/// are day numbers: `start` is the first day of the range and `end` the day
/// after its last one. A bound that is `None` leaves the range open on that
/// side.
pub open spec fn in_days(due: Date, start: Option<i64>, end: Option<i64>) -> bool {
    &&& start matches Some(first) ==> due.num_days_from_ce() >= first
    &&& end matches Some(after) ==> due.num_days_from_ce() < after
}

/// Whether the agenda shows `task` for the days from `start` to `end`: the
/// task has a due date in that range, and neither its being finished nor
/// its being deferred hides it.
pub open spec fn in_range(
    task: TaskView,
    start: Option<i64>,
    end: Option<i64>,
    preferences: Preferences,
) -> bool {
    match task.due_date {
        Some(due) => {
            &&& passes_done(task, preferences)
            &&& passes_deferred(task, start, preferences)
            &&& in_days(due, start, end)
        },
        None => false,
    }
}

/// The test that `get_tasks` keeps a task by.
pub open spec fn range_filter(
    start: Option<i64>,
    end: Option<i64>,
    preferences: Preferences,
) -> spec_fn(TaskView) -> bool {
    |task: TaskView| in_range(task, start, end, preferences)
}

/// Decides whether the agenda shows `task` for the days from `start` to
/// `end`.
pub fn is_in_range(
    task: &Task,
    start: Option<i64>,
    end: Option<i64>,
    preferences: &Preferences,
) -> (shown: bool)
    ensures
        shown == in_range(task@, start, end, *preferences),
{
    match task.due_date {
        Some(due) => {
            let due_day: i64 = due.num_days_from_ce() as i64;
            let visible = preferences.show_done || !task.finished;
            let current = preferences.show_deferred || match (task.threshold_date, start) {
                (Some(threshold), Some(first)) => threshold.num_days_from_ce() as i64 <= first,
                _ => true,
            };
            let late_enough = match start {
                Some(first) => due_day >= first,
                None => true,
            };
            let early_enough = match end {
                Some(after) => due_day < after,
                None => true,
            };
            visible && current && late_enough && early_enough
        },
        None => false,
    }
}

/// The tasks that the agenda shows for the days from `start` to `end`, in
/// the order of `tasks`.
pub fn get_tasks(
    tasks: &Vec<Task>,
    start: Option<i64>,
    end: Option<i64>,
    preferences: &Preferences,
) -> (shown: Vec<Task>)
    ensures
        shown.deep_view() == tasks.deep_view().filter(range_filter(start, end, *preferences)),
{
    let ghost keep = range_filter(start, end, *preferences);
    let mut shown: Vec<Task> = Vec::new();
    let mut i: usize = 0;
    proof {
        assert(tasks.deep_view().take(0) =~= Seq::<TaskView>::empty());
        assert(shown.deep_view() =~= Seq::<TaskView>::empty());
        reveal(Seq::filter);
    }
    while i < tasks.len()
        invariant
            i <= tasks.len(),
            keep == range_filter(start, end, *preferences),
            shown.deep_view() == tasks.deep_view().take(i as int).filter(keep),
        decreases tasks.len() - i,
    {
        let task = &tasks[i];
        let ghost before = shown.deep_view();
        proof {
            tasks.deep_view().lemma_take_succ_push(i as int);
            tasks.deep_view().take(i as int).lemma_filter_push(task@, keep);
        }
        if is_in_range(task, start, end, preferences) {
            shown.push(task.clone());
            assert(shown.deep_view() =~= before.push(task@));
        }
        i += 1;
    }
    proof {
        tasks.deep_view().lemma_take_len();
    }
    shown
}

/// The five parts of the agenda. They follow one another without a gap:
/// each one ends where the next begins.
#[derive(Clone, Copy, Debug, PartialEq, Eq, Structural, Hash)]
pub enum Bucket {
    /// The days before the reference date.
    Past,
    /// The reference date.
    Today,
    /// The day after the reference date.
    Tomorrow,
    /// From the second to the sixth day after the reference date.
    Week,
    /// From the seventh to the twenty-seventh day after the reference date.
    Month,
}

impl Bucket {
    /// How many days after the reference date the bucket begins, or `None`
    /// for the bucket that has no first day.
    pub open spec fn spec_first_day(&self) -> Option<i64> {
        match self {
            Bucket::Past => None,
            Bucket::Today => Some(0),
            Bucket::Tomorrow => Some(1),
            Bucket::Week => Some(2),
            Bucket::Month => Some(7),
        }
    }

    /// How many days after the reference date the bucket is over.
    pub open spec fn spec_end_day(&self) -> i64 {
        match self {
            Bucket::Past => 0,
            Bucket::Today => 1,
            Bucket::Tomorrow => 2,
            Bucket::Week => 7,
            Bucket::Month => 28,
        }
    }

    /// The day number of the first day of the bucket around `reference`, or
    /// `None` for the bucket that has no first day.
    pub open spec fn spec_start(&self, reference: &Date) -> Option<i64> {
        match self.first_day() {
            Some(offset) => Some((reference.num_days_from_ce() + offset) as i64),
            None => None,
        }
    }

    /// The day number of the day after the last day of the bucket around
    /// `reference`.
    pub open spec fn spec_end(&self, reference: &Date) -> Option<i64> {
        Some((reference.num_days_from_ce() + self.end_day()) as i64)
    }

    /// How many days after the reference date the bucket begins, or `None`
    /// for the bucket that has no first day.
    #[verifier::when_used_as_spec(spec_first_day)]
    pub fn first_day(&self) -> (offset: Option<i64>)
        ensures
            offset == self.spec_first_day(),
    {
        match self {
            Bucket::Past => None,
            Bucket::Today => Some(0),
            Bucket::Tomorrow => Some(1),
            Bucket::Week => Some(2),
            Bucket::Month => Some(7),
        }
    }

    /// How many days after the reference date the bucket is over.
    #[verifier::when_used_as_spec(spec_end_day)]
    pub fn end_day(&self) -> (offset: i64)
        ensures
            offset == self.spec_end_day(),
    {
        match self {
            Bucket::Past => 0,
            Bucket::Today => 1,
            Bucket::Tomorrow => 2,
            Bucket::Week => 7,
            Bucket::Month => 28,
        }
    }

    /// The day number of the first day of the bucket around `reference`, or
    /// `None` for the bucket that has no first day.
    #[verifier::when_used_as_spec(spec_start)]
    pub fn start(&self, reference: &Date) -> (first: Option<i64>)
        ensures
            first == self.spec_start(reference),
    {
        let day: i64 = reference.num_days_from_ce() as i64;
        match self.first_day() {
            Some(offset) => Some(day + offset),
            None => None,
        }
    }

    /// The day number of the day after the last day of the bucket around
    /// `reference`.
    #[verifier::when_used_as_spec(spec_end)]
    pub fn end(&self, reference: &Date) -> (after: Option<i64>)
        ensures
            after == self.spec_end(reference),
    {
        let day: i64 = reference.num_days_from_ce() as i64;
        Some(day + self.end_day())
    }
}

/// Whether `bucket` of the agenda around `reference` shows `task`.
pub open spec fn in_bucket(
    task: TaskView,
    bucket: Bucket,
    reference: Date,
    preferences: Preferences,
) -> bool {
    in_range(task, bucket.start(&reference), bucket.end(&reference), preferences)
}

/// What `bucket` of the agenda holds: nothing without a reference date,
/// else the tasks that the bucket shows, in the order of `tasks`.
pub open spec fn bucket_tasks(
    tasks: Seq<TaskView>,
    bucket: Bucket,
    reference: Option<Date>,
    preferences: Preferences,
) -> Seq<TaskView> {
    match reference {
        Some(date) => tasks.filter(
            range_filter(bucket.start(&date), bucket.end(&date), preferences),
        ),
        None => Seq::empty(),
    }
}

/// The tasks of one bucket of the agenda around `reference`, in the order
/// of `tasks`. Without a reference date the bucket is empty.
pub fn get_bucket_tasks(
    tasks: &Vec<Task>,
    bucket: Bucket,
    reference: Option<Date>,
    preferences: &Preferences,
) -> (shown: Vec<Task>)
    ensures
        shown.deep_view() == bucket_tasks(tasks.deep_view(), bucket, reference, *preferences),
{
    match reference {
        Some(date) => get_tasks(tasks, bucket.start(&date), bucket.end(&date), preferences),
        None => {
            let shown: Vec<Task> = Vec::new();
            assert(shown.deep_view() =~= Seq::<TaskView>::empty());
            shown
        },
    }
}

/// The tasks that the agenda around `date` shows as past due: those due
/// before `date`.
pub fn get_past_tasks(tasks: &Vec<Task>, date: Option<Date>, preferences: &Preferences) -> (shown:
    Vec<Task>)
    ensures
        shown.deep_view() == bucket_tasks(tasks.deep_view(), Bucket::Past, date, *preferences),
{
    get_bucket_tasks(tasks, Bucket::Past, date, preferences)
}

/// The tasks that the agenda around `date` shows for today: those due on
/// `date`.
pub fn get_today_tasks(tasks: &Vec<Task>, date: Option<Date>, preferences: &Preferences) -> (shown:
    Vec<Task>)
    ensures
        shown.deep_view() == bucket_tasks(tasks.deep_view(), Bucket::Today, date, *preferences),
{
    get_bucket_tasks(tasks, Bucket::Today, date, preferences)
}

/// The tasks that the agenda around `date` shows for tomorrow: those due on
/// the day after `date`.
pub fn get_tomorrow_tasks(
    tasks: &Vec<Task>,
    date: Option<Date>,
    preferences: &Preferences,
) -> (shown: Vec<Task>)
    ensures
        shown.deep_view() == bucket_tasks(tasks.deep_view(), Bucket::Tomorrow, date, *preferences),
{
    get_bucket_tasks(tasks, Bucket::Tomorrow, date, preferences)
}

/// The tasks that the agenda around `date` shows for the week: those due
/// from the second to the sixth day after `date`.
pub fn get_week_tasks(tasks: &Vec<Task>, date: Option<Date>, preferences: &Preferences) -> (shown:
    Vec<Task>)
    ensures
        shown.deep_view() == bucket_tasks(tasks.deep_view(), Bucket::Week, date, *preferences),
{
    get_bucket_tasks(tasks, Bucket::Week, date, preferences)
}

/// The tasks that the agenda around `date` shows for the month: those due
/// from the seventh to the twenty-seventh day after `date`.
pub fn get_month_tasks(tasks: &Vec<Task>, date: Option<Date>, preferences: &Preferences) -> (shown:
    Vec<Task>)
    ensures
        shown.deep_view() == bucket_tasks(tasks.deep_view(), Bucket::Month, date, *preferences),
{
    get_bucket_tasks(tasks, Bucket::Month, date, preferences)
}

/// The day of the month that `task` marks on the calendar of the month of
/// `reference`: that of its due date, where the task has one in that month
/// of that year. Whether the task is finished or deferred plays no part.
pub open spec fn marked_day(task: TaskView, reference: Date) -> Option<u32> {
    match task.due_date {
        Some(due) => if due.year() == reference.year() && due.month() == reference.month() {
            Some(due.day())
        } else {
            None
        },
        None => None,
    }
}

/// Whether one of the first `count` tasks marks `day`.
pub open spec fn marks(tasks: Seq<TaskView>, count: int, reference: Date, day: u32) -> bool {
    exists|i: int| 0 <= i < count && #[trigger] marked_day(tasks[i], reference) == Some(day)
}

/// The days of the month of `reference` on which a task is due. Without a
/// reference date no day is marked.
pub open spec fn marked_days(tasks: Seq<TaskView>, reference: Option<Date>) -> Set<u32> {
    match reference {
        Some(date) => Set::new(|day: u32| marks(tasks, tasks.len() as int, date, day)),
        None => Set::empty(),
    }
}

/// Whether the numbers of `days` grow from each one to the next.
pub open spec fn increasing(days: Seq<u32>) -> bool {
    forall|i: int, j: int| 0 <= i < j < days.len() ==> days[i] < days[j]
}

/// The days of the month of `reference` on which a task is due, each once
/// and in increasing order.
pub fn mark_days(tasks: &Vec<Task>, reference: Option<Date>) -> (days: Vec<u32>)
    ensures
        increasing(days@),
        days@.to_set() == marked_days(tasks.deep_view(), reference),
{
    let mut days: Vec<u32> = Vec::new();
    let date = match reference {
        Some(date) => date,
        None => {
            assert(days@.to_set() =~= Set::<u32>::empty());
            return days;
        },
    };
    let ghost views = tasks.deep_view();
    let year = date.year();
    let month = date.month();
    let mut seen: Vec<bool> = Vec::new();
    let mut n: usize = 0;
    while n < 32
        invariant
            n <= 32,
            seen.len() == n,
            forall|d: int| 0 <= d < n ==> !seen[d],
        decreases 32 - n,
    {
        seen.push(false);
        n += 1;
    }
    let mut i: usize = 0;
    while i < tasks.len()
        invariant
            i <= tasks.len(),
            views == tasks.deep_view(),
            year == date.year(),
            month == date.month(),
            seen.len() == 32,
            forall|d: int| 0 <= d < 32 && seen[d] ==> marks(views, i as int, date, d as u32),
            forall|j: int|
                0 <= j < i ==> match #[trigger] marked_day(views[j], date) {
                    Some(day) => day < 32 && seen[day as int],
                    None => true,
                },
        decreases tasks.len() - i,
    {
        let task = &tasks[i];
        let ghost before = seen@;
        assert(views[i as int] == task@);
        match task.due_date {
            Some(due) => {
                if due.year() == year && due.month() == month {
                    let day = due.day();
                    seen.set(day as usize, true);
                }
            },
            None => {},
        }
        assert forall|d: int| 0 <= d < 32 && seen[d] implies marks(
            views,
            i + 1,
            date,
            d as u32,
        ) by {
            if before[d] {
                let j = choose|j: int|
                    0 <= j < i && #[trigger] marked_day(views[j], date) == Some(d as u32);
                assert(marked_day(views[j], date) == Some(d as u32));
            } else {
                assert(marked_day(views[i as int], date) == Some(d as u32));
            }
        }
        i += 1;
    }
    let mut day: u32 = 0;
    while day < 32
        invariant
            day <= 32,
            seen.len() == 32,
            increasing(days@),
            forall|k: int| 0 <= k < days.len() ==> days[k] < day && seen[days[k] as int],
            forall|d: int| 0 <= d < day && seen[d] ==> days@.contains(d as u32),
        decreases 32 - day,
    {
        if seen[day as usize] {
            let ghost before = days@;
            days.push(day);
            assert forall|d: int| 0 <= d < day + 1 && seen[d] implies days@.contains(d as u32) by {
                if d < day {
                    let k = choose|k: int| 0 <= k < before.len() && before[k] == d as u32;
                    assert(days@[k] == d as u32);
                } else {
                    assert(days@[before.len() as int] == day);
                }
            }
        }
        day += 1;
    }
    assert(days@.to_set() =~= marked_days(views, reference)) by {
        assert forall|d: u32| days@.contains(d) <==> marks(views, views.len() as int, date, d) by {
            if days@.contains(d) {
                let k = choose|k: int| 0 <= k < days.len() && days[k] == d;
                assert(seen[days[k] as int]);
            }
            if marks(views, views.len() as int, date, d) {
                let j = choose|j: int|
                    0 <= j < views.len() && #[trigger] marked_day(views[j], date) == Some(d);
                assert(seen[d as int]);
            }
        }
    }
    days
}

/// The agenda around a reference date: the tasks of each bucket and the
/// days to mark on the calendar of the reference month.
#[derive(Debug, PartialEq, Eq)]
pub struct Agenda {
    /// The tasks that were due before the reference date.
    pub past: Vec<Task>,
    /// The tasks that are due on the reference date.
    pub today: Vec<Task>,
    /// The tasks that are due on the day after.
    pub tomorrow: Vec<Task>,
    /// The tasks that are due later in the week.
    pub week: Vec<Task>,
    /// The tasks that are due later in the month.
    pub month: Vec<Task>,
    /// The days of the reference month on which a task is due, in
    /// increasing order.
    pub marked_days: Vec<u32>,
}

impl Agenda {
    /// The tasks that the agenda holds in `bucket`.
    pub open spec fn spec_tasks(&self, bucket: Bucket) -> Seq<TaskView> {
        match bucket {
            Bucket::Past => self.past.deep_view(),
            Bucket::Today => self.today.deep_view(),
            Bucket::Tomorrow => self.tomorrow.deep_view(),
            Bucket::Week => self.week.deep_view(),
            Bucket::Month => self.month.deep_view(),
        }
    }

    /// Whether this is the agenda of `tasks` around `reference`: every
    /// bucket holds the tasks that it shows, in their order in `tasks`, and
    /// the marked days are those on which a task is due, in increasing
    /// order.
    pub open spec fn is_triage_of(
        &self,
        tasks: Seq<TaskView>,
        reference: Option<Date>,
        preferences: Preferences,
    ) -> bool {
        &&& self.past.deep_view() == bucket_tasks(tasks, Bucket::Past, reference, preferences)
        &&& self.today.deep_view() == bucket_tasks(tasks, Bucket::Today, reference, preferences)
        &&& self.tomorrow.deep_view() == bucket_tasks(
            tasks,
            Bucket::Tomorrow,
            reference,
            preferences,
        )
        &&& self.week.deep_view() == bucket_tasks(tasks, Bucket::Week, reference, preferences)
        &&& self.month.deep_view() == bucket_tasks(tasks, Bucket::Month, reference, preferences)
        &&& increasing(self.marked_days@)
        &&& self.marked_days@.to_set() == marked_days(tasks, reference)
    }

    /// The agenda of `tasks` holds in each bucket what `bucket_tasks` says
    /// of that bucket.
    pub proof fn lemma_tasks(
        &self,
        tasks: Seq<TaskView>,
        reference: Option<Date>,
        preferences: Preferences,
        bucket: Bucket,
    )
        requires
            self.is_triage_of(tasks, reference, preferences),
        ensures
            self.spec_tasks(bucket) == bucket_tasks(tasks, bucket, reference, preferences),
    {
    }

    /// The tasks that the agenda holds in `bucket`.
    pub fn tasks(&self, bucket: Bucket) -> (tasks: &Vec<Task>)
        ensures
            tasks.deep_view() == self.spec_tasks(bucket),
    {
        match bucket {
            Bucket::Past => &self.past,
            Bucket::Today => &self.today,
            Bucket::Tomorrow => &self.tomorrow,
            Bucket::Week => &self.week,
            Bucket::Month => &self.month,
        }
    }
}

/// Sorts `tasks` into the agenda around `reference`. Without a reference
/// date every bucket is empty and no day is marked.
pub fn triage(tasks: &Vec<Task>, reference: Option<Date>, preferences: &Preferences) -> (agenda:
    Agenda)
    ensures
        agenda.is_triage_of(tasks.deep_view(), reference, *preferences),
{
    Agenda {
        past: get_past_tasks(tasks, reference, preferences),
        today: get_today_tasks(tasks, reference, preferences),
        tomorrow: get_tomorrow_tasks(tasks, reference, preferences),
        week: get_week_tasks(tasks, reference, preferences),
        month: get_month_tasks(tasks, reference, preferences),
        marked_days: mark_days(tasks, reference),
    }
}

/// The date that a calendar shows as selected, where the calendar counts
/// years from 0 and months from 0 for January: `None` when there is no such
/// date.
pub open spec fn spec_calendar_date(year: u32, month: u32, day: u32) -> Option<Date> {
    if valid_ymd(year as int, month + 1, day as int) {
        Some(Date::ymd(year as int, month + 1, day as int))
    } else {
        None
    }
}

/// The date that a calendar shows as selected, where the calendar counts
/// years from 0 and months from 0 for January: `None` when there is no such
/// date.
#[verifier::when_used_as_spec(spec_calendar_date)]
pub fn calendar_date(year: u32, month: u32, day: u32) -> (date: Option<Date>)
    ensures
        date == spec_calendar_date(year, month, day),
{
    if year > MAX_YEAR as u32 || month >= 12 {
        None
    } else {
        Date::from_ymd_opt(year as i32, month + 1, day)
    }
}

/// Sorts `tasks` into the agenda around the day that a calendar shows as
/// selected. Where the three numbers are no date, every bucket is empty and
/// no day is marked.
pub fn update_tasks(
    tasks: &Vec<Task>,
    year: u32,
    month: u32,
    day: u32,
    preferences: &Preferences,
) -> (agenda: Agenda)
    ensures
        agenda.is_triage_of(tasks.deep_view(), calendar_date(year, month, day), *preferences),
{
    triage(tasks, calendar_date(year, month, day), preferences)
}

/// The preferences under which nothing is hidden.
pub open spec fn show_all() -> Preferences {
    Preferences { show_done: true, show_deferred: true }
}

/// Whether the agenda of `tasks` around `reference` holds `task` in
/// `bucket`.
pub open spec fn holds(
    tasks: Seq<TaskView>,
    bucket: Bucket,
    reference: Date,
    preferences: Preferences,
    task: TaskView,
) -> bool {
    bucket_tasks(tasks, bucket, Some(reference), preferences).contains(task)
}

/// In how many buckets the agenda of `tasks` around `reference` holds
/// `task`.
pub open spec fn buckets_holding(
    tasks: Seq<TaskView>,
    reference: Date,
    preferences: Preferences,
    task: TaskView,
) -> nat {
    let past: nat = if holds(tasks, Bucket::Past, reference, preferences, task) {
        1
    } else {
        0
    };
    let today: nat = if holds(tasks, Bucket::Today, reference, preferences, task) {
        1
    } else {
        0
    };
    let tomorrow: nat = if holds(tasks, Bucket::Tomorrow, reference, preferences, task) {
        1
    } else {
        0
    };
    let week: nat = if holds(tasks, Bucket::Week, reference, preferences, task) {
        1
    } else {
        0
    };
    let month: nat = if holds(tasks, Bucket::Month, reference, preferences, task) {
        1
    } else {
        0
    };
    past + today + tomorrow + week + month
}

/// A bucket of the agenda holds a task exactly when the task is one of the
/// tasks that were sorted and the bucket shows it.
pub proof fn lemma_holds(
    tasks: Seq<TaskView>,
    bucket: Bucket,
    reference: Date,
    preferences: Preferences,
    task: TaskView,
)
    ensures
        holds(tasks, bucket, reference, preferences, task) <==> tasks.contains(task) && in_bucket(
            task,
            bucket,
            reference,
            preferences,
        ),
{
    let keep = range_filter(bucket.start(&reference), bucket.end(&reference), preferences);
    let shown = tasks.filter(keep);
    if shown.contains(task) {
        let i = choose|i: int| 0 <= i < shown.len() && shown[i] == task;
        tasks.lemma_filter_pred(keep, i);
        tasks.lemma_filter_contains_rev(keep, task);
    }
    if tasks.contains(task) && keep(task) {
        let i = choose|i: int| 0 <= i < tasks.len() && tasks[i] == task;
        tasks.lemma_filter_contains(keep, i);
    }
}

/// Whatever the preferences hide, the agenda holds no task in two buckets.
pub proof fn lemma_buckets_disjoint(
    tasks: Seq<TaskView>,
    reference: Date,
    preferences: Preferences,
    task: TaskView,
)
    ensures
        buckets_holding(tasks, reference, preferences, task) <= 1,
{
    lemma_holds(tasks, Bucket::Past, reference, preferences, task);
    lemma_holds(tasks, Bucket::Today, reference, preferences, task);
    lemma_holds(tasks, Bucket::Tomorrow, reference, preferences, task);
    lemma_holds(tasks, Bucket::Week, reference, preferences, task);
    lemma_holds(tasks, Bucket::Month, reference, preferences, task);
}

/// When nothing is hidden, the agenda around any date holds a task in
/// exactly one bucket if the task is due before the end of the last bucket,
/// which is 28 days after the reference date. A task that is due later, or
/// that has no due date, is in no bucket.
pub proof fn lemma_partition(tasks: Seq<TaskView>, reference: Date, task: TaskView)
    requires
        tasks.contains(task),
    ensures
        buckets_holding(tasks, reference, show_all(), task) == (match task.due_date {
            Some(due) => if due.num_days_from_ce() < reference.num_days_from_ce() + 28 {
                1nat
            } else {
                0nat
            },
            None => 0nat,
        }),
{
    lemma_holds(tasks, Bucket::Past, reference, show_all(), task);
    lemma_holds(tasks, Bucket::Today, reference, show_all(), task);
    lemma_holds(tasks, Bucket::Tomorrow, reference, show_all(), task);
    lemma_holds(tasks, Bucket::Week, reference, show_all(), task);
    lemma_holds(tasks, Bucket::Month, reference, show_all(), task);
}

/// A task that is due on the reference date belongs to today: the agenda
/// holds it there unless its being finished or deferred hides it, and holds
/// it neither in the past nor for tomorrow.
pub proof fn lemma_due_on_reference(
    tasks: Seq<TaskView>,
    reference: Date,
    preferences: Preferences,
    task: TaskView,
)
    requires
        tasks.contains(task),
        task.due_date matches Some(due) && due.num_days_from_ce() == reference.num_days_from_ce(),
    ensures
        holds(tasks, Bucket::Today, reference, preferences, task) <==> passes_done(
            task,
            preferences,
        ) && passes_deferred(task, Bucket::Today.start(&reference), preferences),
        !holds(tasks, Bucket::Past, reference, preferences, task),
        !holds(tasks, Bucket::Tomorrow, reference, preferences, task),
{
    lemma_holds(tasks, Bucket::Past, reference, preferences, task);
    lemma_holds(tasks, Bucket::Today, reference, preferences, task);
    lemma_holds(tasks, Bucket::Tomorrow, reference, preferences, task);
}

/// A task that is due on the day after the reference date belongs to
/// tomorrow: the agenda holds it there unless its being finished or
/// deferred hides it, and does not hold it for today.
pub proof fn lemma_due_on_next_day(
    tasks: Seq<TaskView>,
    reference: Date,
    preferences: Preferences,
    task: TaskView,
)
    requires
        tasks.contains(task),
        task.due_date matches Some(due) && due.num_days_from_ce() == reference.num_days_from_ce()
            + 1,
    ensures
        holds(tasks, Bucket::Tomorrow, reference, preferences, task) <==> passes_done(
            task,
            preferences,
        ) && passes_deferred(task, Bucket::Tomorrow.start(&reference), preferences),
        !holds(tasks, Bucket::Today, reference, preferences, task),
{
    lemma_holds(tasks, Bucket::Today, reference, preferences, task);
    lemma_holds(tasks, Bucket::Tomorrow, reference, preferences, task);
}

/// A task that is due on the date that follows the reference date in the
/// calendar belongs to tomorrow, as `lemma_due_on_next_day` says of the
/// next day number.
pub proof fn lemma_due_on_following_date(
    tasks: Seq<TaskView>,
    reference: Date,
    preferences: Preferences,
    task: TaskView,
)
    requires
        tasks.contains(task),
        reference.wf(),
        task.due_date matches Some(due) && due.wf() && (
            due.year() as int,
            due.month() as int,
            due.day() as int,
        ) == next_ymd(reference.year() as int, reference.month() as int, reference.day() as int),
    ensures
        holds(tasks, Bucket::Tomorrow, reference, preferences, task) <==> passes_done(
            task,
            preferences,
        ) && passes_deferred(task, Bucket::Tomorrow.start(&reference), preferences),
        !holds(tasks, Bucket::Today, reference, preferences, task),
{
    reference.lemma_wf();
    task.due_date->0.lemma_wf();
    lemma_next_day(reference.year() as int, reference.month() as int, reference.day() as int);
    lemma_due_on_next_day(tasks, reference, preferences, task);
}

/// Where finished tasks are hidden, no bucket holds a finished task. Where
/// they are shown, a bucket holds a finished task exactly when the task is
/// due on one of the bucket's days and is not hidden as deferred.
pub proof fn lemma_finished(
    tasks: Seq<TaskView>,
    bucket: Bucket,
    reference: Date,
    preferences: Preferences,
    task: TaskView,
)
    requires
        tasks.contains(task),
        task.finished,
    ensures
        !preferences.show_done ==> !holds(tasks, bucket, reference, preferences, task),
        preferences.show_done ==> (holds(tasks, bucket, reference, preferences, task) <==> (
        task.due_date matches Some(due) && in_days(
            due,
            bucket.start(&reference),
            bucket.end(&reference),
        ) && passes_deferred(task, bucket.start(&reference), preferences))),
{
    lemma_holds(tasks, bucket, reference, preferences, task);
}

/// Where deferred tasks are hidden, a bucket does not hold a task whose
/// threshold date is after the first day of the bucket, even if the task is
/// due on one of the bucket's days. Where they are shown, the bucket holds
/// such a task exactly when the task is due on one of its days and is not
/// hidden as finished.
pub proof fn lemma_deferred(
    tasks: Seq<TaskView>,
    bucket: Bucket,
    reference: Date,
    preferences: Preferences,
    task: TaskView,
)
    requires
        tasks.contains(task),
        task.threshold_date matches Some(threshold) && bucket.start(&reference) matches Some(first)
            && threshold.num_days_from_ce() > first,
    ensures
        !preferences.show_deferred ==> !holds(tasks, bucket, reference, preferences, task),
        preferences.show_deferred ==> (holds(tasks, bucket, reference, preferences, task) <==> (
        task.due_date matches Some(due) && in_days(
            due,
            bucket.start(&reference),
            bucket.end(&reference),
        ) && passes_done(task, preferences))),
{
    lemma_holds(tasks, bucket, reference, preferences, task);
}

} // verus!
