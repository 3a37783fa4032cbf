use task_agenda::agenda::{
    calendar_date, get_bucket_tasks, get_month_tasks, get_past_tasks, get_tasks, get_today_tasks,
    get_tomorrow_tasks, get_week_tasks, is_in_range, mark_days, triage, update_tasks, Agenda,
    Bucket, Preferences,
};
use task_agenda::date::Date;
use task_agenda::tasks::Task;

fn date(year: i32, month: u32, day: u32) -> Date {
    Date::from_ymd_opt(year, month, day).unwrap()
}

fn due(year: i32, month: u32, day: u32) -> Task {
    let mut task = Task::new("pay the rent");
    task.due_date = Some(date(year, month, day));
    task
}

fn named(mut task: Task, subject: &str) -> Task {
    task.subject = subject.to_string();
    task
}

fn all() -> Preferences {
    Preferences { show_done: true, show_deferred: true }
}

fn holders(agenda: &Agenda, task: &Task) -> usize {
    let buckets = [Bucket::Past, Bucket::Today, Bucket::Tomorrow, Bucket::Week, Bucket::Month];
    buckets.iter().filter(|bucket| agenda.tasks(**bucket).contains(task)).count()
}

#[test]
fn end_to_end_example() {
    let a = named(due(2024, 3, 14), "A");
    let b = named(due(2024, 3, 15), "B");
    let c = named(due(2024, 3, 16), "C");
    let d = named(due(2024, 3, 17), "D");
    let e = named(due(2024, 3, 25), "E");
    let mut f = named(Task::new("call home"), "F");
    f.finished = true;
    let tasks = vec![a.clone(), b.clone(), c.clone(), d.clone(), e.clone(), f.clone()];

    let agenda = triage(&tasks, Some(date(2024, 3, 15)), &all());

    assert_eq!(agenda.past, vec![a]);
    assert_eq!(agenda.today, vec![b]);
    assert_eq!(agenda.tomorrow, vec![c]);
    assert_eq!(agenda.week, vec![d]);
    assert_eq!(agenda.month, vec![e]);
    assert_eq!(agenda.marked_days, vec![14, 15, 16, 17, 25]);
    assert_eq!(task_agenda::done::completed(&tasks), vec![f]);
}

#[test]
fn marks_only_days_of_reference_month() {
    let tasks = vec![due(2024, 3, 20), due(2024, 4, 1)];
    let agenda = triage(&tasks, Some(date(2024, 3, 15)), &all());
    assert_eq!(agenda.marked_days, vec![20]);
    assert_eq!(mark_days(&tasks, Some(date(2024, 3, 15))), vec![20]);
}

#[test]
fn marks_are_sorted_and_unique() {
    let tasks = vec![due(2024, 3, 31), due(2024, 3, 1), due(2024, 3, 20), due(2024, 3, 1)];
    assert_eq!(mark_days(&tasks, Some(date(2024, 3, 15))), vec![1, 20, 31]);
}

#[test]
fn marks_need_the_same_year() {
    let tasks = vec![due(2023, 3, 20), due(2025, 3, 21), due(2024, 3, 22)];
    assert_eq!(mark_days(&tasks, Some(date(2024, 3, 15))), vec![22]);
}

#[test]
fn marks_do_not_depend_on_what_is_hidden() {
    let mut finished = due(2024, 3, 10);
    finished.finished = true;
    let mut deferred = due(2024, 3, 20);
    deferred.threshold_date = Some(date(2024, 3, 19));
    let far = due(2024, 3, 5);
    let tasks = vec![finished, deferred, far, Task::new("call home")];
    let hidden = Preferences { show_done: false, show_deferred: false };

    let agenda = triage(&tasks, Some(date(2024, 3, 15)), &hidden);

    assert_eq!(agenda.marked_days, vec![5, 10, 20]);
    assert_eq!(agenda.past.len(), 1);
    assert!(agenda.week.is_empty());
}

#[test]
fn no_marks_without_reference_date() {
    let tasks = vec![due(2024, 3, 20)];
    assert_eq!(mark_days(&tasks, None), Vec::<u32>::new());
}

#[test]
fn due_on_reference_date_is_today() {
    let task = due(2024, 3, 15);
    let tasks = vec![task.clone()];
    let agenda = triage(&tasks, Some(date(2024, 3, 15)), &all());
    assert_eq!(agenda.today, vec![task]);
    assert!(agenda.past.is_empty());
    assert!(agenda.tomorrow.is_empty());
    assert!(agenda.week.is_empty());
    assert!(agenda.month.is_empty());
}

#[test]
fn due_on_next_day_is_tomorrow() {
    let task = due(2024, 3, 16);
    let tasks = vec![task.clone()];
    let agenda = triage(&tasks, Some(date(2024, 3, 15)), &all());
    assert_eq!(agenda.tomorrow, vec![task]);
    assert!(agenda.today.is_empty());
    assert!(agenda.past.is_empty());
    assert!(agenda.week.is_empty());
}

#[test]
fn week_and_month_begin_and_end() {
    let reference = Some(date(2024, 3, 15));
    let second = due(2024, 3, 17);
    let sixth = due(2024, 3, 21);
    let seventh = due(2024, 3, 22);
    let last = due(2024, 4, 11);
    let beyond = due(2024, 4, 12);
    let tasks = vec![beyond.clone(), last.clone(), seventh.clone(), sixth.clone(), second.clone()];

    let agenda = triage(&tasks, reference, &all());

    assert_eq!(agenda.week, vec![sixth, second]);
    assert_eq!(agenda.month, vec![last, seventh]);
    assert_eq!(holders(&agenda, &beyond), 0);
}

#[test]
fn each_due_task_is_in_one_bucket() {
    let reference = date(2024, 3, 15);
    let mut tasks = Vec::new();
    for month in 1..=4u32 {
        for day in 1..=28u32 {
            tasks.push(due(2024, month, day));
        }
    }
    tasks.push(due(1999, 12, 31));
    tasks.push(Task::new("call home"));

    let agenda = triage(&tasks, Some(reference), &all());

    let end = reference.num_days_from_ce() + 28;
    for task in &tasks {
        let expected = match task.due_date {
            Some(day) if day.num_days_from_ce() < end => 1,
            _ => 0,
        };
        assert_eq!(holders(&agenda, task), expected);
    }
    let held = agenda.past.len()
        + agenda.today.len()
        + agenda.tomorrow.len()
        + agenda.week.len()
        + agenda.month.len();
    assert_eq!(held, 28 + 28 + 28 + 11 + 1);
}

#[test]
fn task_without_due_date_is_in_no_bucket() {
    let mut task = Task::new("call home");
    task.threshold_date = Some(date(2024, 3, 1));
    let tasks = vec![task.clone()];
    let agenda = triage(&tasks, Some(date(2024, 3, 15)), &all());
    assert_eq!(holders(&agenda, &task), 0);
    assert!(agenda.marked_days.is_empty());
    assert!(get_tasks(&tasks, None, None, &all()).is_empty());
}

#[test]
fn finished_tasks_are_hidden_on_request() {
    let reference = Some(date(2024, 3, 15));
    let mut done = due(2024, 3, 15);
    done.finished = true;
    let open = due(2024, 3, 15);
    let tasks = vec![done.clone(), open.clone()];

    let hiding = Preferences { show_done: false, show_deferred: true };
    assert_eq!(get_today_tasks(&tasks, reference, &hiding), vec![open.clone()]);
    assert_eq!(get_today_tasks(&tasks, reference, &all()), vec![done.clone(), open.clone()]);

    let mut late = due(2024, 3, 1);
    late.finished = true;
    let old = vec![late.clone()];
    assert!(get_past_tasks(&old, reference, &hiding).is_empty());
    assert_eq!(get_past_tasks(&old, reference, &all()), vec![late]);
}

#[test]
fn deferred_tasks_are_hidden_on_request() {
    let reference = Some(date(2024, 3, 15));
    let hiding = Preferences { show_done: true, show_deferred: false };

    let mut deferred = due(2024, 3, 18);
    deferred.threshold_date = Some(date(2024, 3, 18));
    let mut current = due(2024, 3, 18);
    current.threshold_date = Some(date(2024, 3, 17));
    let mut early = due(2024, 3, 19);
    early.threshold_date = Some(date(2024, 3, 1));
    let tasks = vec![deferred.clone(), current.clone(), early.clone()];

    assert_eq!(get_week_tasks(&tasks, reference, &hiding), vec![current.clone(), early.clone()]);
    assert_eq!(get_week_tasks(&tasks, reference, &all()), vec![deferred, current, early]);
}

#[test]
fn past_tasks_are_never_hidden_as_deferred() {
    let reference = Some(date(2024, 3, 15));
    let hiding = Preferences { show_done: true, show_deferred: false };
    let mut task = due(2024, 3, 1);
    task.threshold_date = Some(date(2030, 1, 1));
    let tasks = vec![task.clone()];
    assert_eq!(get_past_tasks(&tasks, reference, &hiding), vec![task]);
}

#[test]
fn buckets_keep_the_order_of_the_list() {
    let first = named(due(2024, 3, 10), "first");
    let second = named(due(2024, 1, 1), "second");
    let third = named(due(2024, 3, 14), "third");
    let tasks = vec![first.clone(), due(2024, 3, 15), second.clone(), third.clone()];
    let shown = get_past_tasks(&tasks, Some(date(2024, 3, 15)), &all());
    assert_eq!(shown, vec![first, second, third]);
}

#[test]
fn empty_list_gives_empty_agenda() {
    let tasks: Vec<Task> = Vec::new();
    let agenda = triage(&tasks, Some(date(2024, 3, 15)), &all());
    assert!(agenda.past.is_empty());
    assert!(agenda.today.is_empty());
    assert!(agenda.tomorrow.is_empty());
    assert!(agenda.week.is_empty());
    assert!(agenda.month.is_empty());
    assert!(agenda.marked_days.is_empty());
}

#[test]
fn no_reference_date_gives_empty_agenda() {
    let tasks = vec![due(2024, 3, 14), due(2024, 3, 15), due(2024, 3, 30)];
    let agenda = triage(&tasks, None, &all());
    assert!(agenda.past.is_empty());
    assert!(agenda.today.is_empty());
    assert!(agenda.tomorrow.is_empty());
    assert!(agenda.week.is_empty());
    assert!(agenda.month.is_empty());
    assert!(agenda.marked_days.is_empty());
    assert!(get_tomorrow_tasks(&tasks, None, &all()).is_empty());
    assert!(get_month_tasks(&tasks, None, &all()).is_empty());
}

#[test]
fn calendar_counts_months_from_zero() {
    assert_eq!(calendar_date(2024, 2, 15), Some(date(2024, 3, 15)));
    assert_eq!(calendar_date(2024, 0, 31), Some(date(2024, 1, 31)));
    assert_eq!(calendar_date(2024, 11, 31), Some(date(2024, 12, 31)));
    assert_eq!(calendar_date(2024, 12, 1), None);
    assert_eq!(calendar_date(2024, 1, 30), None);
    assert_eq!(calendar_date(2024, 5, 0), None);
    assert_eq!(calendar_date(u32::MAX, 0, 1), None);
    assert_eq!(calendar_date(2024, u32::MAX, 1), None);
    assert_eq!(calendar_date(262143, 0, 1), None);
    assert_eq!(calendar_date(262142, 11, 31), Some(date(262142, 12, 31)));
}

#[test]
fn update_tasks_sorts_around_the_selected_day() {
    let a = due(2024, 3, 14);
    let b = due(2024, 3, 15);
    let tasks = vec![a.clone(), b.clone()];
    let agenda = update_tasks(&tasks, 2024, 2, 15, &all());
    assert_eq!(agenda, triage(&tasks, Some(date(2024, 3, 15)), &all()));
    assert_eq!(agenda.past, vec![a]);
    assert_eq!(agenda.today, vec![b]);
    assert_eq!(agenda.marked_days, vec![14, 15]);
}

#[test]
fn update_tasks_without_such_a_day_shows_nothing() {
    let tasks = vec![due(2024, 2, 28), due(2024, 3, 1), due(2024, 2, 29)];
    let agenda = update_tasks(&tasks, 2024, 1, 30, &all());
    assert!(agenda.past.is_empty());
    assert!(agenda.today.is_empty());
    assert!(agenda.tomorrow.is_empty());
    assert!(agenda.week.is_empty());
    assert!(agenda.month.is_empty());
    assert!(agenda.marked_days.is_empty());
}

#[test]
fn buckets_follow_the_calendar_over_the_end_of_february() {
    let tasks = vec![due(2024, 2, 29), due(2024, 3, 1), due(2024, 3, 5), due(2024, 3, 26)];
    let agenda = triage(&tasks, Some(date(2024, 2, 28)), &all());
    assert_eq!(agenda.tomorrow, vec![due(2024, 2, 29)]);
    assert_eq!(agenda.week, vec![due(2024, 3, 1), due(2024, 3, 5)]);
    assert_eq!(agenda.month, vec![due(2024, 3, 26)]);
    assert_eq!(agenda.marked_days, vec![29]);

    let agenda = triage(&tasks, Some(date(2023, 12, 31)), &all());
    assert!(agenda.tomorrow.is_empty());
    assert!(agenda.month.is_empty());
    let next: Vec<Task> = vec![due(2024, 1, 1)];
    assert_eq!(get_tomorrow_tasks(&next, Some(date(2023, 12, 31)), &all()), next);
}

#[test]
fn bucket_bounds() {
    let reference = date(2024, 3, 15);
    let day = i64::from(reference.num_days_from_ce());
    assert_eq!(Bucket::Past.start(&reference), None);
    assert_eq!(Bucket::Past.end(&reference), Some(day));
    assert_eq!(Bucket::Today.start(&reference), Some(day));
    assert_eq!(Bucket::Today.end(&reference), Some(day + 1));
    assert_eq!(Bucket::Tomorrow.start(&reference), Some(day + 1));
    assert_eq!(Bucket::Tomorrow.end(&reference), Some(day + 2));
    assert_eq!(Bucket::Week.start(&reference), Some(day + 2));
    assert_eq!(Bucket::Week.end(&reference), Some(day + 7));
    assert_eq!(Bucket::Month.start(&reference), Some(day + 7));
    assert_eq!(Bucket::Month.end(&reference), Some(day + 28));
    assert_eq!(Bucket::Past.first_day(), None);
    assert_eq!(Bucket::Month.first_day(), Some(7));
    assert_eq!(Bucket::Month.end_day(), 28);
}

#[test]
fn open_bounds_leave_the_range_open() {
    let reference = date(2024, 3, 15);
    let day = i64::from(reference.num_days_from_ce());
    let tasks = vec![due(2024, 3, 14), due(2024, 3, 15), due(2024, 3, 16), Task::new("call home")];
    assert_eq!(get_tasks(&tasks, None, None, &all()), tasks[0..3].to_vec());
    assert_eq!(get_tasks(&tasks, Some(day), None, &all()), tasks[1..3].to_vec());
    assert_eq!(get_tasks(&tasks, None, Some(day), &all()), tasks[0..1].to_vec());
    assert_eq!(get_tasks(&tasks, Some(day), Some(day), &all()), Vec::<Task>::new());
    assert!(is_in_range(&tasks[1], Some(day), Some(day + 1), &all()));
    assert!(!is_in_range(&tasks[1], Some(day + 1), Some(day + 2), &all()));
    assert!(!is_in_range(&tasks[3], None, None, &all()));
}

#[test]
fn threshold_on_the_first_day_does_not_hide() {
    let reference = date(2024, 3, 15);
    let day = i64::from(reference.num_days_from_ce());
    let hiding = Preferences { show_done: true, show_deferred: false };
    let mut task = due(2024, 3, 15);
    task.threshold_date = Some(reference);
    assert!(is_in_range(&task, Some(day), Some(day + 1), &hiding));
    task.threshold_date = Some(date(2024, 3, 16));
    assert!(!is_in_range(&task, Some(day), Some(day + 1), &hiding));
    assert!(is_in_range(&task, None, Some(day + 1), &hiding));
    assert!(is_in_range(&task, Some(day), Some(day + 1), &all()));
}

#[test]
fn bucket_tasks_by_bucket() {
    let tasks = vec![due(2024, 3, 14), due(2024, 3, 15), due(2024, 3, 16), due(2024, 3, 20)];
    let reference = Some(date(2024, 3, 15));
    let agenda = triage(&tasks, reference, &all());
    for bucket in [Bucket::Past, Bucket::Today, Bucket::Tomorrow, Bucket::Week, Bucket::Month] {
        assert_eq!(&get_bucket_tasks(&tasks, bucket, reference, &all()), agenda.tasks(bucket));
    }
    assert_eq!(agenda.tasks(Bucket::Week), &vec![due(2024, 3, 20)]);
}

#[test]
fn agenda_at_the_end_of_the_calendar() {
    let last = date(262142, 12, 31);
    let tasks = vec![due(262142, 12, 31), due(262142, 12, 30), due(-262143, 1, 1)];
    let agenda = triage(&tasks, Some(last), &all());
    assert_eq!(agenda.today, vec![due(262142, 12, 31)]);
    assert_eq!(agenda.past, vec![due(262142, 12, 30), due(-262143, 1, 1)]);
    assert!(agenda.tomorrow.is_empty());
    assert!(agenda.month.is_empty());
    assert_eq!(agenda.marked_days, vec![30, 31]);
}

#[test]
fn copies_keep_notes_and_tags() {
    let mut task = named(due(2024, 3, 15), "bring milk");
    task.note = Some("take the *large* bottle".to_string());
    task.tags.insert("project".to_string(), "home".to_string());
    task.priority = task_agenda::tasks::Priority::new(2).unwrap();
    let tasks = vec![task.clone()];
    let shown = get_today_tasks(&tasks, Some(date(2024, 3, 15)), &all());
    assert_eq!(shown.len(), 1);
    assert_eq!(shown[0].subject, "bring milk");
    assert_eq!(shown[0].note.as_deref(), Some("take the *large* bottle"));
    assert_eq!(shown[0].tags.get("project").map(String::as_str), Some("home"));
    assert_eq!(shown[0].priority.level(), Some(2));
    assert_eq!(shown[0], task);
}
