//! A one-task-at-a-time daily task tracker: the record that is kept between
//! runs, the transitions that change it, and the policy that resets it when
//! the calendar day changes.
mod date;
mod machine;
mod persist;
mod record;

pub use date::{current_timestamp, days_in_month, is_leap_year, Date};
pub use machine::{
    abadon_task, after, apply, finish_task, lemma_abandon_keeps_done, lemma_one_start_until_released,
    lemma_start_then_finish, list_tasks, run, starts_succeeded, start_task, Action, TaskError,
    TaskErrorView,
};
pub use persist::{
    check_date, check_file, check_file_now, clear_config, fresh, lemma_check_date_idempotent,
    loaded_view, needs_write, prepare, prepared, refreshed,
};
pub use record::{started_view, DoneConf, DoneConfView};
