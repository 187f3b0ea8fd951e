//! Scheduled tasks: recurring maintenance work that a scheduler runs on a
//! cron expression.

use crate::clock::now_millis;
use crate::value_objects::Uuid;
use vstd::prelude::*;

verus! {

/// The work a scheduled task does.
#[derive(Debug, Clone, Copy, PartialEq, Eq, Structural)]
pub enum TaskType {
    /// Rebuild the block summary index.
    RebuildIndex,
    /// Remove summaries of deleted or changed blocks.
    CleanStaleSummaries,
    /// Report on the index's health.
    HealthCheck,
}

/// A task that runs periodically. Times are milliseconds since the Unix
/// epoch.
#[derive(Debug, Clone, PartialEq)]
pub struct ScheduledTask {
    /// Unique identifier.
    pub id: Uuid,
    /// Human-readable name.
    pub name: String,
    /// Cron expression (minute, hour, day of month, month, day of week).
    pub cron_expr: String,
    /// The work to do.
    pub task_type: TaskType,
    /// Whether the task runs.
    pub enabled: bool,
    /// Last run, if it ever ran.
    pub last_run: Option<i64>,
    /// Next planned run.
    pub next_run: i64,
    /// Creation time.
    pub created_at: i64,
}

impl ScheduledTask {
    /// An enabled task that never ran, with the given id, created at `now`.
    pub fn new_at(
        name: String,
        cron_expr: String,
        task_type: TaskType,
        next_run: i64,
        id: Uuid,
        now: i64,
    ) -> (res: ScheduledTask)
        ensures
            res == (ScheduledTask {
                id,
                name,
                cron_expr,
                task_type,
                enabled: true,
                last_run: None,
                next_run,
                created_at: now,
            }),
    {
        ScheduledTask {
            id,
            name,
            cron_expr,
            task_type,
            enabled: true,
            last_run: None,
            next_run,
            created_at: now,
        }
    }

    /// An enabled task that never ran, with a fresh random id, created now.
    pub fn new(name: String, cron_expr: String, task_type: TaskType, next_run: i64) -> (res:
        ScheduledTask)
        ensures
            res.name == name,
            res.cron_expr == cron_expr,
            res.task_type == task_type,
            res.enabled,
            res.last_run is None,
            res.next_run == next_run,
            res.id.value != 0,
    {
        let now = now_millis();
        let id = Uuid::new_v4();
        Self::new_at(name, cron_expr, task_type, next_run, id, now)
    }

    /// The task's name.
    pub fn name(&self) -> (res: &str)
        ensures
            res@ == self.name@,
    {
        self.name.as_str()
    }
}

} // verus!
