//! The entities that the stores persist, and the shapes of the assistant's
//! structured answers.

use vstd::prelude::*;

verus! {

/// The characters of an optional text.
pub open spec fn opt_text(text: Option<String>) -> Option<Seq<char>> {
    match text {
        Some(t) => Some(t@),
        None => None,
    }
}

/// A task as callers see it.  The caller assigns `id`, which never changes.
#[derive(Debug, Clone)]
pub struct Task {
    pub id: String,
    pub title: String,
    pub done: bool,
    pub is_today: bool,
    /// Absent where a row written by an early schema holds no estimate.
    pub est_minutes: Option<i32>,
    pub notes: Option<String>,
    pub project: Option<String>,
    /// In the order in which the caller gave them.  Listing a task always
    /// yields `Some`, with no tags when none were stored.
    pub tags: Option<Vec<String>>,
    /// `YYYY-MM-DD`.
    pub due: Option<String>,
    pub created_at: Option<String>,
}

/// What a [`Task`] holds, as mathematical values.
pub struct TaskView {
    pub id: Seq<char>,
    pub title: Seq<char>,
    pub done: bool,
    pub is_today: bool,
    pub est_minutes: Option<i32>,
    pub notes: Option<Seq<char>>,
    pub project: Option<Seq<char>>,
    pub tags: Option<Seq<Seq<char>>>,
    pub due: Option<Seq<char>>,
    pub created_at: Option<Seq<char>>,
}

impl View for Task {
    type V = TaskView;

    open spec fn view(&self) -> TaskView {
        TaskView {
            id: self.id@,
            title: self.title@,
            done: self.done,
            is_today: self.is_today,
            est_minutes: self.est_minutes,
            notes: opt_text(self.notes),
            project: opt_text(self.project),
            tags: self.tags.deep_view(),
            due: opt_text(self.due),
            created_at: opt_text(self.created_at),
        }
    }
}

impl TaskView {
    /// A task is valid when it has a title.
    pub open spec fn valid(self) -> bool {
        self.title.len() > 0
    }
}

impl Task {
    /// Whether the task has a title.
    pub fn is_valid(&self) -> (ok: bool)
        ensures
            ok == self@.valid(),
    {
        !self.title.as_str().is_empty()
    }
}

/// A scheduled interval of one day, counted in slots from midnight, for a task
/// or for none.  The task it names may no longer exist.
#[derive(Debug, Clone)]
pub struct DayBlock {
    pub id: String,
    pub task_id: Option<String>,
    /// `YYYY-MM-DD`.
    pub date: String,
    pub start_slot: i32,
    pub end_slot: i32,
}

/// What a [`DayBlock`] holds, as mathematical values.
pub struct DayBlockView {
    pub id: Seq<char>,
    pub task_id: Option<Seq<char>>,
    pub date: Seq<char>,
    pub start_slot: int,
    pub end_slot: int,
}

impl View for DayBlock {
    type V = DayBlockView;

    open spec fn view(&self) -> DayBlockView {
        DayBlockView {
            id: self.id@,
            task_id: opt_text(self.task_id),
            date: self.date@,
            start_slot: self.start_slot as int,
            end_slot: self.end_slot as int,
        }
    }
}

impl DayBlockView {
    /// A block is valid when it ends after it starts.
    pub open spec fn valid(self) -> bool {
        self.start_slot < self.end_slot
    }
}

impl DayBlock {
    /// Whether the block ends after it starts.
    pub fn is_valid(&self) -> (ok: bool)
        ensures
            ok == self@.valid(),
    {
        self.start_slot < self.end_slot
    }
}

/// A task as the assistant proposes it.
#[derive(Debug, Clone)]
pub struct ParsedTask {
    pub title: String,
    pub est: Option<i32>,
    pub tags: Option<Vec<String>>,
    pub priority: Option<i32>,
}

/// The assistant's answer to a request to enrich a task.
#[derive(Debug, Clone)]
pub struct EnrichResponse {
    pub tasks: Vec<ParsedTask>,
}

/// The assistant's answer to a request to plan a day.
#[derive(Debug, Clone)]
pub struct PlanWithAIResponse {
    pub assistant_text: String,
    pub proposed_tasks: Vec<ParsedTask>,
    pub questions: Option<Vec<String>>,
}

/// One change that the assistant suggests to an existing plan.
#[derive(Debug, Clone)]
pub struct RefineSuggestion {
    /// `update`, `split` or `merge`.
    pub kind: String,
    pub target_ids: Vec<String>,
    pub updates: Option<ParsedTask>,
    pub split: Option<Vec<ParsedTask>>,
    pub reason: Option<String>,
}

/// The assistant's answer to a request to refine a plan.
#[derive(Debug, Clone)]
pub struct RefineResponse {
    pub assistant_text: String,
    pub suggestions: Vec<RefineSuggestion>,
}

} // verus!
