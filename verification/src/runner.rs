//! Running a task against the store in memory.

use crate::custom_errors::app_error::AppError;
use crate::library::Library;
use crate::tables::LibraryView;
use crate::workflow::{
    lemma_resume_descends, seen, Outcome, OutcomeView, Progress, ProgressView, Task, TaskView,
};
use vstd::prelude::*;

verus! {

impl LibraryView {
    /// The store and the result once a task that stands at `progress` has
    /// run to its end, each call answered by this store.
    pub open spec fn run(self, progress: ProgressView) -> (LibraryView, Result<
        OutcomeView,
        AppError,
    >)
        decreases progress.rank(),
    {
        match progress {
            ProgressView::Done(result) => (self, result),
            ProgressView::Ask(stage, query) => {
                let (next, reply) = self.answer(query);
                proof {
                    lemma_resume_descends(stage, reply);
                }
                next.run(stage.resume(reply))
            },
        }
    }

    /// The store and the result once `task` has run from its first step to its end.
    pub open spec fn perform(self, task: TaskView) -> (LibraryView, Result<OutcomeView, AppError>) {
        self.run(task.begin())
    }

    /// A task leaves the store obeying its rules, wherever it starts from.
    pub proof fn lemma_run_keeps_rules(self, progress: ProgressView)
        requires
            self.wf(),
        ensures
            self.run(progress).0.wf(),
        decreases progress.rank(),
    {
        match progress {
            ProgressView::Done(_) => {},
            ProgressView::Ask(stage, query) => {
                let (next, reply) = self.answer(query);
                self.lemma_answer_keeps_rules(query);
                lemma_resume_descends(stage, reply);
                next.lemma_run_keeps_rules(stage.resume(reply));
            },
        }
    }
}

impl Library {
    /// Runs `task` to its end: makes every call it asks for on this store
    /// and hands each reply back to it.
    pub fn perform(&mut self, task: Task) -> (result: Result<Outcome, AppError>)
        ensures
            old(self)@.wf(),
            final(self)@.wf(),
            final(self)@ == old(self)@.perform(task@).0,
            seen(result) == old(self)@.perform(task@).1,
    {
        let mut progress = task.begin();
        proof {
            use_type_invariant(&*self);
        }
        loop
            invariant
                old(self)@.wf(),
                self@.wf(),
                self@.run(progress@) == old(self)@.perform(task@),
            decreases progress@.rank(),
        {
            match progress {
                Progress::Done(result) => {
                    return result;
                },
                Progress::Ask(stage, query) => {
                    let reply = self.answer(&query);
                    progress = stage.resume(reply);
                },
            }
        }
    }
}

} // verus!
