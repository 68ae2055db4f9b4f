//! The scheduler's book of tasks.
//!
//! The scheduler decides; it does not run anything and sends nothing. It is
//! told that a task was fetched, and says whether to start it now or let it
//! wait. It is told that a run ended, and says which waiting task to start
//! in the freed place; the report of the run it keeps until it is told that
//! the control plane has taken it. A report goes upstream in two sendings:
//! first the report itself, then the mark that the task is done. The book
//! holds which of the two is due, so that a sending that failed is made
//! again and one that went through is not. Every task it takes gets a
//! ticket, a number that is never given twice, and the tickets are what the
//! book is kept by.

use crate::runtime::{report_of, reports, ExecutionOutcome, Task, TaskResult};
use std::collections::{HashMap, VecDeque};
use vstd::prelude::*;

verus! {

broadcast use vstd::std_specs::hash::group_hash_axioms;

/// A task that the scheduler has taken, under its ticket.
#[derive(Clone, Debug, PartialEq, Eq)]
pub struct Job {
    pub ticket: u64,
    pub task: Task,
}

/// What is to be told upstream of a task that has ended.
#[derive(Clone, Debug, PartialEq, Eq)]
pub struct Report {
    pub ticket: u64,
    /// The control plane's name for the task.
    pub task_id: Option<String>,
    pub result: TaskResult,
}

/// Which sending of a report is due.
#[derive(Clone, Copy, Debug, PartialEq, Eq)]
pub enum Upload {
    /// The report itself.
    Result,
    /// The mark that the task is done. The control plane has the report.
    Done,
}

/// The book of the scheduler.
pub struct Scheduler {
    limit: usize,
    next_ticket: u64,
    waiting: VecDeque<Job>,
    running: HashMap<u64, Option<String>>,
    outbox: VecDeque<Report>,
    sent: bool,
}

/// The book of the scheduler, as a value of mathematics.
pub struct SchedulerView {
    /// How many tasks may run at a time.
    pub limit: nat,
    /// The ticket that the next task gets.
    pub next_ticket: u64,
    /// The tasks that wait for a place, the one that waits longest first.
    pub waiting: Seq<Job>,
    /// The tickets of the tasks that run, each with the task's name.
    pub running: Map<u64, Option<String>>,
    /// The reports that the control plane has yet to take, the oldest first.
    pub outbox: Seq<Report>,
    /// Whether the control plane has the oldest of these reports, so that
    /// only the mark that its task is done is yet to be sent.
    pub sent: bool,
}

impl SchedulerView {
    /// The book before any task.
    pub open spec fn empty(limit: nat) -> SchedulerView {
        SchedulerView {
            limit,
            next_ticket: 0,
            waiting: Seq::empty(),
            running: Map::empty(),
            outbox: Seq::empty(),
            sent: false,
        }
    }

    /// Whether the task with the ticket waits.
    pub open spec fn is_waiting(self, ticket: u64) -> bool {
        exists|i: int| 0 <= i < self.waiting.len() && (#[trigger] self.waiting[i]).ticket == ticket
    }

    /// Whether the task with the ticket runs.
    pub open spec fn is_running(self, ticket: u64) -> bool {
        self.running.dom().contains(ticket)
    }

    /// Whether the task with the ticket has ended and its report is yet to
    /// be taken.
    pub open spec fn is_unreported(self, ticket: u64) -> bool {
        exists|i: int| 0 <= i < self.outbox.len() && (#[trigger] self.outbox[i]).ticket == ticket
    }

    /// Whether a place is free.
    pub open spec fn has_slot(self) -> bool {
        self.running.dom().len() < self.limit
    }

    /// What holds of every book: at least one task may run at a time and no
    /// more run than may; a task waits only while every place is taken; the
    /// tasks wait in the order of their tickets; no ticket is in the book
    /// twice, and none is of a task yet to come; only a report that is in
    /// the book has been sent.
    pub open spec fn wf(self) -> bool {
        &&& self.limit >= 1
        &&& self.sent ==> self.outbox.len() > 0
        &&& self.running.dom().finite()
        &&& self.running.dom().len() <= self.limit
        &&& self.waiting.len() > 0 ==> self.running.dom().len() == self.limit
        &&& forall|t: u64| #[trigger] self.running.dom().contains(t) ==> t < self.next_ticket
        &&& forall|i: int|
            0 <= i < self.waiting.len() ==> (#[trigger] self.waiting[i]).ticket < self.next_ticket
        &&& forall|i: int, j: int|
            0 <= i < j < self.waiting.len() ==> (#[trigger] self.waiting[i]).ticket < (
            #[trigger] self.waiting[j]).ticket
        &&& forall|i: int|
            0 <= i < self.waiting.len() ==> !self.running.dom().contains(
                (#[trigger] self.waiting[i]).ticket,
            )
        &&& forall|i: int|
            0 <= i < self.outbox.len() ==> (#[trigger] self.outbox[i]).ticket < self.next_ticket
        &&& forall|i: int, j: int|
            0 <= i < j < self.outbox.len() ==> (#[trigger] self.outbox[i]).ticket != (
            #[trigger] self.outbox[j]).ticket
        &&& forall|i: int|
            0 <= i < self.outbox.len() ==> !self.running.dom().contains(
                (#[trigger] self.outbox[i]).ticket,
            )
        &&& forall|i: int, j: int|
            0 <= i < self.outbox.len() && 0 <= j < self.waiting.len() ==> (
            #[trigger] self.outbox[i]).ticket != (#[trigger] self.waiting[j]).ticket
    }

    /// The book after a task was taken: the task has the next ticket, and
    /// runs if a place is free, and waits behind the others if none is.
    pub open spec fn accept(self, task: Task) -> SchedulerView {
        if self.has_slot() {
            SchedulerView {
                next_ticket: (self.next_ticket + 1) as u64,
                running: self.running.insert(self.next_ticket, task.id),
                ..self
            }
        } else {
            SchedulerView {
                next_ticket: (self.next_ticket + 1) as u64,
                waiting: self.waiting.push(Job { ticket: self.next_ticket, task }),
                ..self
            }
        }
    }

    /// The book after the run with the ticket ended and `report` was made
    /// of it: the task runs no more, its report is the last of those to be
    /// taken, and the task that waits longest has its place. A ticket of no
    /// running task changes nothing.
    pub open spec fn finish(self, ticket: u64, report: Report) -> SchedulerView {
        if !self.is_running(ticket) {
            self
        } else if self.waiting.len() > 0 {
            SchedulerView {
                running: self.running.remove(ticket).insert(
                    self.waiting[0].ticket,
                    self.waiting[0].task.id,
                ),
                waiting: self.waiting.drop_first(),
                outbox: self.outbox.push(report),
                ..self
            }
        } else {
            SchedulerView {
                running: self.running.remove(ticket),
                outbox: self.outbox.push(report),
                ..self
            }
        }
    }

    /// Which sending is due, and of which report: of the oldest, the
    /// report itself until the control plane has it, and then the mark that
    /// the task is done.
    pub open spec fn next_upload(self) -> Option<(Upload, Report)> {
        if self.outbox.len() == 0 {
            None
        } else if self.sent {
            Some((Upload::Done, self.outbox[0]))
        } else {
            Some((Upload::Result, self.outbox[0]))
        }
    }

    /// The book after the control plane took the oldest report: the mark
    /// that its task is done is due. Without a report nothing changes.
    pub open spec fn report_sent(self) -> SchedulerView {
        if self.outbox.len() > 0 {
            SchedulerView { sent: true, ..self }
        } else {
            self
        }
    }

    /// The book after the control plane marked the task of the oldest
    /// report done: the report has left. Where the control plane does not
    /// have the report yet, nothing changes.
    pub open spec fn delivered(self) -> SchedulerView {
        if self.sent && self.outbox.len() > 0 {
            SchedulerView { outbox: self.outbox.drop_first(), sent: false, ..self }
        } else {
            self
        }
    }
}

impl View for Scheduler {
    type V = SchedulerView;

    closed spec fn view(&self) -> SchedulerView {
        SchedulerView {
            limit: self.limit as nat,
            next_ticket: self.next_ticket,
            waiting: self.waiting@,
            running: self.running@,
            outbox: self.outbox@,
            sent: self.sent,
        }
    }
}

impl Scheduler {
    /// What holds of every book.
    pub open spec fn wf(&self) -> bool {
        self@.wf()
    }

    /// A book for at most `limit` tasks at a time. One task at a time is the
    /// least: a limit of 0 counts as 1.
    pub fn new(limit: usize) -> (r: Scheduler)
        ensures
            r.wf(),
            r@ == SchedulerView::empty(
                if limit == 0 {
                    1nat
                } else {
                    limit as nat
                },
            ),
    {
        let limit = if limit == 0 {
            1
        } else {
            limit
        };
        Scheduler {
            limit,
            next_ticket: 0,
            waiting: VecDeque::new(),
            running: HashMap::new(),
            outbox: VecDeque::new(),
            sent: false,
        }
    }

    /// How many tasks may run at a time.
    pub fn limit(&self) -> (r: usize)
        ensures
            r == self@.limit,
    {
        self.limit
    }

    /// How many tasks run.
    pub fn running(&self) -> (r: usize)
        requires
            self.wf(),
        ensures
            r == self@.running.dom().len(),
            r <= self@.limit,
    {
        self.running.len()
    }

    /// How many tasks wait.
    pub fn waiting(&self) -> (r: usize)
        ensures
            r == self@.waiting.len(),
    {
        self.waiting.len()
    }

    /// How many reports the control plane has yet to take.
    pub fn unreported(&self) -> (r: usize)
        ensures
            r == self@.outbox.len(),
    {
        self.outbox.len()
    }

    /// Whether the task with the ticket runs.
    pub fn is_running(&self, ticket: u64) -> (r: bool)
        ensures
            r == self@.is_running(ticket),
    {
        self.running.contains_key(&ticket)
    }

    /// Takes a task that was fetched. The task gets the next ticket. It is
    /// handed back under its ticket, to be started at once, if a place is
    /// free; else it waits, and nothing is to be done now. Only when every
    /// ticket has been given is the task handed back as it came.
    pub fn accept(&mut self, task: Task) -> (r: Result<Option<Job>, Task>)
        requires
            old(self).wf(),
        ensures
            final(self).wf(),
            old(self)@.next_ticket == u64::MAX ==> final(self)@ == old(self)@ && r == Err::<
                Option<Job>,
                Task,
            >(task),
            old(self)@.next_ticket < u64::MAX ==> final(self)@ == old(self)@.accept(task) && r
                == Ok::<Option<Job>, Task>(
                if old(self)@.has_slot() {
                    Some(Job { ticket: old(self)@.next_ticket, task })
                } else {
                    None
                },
            ),
    {
        if self.next_ticket == u64::MAX {
            return Err(task);
        }
        let ticket = self.next_ticket;
        self.next_ticket = ticket + 1;
        if self.running.len() < self.limit {
            let id = task.id.clone();
            self.running.insert(ticket, id);
            Ok(Some(Job { ticket, task }))
        } else {
            self.waiting.push_back(Job { ticket, task });
            Ok(None)
        }
    }

    /// Takes the end of the run with `ticket`. The task runs no more, and
    /// its report is put behind those that the control plane has yet to
    /// take: completed where the guest returned, failed with the cause in
    /// words where it did not. The task that waits longest is handed out to
    /// be started in the freed place. The ticket of a task that does not
    /// run changes nothing and gives nothing to do.
    pub fn finish(&mut self, ticket: u64, outcome: ExecutionOutcome) -> (r: Option<Job>)
        requires
            old(self).wf(),
        ensures
            final(self).wf(),
            !old(self)@.is_running(ticket) ==> final(self)@ == old(self)@ && r is None,
            old(self)@.is_running(ticket) ==> {
                let report = final(self)@.outbox.last();
                &&& final(self)@ == old(self)@.finish(ticket, report)
                &&& report.ticket == ticket
                &&& report.task_id == old(self)@.running[ticket]
                &&& reports(report.result, outcome)
                &&& r == if old(self)@.waiting.len() > 0 {
                    Some(old(self)@.waiting[0])
                } else {
                    None
                }
            },
    {
        let task_id = match self.running.remove(&ticket) {
            Some(id) => id,
            None => {
                assert(self.running@ =~= old(self).running@);
                return None;
            },
        };
        let report = Report { ticket, task_id, result: report_of(outcome) };
        self.outbox.push_back(report);
        let next = match self.waiting.pop_front() {
            Some(job) => {
                let id = job.task.id.clone();
                self.running.insert(job.ticket, id);
                assert(final(self)@.running == old(self)@.running.remove(ticket).insert(
                    job.ticket,
                    job.task.id,
                ));
                Some(job)
            },
            None => None,
        };
        proof {
            lemma_finish_wf(old(self)@, ticket, report);
        }
        next
    }

    /// The oldest report that the control plane has yet to take.
    pub fn next_report(&self) -> (r: Option<&Report>)
        ensures
            match r {
                Some(report) => self@.outbox.len() > 0 && *report == self@.outbox[0],
                None => self@.outbox.len() == 0,
            },
    {
        if self.outbox.len() > 0 {
            Some(&self.outbox[0])
        } else {
            None
        }
    }

    /// Which sending is due, and of which report. Until the book is told
    /// that a sending went through, the same sending stays due, however
    /// often it fails.
    pub fn next_upload(&self) -> (r: Option<(Upload, &Report)>)
        ensures
            match r {
                Some((upload, report)) => self@.next_upload() == Some((upload, *report)),
                None => self@.next_upload() is None,
            },
    {
        if self.outbox.len() == 0 {
            None
        } else if self.sent {
            Some((Upload::Done, &self.outbox[0]))
        } else {
            Some((Upload::Result, &self.outbox[0]))
        }
    }

    /// Takes note that the control plane took the oldest report. From now
    /// on the mark that its task is done is due, and the report itself is
    /// not sent again. Says whether there was a report to take note of.
    pub fn report_sent(&mut self) -> (r: bool)
        requires
            old(self).wf(),
        ensures
            final(self).wf(),
            final(self)@ == old(self)@.report_sent(),
            r == (old(self)@.outbox.len() > 0),
    {
        if self.outbox.len() > 0 {
            self.sent = true;
            true
        } else {
            false
        }
    }

    /// Takes note that the control plane marked the task of the oldest
    /// report done: the report leaves the book, and is handed out a last
    /// time. A mark for a report that the control plane does not have yet
    /// changes nothing and hands out nothing.
    pub fn delivered(&mut self) -> (r: Option<Report>)
        requires
            old(self).wf(),
        ensures
            final(self).wf(),
            final(self)@ == old(self)@.delivered(),
            match r {
                Some(report) => old(self)@.next_upload() == Some((Upload::Done, report)),
                None => !(old(self)@.next_upload() matches Some((Upload::Done, _))),
            },
    {
        if !self.sent {
            return None;
        }
        self.sent = false;
        let taken = self.outbox.pop_front();
        proof {
            lemma_delivered_wf(old(self)@);
        }
        taken
    }
}

/// Taking a task keeps the book in order.
pub proof fn lemma_accept_wf(s: SchedulerView, task: Task)
    requires
        s.wf(),
        s.next_ticket < u64::MAX,
    ensures
        s.accept(task).wf(),
{
}

/// The end of a run keeps the book in order.
pub proof fn lemma_finish_wf(s: SchedulerView, ticket: u64, report: Report)
    requires
        s.wf(),
        report.ticket == ticket,
    ensures
        s.finish(ticket, report).wf(),
{
    if s.is_running(ticket) {
        assert(s.running.remove(ticket).dom() == s.running.dom().remove(ticket));
    }
}

/// The taking of a report keeps the book in order.
pub proof fn lemma_report_sent_wf(s: SchedulerView)
    requires
        s.wf(),
    ensures
        s.report_sent().wf(),
{
}

/// The marking of a task as done keeps the book in order.
pub proof fn lemma_delivered_wf(s: SchedulerView)
    requires
        s.wf(),
    ensures
        s.delivered().wf(),
{
}

// ---------------------------------------------------------------------------
// The record of a scheduler's orders
// ---------------------------------------------------------------------------

/// What a scheduler is told.
pub enum Happening {
    /// A task was fetched.
    Fetched(Task),
    /// The run with the ticket ended, and this report was made of it.
    Ended(u64, Report),
    /// The control plane took the oldest report.
    Sent,
    /// The control plane marked the task of the oldest report done.
    Delivered,
}

/// The book of a scheduler together with the record of what came of its
/// orders since the book was opened: the tickets of the tasks that it had
/// started, of those whose report the control plane took, and of those that
/// the control plane marked done, each in the order in which it happened.
pub struct Ledger {
    pub book: SchedulerView,
    pub started: Seq<u64>,
    pub sent: Seq<u64>,
    pub reported: Seq<u64>,
}

/// How many of the four hold.
pub open spec fn how_many(a: bool, b: bool, c: bool, d: bool) -> nat {
    (if a {
        1nat
    } else {
        0nat
    }) + (if b {
        1nat
    } else {
        0nat
    }) + (if c {
        1nat
    } else {
        0nat
    }) + (if d {
        1nat
    } else {
        0nat
    })
}

impl Ledger {
    /// The ledger of a scheduler that was told nothing yet.
    pub open spec fn fresh(limit: nat) -> Ledger {
        Ledger {
            book: SchedulerView::empty(limit),
            started: Seq::empty(),
            sent: Seq::empty(),
            reported: Seq::empty(),
        }
    }

    /// In how many places the task with the ticket is: among those that
    /// wait, those that run, those with a report in the book, and those
    /// that were marked done.
    pub open spec fn places(self, ticket: u64) -> nat {
        how_many(
            self.book.is_waiting(ticket),
            self.book.is_running(ticket),
            self.book.is_unreported(ticket),
            self.reported.contains(ticket),
        )
    }

    /// The ledger after the scheduler was told `happening`, as `accept`,
    /// `finish`, `report_sent` and `delivered` keep the book.
    pub open spec fn step(self, happening: Happening) -> Ledger {
        match happening {
            Happening::Fetched(task) => if self.book.next_ticket == u64::MAX {
                self
            } else {
                Ledger {
                    book: self.book.accept(task),
                    started: if self.book.has_slot() {
                        self.started.push(self.book.next_ticket)
                    } else {
                        self.started
                    },
                    ..self
                }
            },
            Happening::Ended(ticket, report) => if !self.book.is_running(ticket) || report.ticket
                != ticket {
                self
            } else {
                Ledger {
                    book: self.book.finish(ticket, report),
                    started: if self.book.waiting.len() > 0 {
                        self.started.push(self.book.waiting[0].ticket)
                    } else {
                        self.started
                    },
                    ..self
                }
            },
            Happening::Sent => if self.book.outbox.len() == 0 || self.book.sent {
                self
            } else {
                Ledger {
                    book: self.book.report_sent(),
                    sent: self.sent.push(self.book.outbox[0].ticket),
                    ..self
                }
            },
            Happening::Delivered => if self.book.outbox.len() == 0 || !self.book.sent {
                self
            } else {
                Ledger {
                    book: self.book.delivered(),
                    reported: self.reported.push(self.book.outbox[0].ticket),
                    ..self
                }
            },
        }
    }

    /// The ledger after the scheduler was told the happenings, in order.
    pub open spec fn run(self, happenings: Seq<Happening>) -> Ledger
        decreases happenings.len(),
    {
        if happenings.len() == 0 {
            self
        } else {
            self.step(happenings[0]).run(happenings.drop_first())
        }
    }

    /// Whether the tasks were started in the order of their tickets, which
    /// is the order in which they were taken.
    pub open spec fn started_in_order(self) -> bool {
        forall|i: int, j: int|
            0 <= i < j < self.started.len() ==> #[trigger] self.started[i]
                < #[trigger] self.started[j]
    }

    /// The reports that the control plane took, as the book and the tasks
    /// marked done give them: those of the tasks marked done, in that
    /// order, and after them the oldest report of the book where the book
    /// holds that it was sent.
    pub open spec fn sent_by_the_book(self) -> Seq<u64> {
        if self.book.sent && self.book.outbox.len() > 0 {
            self.reported.push(self.book.outbox[0].ticket)
        } else {
            self.reported
        }
    }

    /// What holds of a ledger whatever the scheduler is told: the book is in
    /// order; the tasks were started in the order of their tickets, before
    /// any task that still waits; no report was taken twice and no task
    /// marked done twice; the reports taken are those of the tasks marked
    /// done and, where the book says so, the oldest of the book; every
    /// ticket given is of a task that is in one place and no more; the
    /// tasks that were started are those that are past waiting.
    pub open spec fn inv(self) -> bool {
        &&& self.book.wf()
        &&& self.sent == self.sent_by_the_book()
        &&& self.started_in_order()
        &&& forall|i: int|
            0 <= i < self.started.len() ==> #[trigger] self.started[i] < self.book.next_ticket
        &&& forall|i: int, j: int|
            0 <= i < self.started.len() && 0 <= j < self.book.waiting.len()
                ==> #[trigger] self.started[i] < (#[trigger] self.book.waiting[j]).ticket
        &&& self.started.no_duplicates()
        &&& self.reported.no_duplicates()
        &&& forall|t: u64| t < self.book.next_ticket ==> #[trigger] self.places(t) == 1
        &&& forall|t: u64| #[trigger] self.reported.contains(t) ==> t < self.book.next_ticket
        &&& forall|t: u64| #[trigger]
            self.started.contains(t) <==> self.book.is_running(t) || self.book.is_unreported(t)
                || self.reported.contains(t)
    }
}

/// A sequence without a value twice stays so when a value that it does not
/// hold is put at its end.
proof fn lemma_push_no_duplicates(s: Seq<u64>, t: u64)
    requires
        s.no_duplicates(),
        !s.contains(t),
    ensures
        s.push(t).no_duplicates(),
{
}

/// The tasks that wait after one more was put at the end.
proof fn lemma_waiting_push(s: SchedulerView, job: Job, t: u64)
    ensures
        (SchedulerView { waiting: s.waiting.push(job), ..s }).is_waiting(t) <==> s.is_waiting(t)
            || t == job.ticket,
{
    let next = SchedulerView { waiting: s.waiting.push(job), ..s };
    if s.is_waiting(t) {
        let i = choose|i: int| 0 <= i < s.waiting.len() && (#[trigger] s.waiting[i]).ticket == t;
        assert(next.waiting[i].ticket == t);
    }
    if t == job.ticket {
        assert(next.waiting[s.waiting.len() as int].ticket == t);
    }
}

/// The tasks that wait after the first of them has left.
proof fn lemma_waiting_drop_first(s: SchedulerView, t: u64)
    requires
        s.wf(),
        s.waiting.len() > 0,
    ensures
        (SchedulerView { waiting: s.waiting.drop_first(), ..s }).is_waiting(t) <==> s.is_waiting(t)
            && t != s.waiting[0].ticket,
{
    let next = SchedulerView { waiting: s.waiting.drop_first(), ..s };
    if s.is_waiting(t) && t != s.waiting[0].ticket {
        let i = choose|i: int| 0 <= i < s.waiting.len() && (#[trigger] s.waiting[i]).ticket == t;
        assert(next.waiting[i - 1].ticket == t);
    }
}

/// The reports to be taken after one more was put at the end.
proof fn lemma_outbox_push(s: SchedulerView, report: Report, t: u64)
    ensures
        (SchedulerView { outbox: s.outbox.push(report), ..s }).is_unreported(t)
            <==> s.is_unreported(t) || t == report.ticket,
{
    let next = SchedulerView { outbox: s.outbox.push(report), ..s };
    if s.is_unreported(t) {
        let i = choose|i: int| 0 <= i < s.outbox.len() && (#[trigger] s.outbox[i]).ticket == t;
        assert(next.outbox[i].ticket == t);
    }
    if t == report.ticket {
        assert(next.outbox[s.outbox.len() as int].ticket == t);
    }
}

/// The reports to be taken after the oldest of them was taken.
proof fn lemma_outbox_drop_first(s: SchedulerView, t: u64)
    requires
        s.wf(),
        s.outbox.len() > 0,
    ensures
        (SchedulerView { outbox: s.outbox.drop_first(), ..s }).is_unreported(t)
            <==> s.is_unreported(t) && t != s.outbox[0].ticket,
{
    let next = SchedulerView { outbox: s.outbox.drop_first(), ..s };
    if s.is_unreported(t) && t != s.outbox[0].ticket {
        let i = choose|i: int| 0 <= i < s.outbox.len() && (#[trigger] s.outbox[i]).ticket == t;
        assert(next.outbox[i - 1].ticket == t);
    }
}

/// A task that runs neither waits nor has a report and a task that waits
/// has no report, in a book that is in order.
proof fn lemma_places_apart(s: SchedulerView, t: u64)
    requires
        s.wf(),
    ensures
        !(s.is_waiting(t) && s.is_running(t)),
        !(s.is_unreported(t) && s.is_running(t)),
        !(s.is_unreported(t) && s.is_waiting(t)),
{
}

/// Whatever the scheduler is told next, what holds of every ledger holds
/// after it.
pub proof fn lemma_step_keeps_inv(ledger: Ledger, happening: Happening)
    requires
        ledger.inv(),
    ensures
        ledger.step(happening).inv(),
{
    broadcast use vstd::seq_lib::lemma_seq_contains_after_push;

    let book = ledger.book;
    let after = ledger.step(happening);
    match happening {
        Happening::Fetched(task) => {
            if book.next_ticket < u64::MAX {
                let ticket = book.next_ticket;
                let job = Job { ticket, task };
                lemma_accept_wf(book, task);
                if book.has_slot() {
                    lemma_push_no_duplicates(ledger.started, ticket);
                }
                assert forall|t: u64| t < after.book.next_ticket implies #[trigger] after.places(t)
                    == 1 by {
                    if !book.has_slot() {
                        lemma_waiting_push(book, job, t);
                    }
                    if t != ticket {
                        assert(ledger.places(t) == 1);
                    }
                }
            }
        },
        Happening::Ended(ticket, report) => {
            if book.is_running(ticket) && report.ticket == ticket {
                lemma_finish_wf(book, ticket, report);
                lemma_places_apart(book, ticket);
                if book.waiting.len() > 0 {
                    let first = book.waiting[0].ticket;
                    lemma_places_apart(book, first);
                    lemma_push_no_duplicates(ledger.started, first);
                }
                assert forall|t: u64| t < after.book.next_ticket implies #[trigger] after.places(t)
                    == 1 by {
                    lemma_outbox_push(book, report, t);
                    if book.waiting.len() > 0 {
                        lemma_waiting_drop_first(book, t);
                    }
                    lemma_places_apart(book, t);
                    assert(ledger.places(t) == 1);
                }
                assert forall|t: u64| #[trigger]
                    after.started.contains(t) <==> after.book.is_running(t)
                        || after.book.is_unreported(t) || after.reported.contains(t) by {
                    lemma_outbox_push(book, report, t);
                }
            }
        },
        Happening::Sent => {
            if book.outbox.len() > 0 && !book.sent {
                lemma_report_sent_wf(book);
                assert forall|t: u64| t < after.book.next_ticket implies #[trigger] after.places(t)
                    == 1 by {
                    assert(ledger.places(t) == 1);
                }
            }
        },
        Happening::Delivered => {
            if book.outbox.len() > 0 && book.sent {
                let ticket = book.outbox[0].ticket;
                lemma_delivered_wf(book);
                lemma_places_apart(book, ticket);
                assert(ledger.places(ticket) == 1);
                lemma_push_no_duplicates(ledger.reported, ticket);
                assert forall|t: u64| t < after.book.next_ticket implies #[trigger] after.places(t)
                    == 1 by {
                    lemma_outbox_drop_first(book, t);
                    assert(ledger.places(t) == 1);
                }
                assert forall|t: u64| #[trigger]
                    after.started.contains(t) <==> after.book.is_running(t)
                        || after.book.is_unreported(t) || after.reported.contains(t) by {
                    lemma_outbox_drop_first(book, t);
                }
            }
        },
    }
}

/// Whatever the scheduler is told, what holds of every ledger holds at the
/// end.
pub proof fn lemma_run_keeps_inv(ledger: Ledger, happenings: Seq<Happening>)
    requires
        ledger.inv(),
    ensures
        ledger.run(happenings).inv(),
    decreases happenings.len(),
{
    if happenings.len() > 0 {
        lemma_step_keeps_inv(ledger, happenings[0]);
        lemma_run_keeps_inv(ledger.step(happenings[0]), happenings.drop_first());
    }
}

/// No report is taken twice, in a ledger of which holds what holds of every
/// ledger: a report that the book holds is of no task that was marked done.
pub proof fn lemma_sent_once(ledger: Ledger)
    requires
        ledger.inv(),
    ensures
        ledger.sent.no_duplicates(),
        ledger.reported.is_prefix_of(ledger.sent),
        ledger.sent.len() <= ledger.reported.len() + 1,
        forall|t: u64| #[trigger] ledger.sent.contains(t) ==> ledger.started.contains(t),
{
    broadcast use vstd::seq_lib::lemma_seq_contains_after_push;

    if ledger.book.sent && ledger.book.outbox.len() > 0 {
        let ticket = ledger.book.outbox[0].ticket;
        assert(ledger.book.is_unreported(ticket));
        assert(ledger.places(ticket) == 1);
        lemma_push_no_duplicates(ledger.reported, ticket);
    }
}

/// Every task that a scheduler takes is reported once and no more. From
/// the opening of the book and whatever the scheduler is told, in whatever
/// order: no report is taken twice and no task marked done twice; a task
/// is marked done only after its report was taken, and the tasks are
/// marked done in the order in which their reports were taken; the tasks
/// are started in the order in which they were taken, none twice; every
/// ticket given is of a task that still waits, or still runs, or has ended
/// with its report in the book, or was marked done, and of these it is one
/// only; whose report was taken had been started; and never do more tasks
/// run than may.
pub proof fn lemma_every_task_reported_once(limit: nat, happenings: Seq<Happening>)
    requires
        limit >= 1,
    ensures
        ({
            let end = Ledger::fresh(limit).run(happenings);
            &&& end.reported.no_duplicates()
            &&& end.sent.no_duplicates()
            &&& end.reported.is_prefix_of(end.sent)
            &&& end.sent.len() <= end.reported.len() + 1
            &&& forall|t: u64| #[trigger] end.sent.contains(t) ==> end.started.contains(t)
            &&& end.started.no_duplicates()
            &&& end.started_in_order()
            &&& forall|t: u64| t < end.book.next_ticket ==> #[trigger] end.places(t) == 1
            &&& forall|t: u64| t >= end.book.next_ticket ==> #[trigger] end.places(t) == 0
            &&& forall|t: u64| #[trigger] end.reported.contains(t) ==> end.started.contains(t)
            &&& end.book.running.dom().len() <= limit
            &&& end.book.limit == limit
        }),
{
    let start = Ledger::fresh(limit);
    lemma_run_keeps_inv(start, happenings);
    lemma_limit_stays(start, happenings);
    lemma_sent_once(start.run(happenings));
}

/// The number of tasks that may run at a time is never changed.
proof fn lemma_limit_stays(ledger: Ledger, happenings: Seq<Happening>)
    ensures
        ledger.run(happenings).book.limit == ledger.book.limit,
    decreases happenings.len(),
{
    if happenings.len() > 0 {
        lemma_limit_stays(ledger.step(happenings[0]), happenings.drop_first());
    }
}

} // verus!
