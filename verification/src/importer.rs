//! Two-phase, resumable, cancellable history import as an explicit state
//! machine.
//!
//! The importer owns the job's progress and cursor. It never waits: a driver
//! asks it what to do next with [`HistoryImporter::step`], performs the fetch
//! or the pause it is told to, and reports back with the next call.

use crate::clock::{date_text, format_day, today, MAX_DAY};
use crate::error::{AppError, ErrorKind};
use crate::models::Stock;
use vstd::prelude::*;
use vstd::string::*;

verus! {

/// Length of the recent window in days.
pub const RECENT_DAYS: i32 = 30;

/// Length of the history backfill in days (three years).
pub const HISTORY_DAYS: i32 = 1095;

/// Stocks per batch unless configured otherwise.
pub const DEFAULT_BATCH_SIZE: usize = 100;

/// Days per history window unless configured otherwise.
pub const DEFAULT_DAYS_PER_BATCH: i64 = 30;

/// Where a job stands.
#[derive(Debug, Clone, Copy, PartialEq, Eq, Structural)]
pub enum ImportStage {
    Idle,
    ImportingRecent,
    ImportingHistory,
    Completed,
    Failed,
    Cancelled,
}

/// Snapshot of a job's progress.
#[derive(Debug, Clone)]
pub struct ImportProgress {
    pub total_stocks: usize,
    pub imported_stocks: usize,
    pub total_batches: usize,
    pub imported_batches: usize,
    pub current_code: String,
    pub start_date: String,
    pub end_date: String,
    pub stage: ImportStage,
    pub is_running: bool,
    pub error_count: usize,
}

/// Mathematical content of an [`ImportProgress`].
pub struct ImportProgressView {
    pub total_stocks: nat,
    pub imported_stocks: nat,
    pub total_batches: nat,
    pub imported_batches: nat,
    pub current_code: Seq<char>,
    pub start_date: Seq<char>,
    pub end_date: Seq<char>,
    pub stage: ImportStage,
    pub is_running: bool,
    pub error_count: nat,
}

impl View for ImportProgress {
    type V = ImportProgressView;

    open spec fn view(&self) -> ImportProgressView {
        ImportProgressView {
            total_stocks: self.total_stocks as nat,
            imported_stocks: self.imported_stocks as nat,
            total_batches: self.total_batches as nat,
            imported_batches: self.imported_batches as nat,
            current_code: self.current_code@,
            start_date: self.start_date@,
            end_date: self.end_date@,
            stage: self.stage,
            is_running: self.is_running,
            error_count: self.error_count as nat,
        }
    }
}

/// Which pass over the stock list the driver is in.
#[derive(Debug, Clone, Copy, PartialEq, Eq, Structural)]
pub enum ImportPhase {
    /// No job is being driven.
    Idle,
    /// The recent window.
    Recent,
    /// The history backfill, one day window at a time.
    History,
}

/// What the driver reports when it asks for the next action.
#[derive(Debug, Clone, Copy, PartialEq, Eq, Structural)]
pub enum ImportEvent {
    /// Nothing to report: the job was just started, or a pause is over.
    Resume,
    /// The last fetch delivered data.
    FetchSucceeded,
    /// The last fetch failed for its stock alone.
    FetchFailed,
    /// The last fetch failed in a way that ends the job.
    FetchAborted,
}

/// How a job ended.
#[derive(Debug, Clone, Copy, PartialEq, Eq, Structural)]
pub enum ImportOutcome {
    Completed,
    Cancelled,
    Failed,
    /// There was no job to drive.
    NotRunning,
}

/// What the driver must do next.
#[derive(Debug, Clone)]
pub enum ImportAction {
    /// Fetch one stock's data for a date window, then report the result.
    Fetch { code: String, start_date: String, end_date: String },
    /// Wait a short while to bound the request rate, then resume.
    Pause,
    /// Nothing to perform: a phase was entered, ask again at once.
    Proceed,
    /// Stop driving.
    Finish(ImportOutcome),
}

/// Mathematical content of an [`ImportAction`].
pub enum ActionView {
    Fetch { code: Seq<char>, start_date: Seq<char>, end_date: Seq<char> },
    Pause,
    Proceed,
    Finish(ImportOutcome),
}

impl View for ImportAction {
    type V = ActionView;

    open spec fn view(&self) -> ActionView {
        match self {
            ImportAction::Fetch { code, start_date, end_date } => ActionView::Fetch {
                code: code@,
                start_date: start_date@,
                end_date: end_date@,
            },
            ImportAction::Pause => ActionView::Pause,
            ImportAction::Proceed => ActionView::Proceed,
            ImportAction::Finish(o) => ActionView::Finish(*o),
        }
    }
}

impl ImportOutcome {
    /// The result a caller of the whole job sees: success only on completion,
    /// a configuration error on cancellation or when nothing was running, a
    /// network error on failure.
    pub fn into_result(self) -> (r: Result<(), AppError>)
        ensures
            r is Ok <==> self == ImportOutcome::Completed,
            self == ImportOutcome::Failed ==> r is Err && r->Err_0.spec_kind()
                == ErrorKind::Network,
            self == ImportOutcome::Cancelled || self == ImportOutcome::NotRunning ==> r is Err
                && r->Err_0.spec_kind() == ErrorKind::Config,
    {
        match self {
            ImportOutcome::Completed => Ok(()),
            ImportOutcome::Cancelled => Err(AppError::Config(String::from_str("import cancelled"))),
            ImportOutcome::Failed => Err(
                AppError::Network(String::from_str("import aborted by an upstream failure")),
            ),
            ImportOutcome::NotRunning => Err(
                AppError::Config(String::from_str("no import is in progress")),
            ),
        }
    }
}

/// The importer as a mathematical value: progress, settings and cursor.
pub struct ImporterModel {
    pub progress: ImportProgressView,
    pub is_cancelled: bool,
    pub batch_size: nat,
    pub days_per_batch: int,
    /// Codes of the stocks of the current job, in the order supplied.
    pub codes: Seq<Seq<char>>,
    pub phase: ImportPhase,
    /// Day number on which the job was started.
    pub today: int,
    /// Index of the next stock to fetch in the current pass.
    pub next_stock: nat,
    /// Whether a batch is open, that is, a fetch is outstanding.
    pub in_batch: bool,
    /// One past the last stock of the open batch.
    pub batch_end: nat,
    /// The date window being fetched.
    pub window_start: int,
    pub window_end: int,
    /// Batches opened so far in the current phase.
    pub batch_idx: nat,
    /// Batches opened so far in the current pass over the stocks.
    pub pass_batches: nat,
    /// Day windows of the history phase that are finished.
    pub windows_done: nat,
}

/// The codes of a list of stocks, in order.
pub open spec fn stock_codes(stocks: Seq<Stock>) -> Seq<Seq<char>> {
    Seq::new(stocks.len(), |i: int| stocks[i].code@)
}

/// Quotient of `a` by `b`, rounded up.
pub open spec fn ceil_div(a: int, b: int) -> int
    recommends
        b > 0,
{
    if a % b == 0 {
        a / b
    } else {
        a / b + 1
    }
}

/// A count clamped to what a machine word holds.
pub open spec fn clamp(x: int) -> nat {
    if x > usize::MAX {
        usize::MAX as nat
    } else if x < 0 {
        0
    } else {
        x as nat
    }
}

impl ImporterModel {
    /// A fresh importer: idle, default settings, nothing counted.
    pub open spec fn initial() -> ImporterModel {
        ImporterModel {
            progress: ImportProgressView {
                total_stocks: 0,
                imported_stocks: 0,
                total_batches: 0,
                imported_batches: 0,
                current_code: Seq::empty(),
                start_date: Seq::empty(),
                end_date: Seq::empty(),
                stage: ImportStage::Idle,
                is_running: false,
                error_count: 0,
            },
            is_cancelled: false,
            batch_size: DEFAULT_BATCH_SIZE as nat,
            days_per_batch: DEFAULT_DAYS_PER_BATCH as int,
            codes: Seq::empty(),
            phase: ImportPhase::Idle,
            today: 0,
            next_stock: 0,
            in_batch: false,
            batch_end: 0,
            window_start: 0,
            window_end: 0,
            batch_idx: 0,
            pass_batches: 0,
            windows_done: 0,
        }
    }

    /// First day of the history backfill.
    pub open spec fn history_start(self) -> int {
        self.today - RECENT_DAYS - HISTORY_DAYS
    }

    /// What always holds of an importer.
    pub open spec fn wf(self) -> bool {
        &&& self.batch_size >= 1
        &&& self.days_per_batch >= 1
        &&& self.progress.error_count <= usize::MAX
        &&& self.progress.imported_stocks <= self.progress.total_stocks
        &&& (self.phase == ImportPhase::Idle ==> !self.progress.is_running)
        &&& (self.phase != ImportPhase::Idle ==> {
            &&& RECENT_DAYS + HISTORY_DAYS < self.today <= MAX_DAY
            &&& 1 <= self.window_start <= self.today
            &&& 1 <= self.window_end <= self.today
            &&& self.codes.len() <= usize::MAX
            &&& self.progress.total_stocks == self.codes.len()
            &&& self.next_stock <= self.codes.len()
            &&& (self.in_batch ==> self.next_stock < self.batch_end <= self.codes.len())
            &&& (self.is_cancelled ==> self.progress.stage == ImportStage::Cancelled
                && !self.progress.is_running)
            &&& (!self.is_cancelled ==> self.progress.is_running)
        })
        &&& (self.phase == ImportPhase::Recent && !self.is_cancelled ==> self.progress.stage
            == ImportStage::ImportingRecent)
        &&& (self.phase == ImportPhase::Recent && !self.in_batch ==> self.progress.imported_stocks
            == self.next_stock)
        &&& (self.phase == ImportPhase::Recent && self.in_batch ==> self.progress.imported_stocks
            <= self.next_stock)
        &&& (self.phase == ImportPhase::History ==> self.progress.imported_stocks
            == self.progress.total_stocks)
        &&& (self.phase == ImportPhase::History && !self.is_cancelled ==> self.progress.stage
            == ImportStage::ImportingHistory)
        &&& (self.phase == ImportPhase::History ==> self.history_start() <= self.window_start
            <= self.window_end && self.history_start() < self.window_end)
        &&& (self.phase != ImportPhase::Idle ==> self.counted())
        &&& (self.progress.is_running <==> self.progress.stage == ImportStage::ImportingRecent
            || self.progress.stage == ImportStage::ImportingHistory)
    }

    /// Stock batches in one pass over the stocks.
    pub open spec fn stock_batches(self) -> int {
        ceil_div(self.codes.len() as int, self.batch_size as int)
    }

    /// Day windows in the history phase.
    pub open spec fn day_windows(self) -> int {
        ceil_div(HISTORY_DAYS as int, self.days_per_batch)
    }

    /// The bookkeeping of a job under way. The batches of a pass cut the
    /// stock list at multiples of the batch size; the windows of the history
    /// phase end at multiples of the window size before its last day; and the
    /// batch counts shown are those of the batches opened and closed.
    pub open spec fn counted(self) -> bool {
        &&& (self.in_batch ==> {
            &&& self.pass_batches >= 1
            &&& (self.pass_batches - 1) * self.batch_size <= self.next_stock
            &&& (self.pass_batches - 1) * self.batch_size < self.codes.len()
            &&& self.batch_end == if self.pass_batches * self.batch_size < self.codes.len() {
                self.pass_batches * self.batch_size
            } else {
                self.codes.len()
            }
        })
        &&& (!self.in_batch ==> {
            &&& self.next_stock == if self.pass_batches * self.batch_size < self.codes.len() {
                self.pass_batches * self.batch_size
            } else {
                self.codes.len()
            }
            &&& (self.pass_batches >= 1 ==> (self.pass_batches - 1) * self.batch_size
                < self.codes.len())
            &&& self.progress.imported_batches == clamp(self.batch_idx as int)
        })
        &&& (self.phase == ImportPhase::Recent ==> {
            &&& self.batch_idx == self.pass_batches
            &&& self.progress.total_batches == clamp(self.stock_batches())
        })
        &&& (self.phase == ImportPhase::History ==> {
            &&& self.today - RECENT_DAYS - self.window_end == self.days_per_batch
                * self.windows_done
            &&& self.batch_idx == self.stock_batches() * self.windows_done + self.pass_batches
            &&& self.progress.total_batches == clamp(self.stock_batches() * self.day_windows())
            &&& (self.in_batch || self.next_stock > 0 ==> self.window_start
                == self.window_first_day())
            &&& (!self.in_batch && self.next_stock == 0 ==> self.windows_done == 0)
        })
    }

    /// Days of history that the job has yet to get through; the recent
    /// phase counts as one day more than the whole history.
    pub open spec fn days_left(self) -> nat {
        match self.phase {
            ImportPhase::Idle => 0,
            ImportPhase::Recent => (HISTORY_DAYS + 1) as nat,
            ImportPhase::History => if self.window_end > self.history_start() {
                (self.window_end - self.history_start()) as nat
            } else {
                0
            },
        }
    }

    /// Work left in the current pass over the stocks: two units for each
    /// stock still to fetch, and one while no batch is open.
    pub open spec fn pass_left(self) -> nat {
        if self.next_stock <= self.codes.len() {
            (2 * (self.codes.len() - self.next_stock) + if self.in_batch {
                0int
            } else {
                1int
            }) as nat
        } else {
            0
        }
    }

    /// Whether `self` has less left to do than `other`: fewer days, or as
    /// many days and less of the pass.
    pub open spec fn less_left_than(self, other: ImporterModel) -> bool {
        self.days_left() < other.days_left() || (self.days_left() == other.days_left()
            && self.pass_left() < other.pass_left())
    }

    /// The state after a driver has taken up to `steps` steps from here,
    /// starting with `event` and answering each action in turn; `fetched`
    /// says of the fetch asked for at each step whether it delivers.
    pub open spec fn run(
        self,
        event: ImportEvent,
        fetched: spec_fn(nat) -> bool,
        at: nat,
        steps: nat,
    ) -> ImporterModel
        decreases steps,
    {
        if steps == 0 {
            self
        } else {
            let (next, action) = self.step(event);
            if action is Finish {
                next
            } else {
                next.run(reply(action, fetched(at)), fetched, at + 1, (steps - 1) as nat)
            }
        }
    }

    /// Whether `event` is what a driver reports in this state: the result of
    /// the outstanding fetch while a batch is open, and nothing otherwise.
    pub open spec fn expects(self, event: ImportEvent) -> bool {
        if self.in_batch {
            event == ImportEvent::FetchSucceeded || event == ImportEvent::FetchFailed
        } else {
            event == ImportEvent::Resume
        }
    }

    /// The state right after a job over `codes` is accepted on day `today`:
    /// the recent window is set up and nothing is imported yet.
    pub open spec fn begin(self, codes: Seq<Seq<char>>, today: int) -> ImporterModel {
        ImporterModel {
            progress: ImportProgressView {
                total_stocks: codes.len(),
                imported_stocks: 0,
                total_batches: clamp(ceil_div(codes.len() as int, self.batch_size as int)),
                imported_batches: 0,
                start_date: date_text(today - RECENT_DAYS),
                end_date: date_text(today),
                stage: ImportStage::ImportingRecent,
                is_running: true,
                ..self.progress
            },
            is_cancelled: false,
            codes: codes,
            phase: ImportPhase::Recent,
            today: today,
            next_stock: 0,
            in_batch: false,
            batch_end: 0,
            window_start: today - RECENT_DAYS,
            window_end: today,
            batch_idx: 0,
            pass_batches: 0,
            windows_done: 0,
            ..self
        }
    }

    /// The state after the settings were changed: a job that was being
    /// driven is let go of as cancelled, since its batches no longer fit;
    /// the counts it had reached stay on show.
    pub open spec fn released(self) -> ImporterModel {
        if self.phase == ImportPhase::Idle {
            self
        } else {
            self.end(ImportStage::Cancelled)
        }
    }

    /// The state after a cancel request.
    pub open spec fn cancel(self) -> ImporterModel {
        ImporterModel {
            progress: ImportProgressView {
                stage: ImportStage::Cancelled,
                is_running: false,
                ..self.progress
            },
            is_cancelled: true,
            ..self
        }
    }

    /// The job ends in `stage`: the running flag is cleared and the cursor
    /// is released.
    pub open spec fn end(self, stage: ImportStage) -> ImporterModel {
        ImporterModel {
            progress: ImportProgressView { stage: stage, is_running: false, ..self.progress },
            phase: ImportPhase::Idle,
            in_batch: false,
            ..self
        }
    }

    /// Takes note of a fetch result: the cursor moves past the stock, and a
    /// failure is counted.
    pub open spec fn absorb(self, event: ImportEvent) -> ImporterModel {
        if self.in_batch && event == ImportEvent::FetchFailed {
            ImporterModel {
                progress: ImportProgressView {
                    error_count: clamp(self.progress.error_count + 1 as int),
                    ..self.progress
                },
                next_stock: self.next_stock + 1,
                ..self
            }
        } else if self.in_batch && event == ImportEvent::FetchSucceeded {
            ImporterModel { next_stock: self.next_stock + 1, ..self }
        } else {
            self
        }
    }

    /// Opens the batch that starts at the cursor.
    pub open spec fn open_batch(self) -> ImporterModel {
        ImporterModel {
            in_batch: true,
            batch_end: if self.next_stock + self.batch_size < self.codes.len() {
                self.next_stock + self.batch_size
            } else {
                self.codes.len()
            },
            batch_idx: self.batch_idx + 1,
            pass_batches: self.pass_batches + 1,
            ..self
        }
    }

    /// Closes the open batch and publishes the counts. In the recent phase
    /// the imported stocks are those up to the end of the batch.
    pub open spec fn close_batch(self) -> ImporterModel {
        ImporterModel {
            progress: ImportProgressView {
                imported_batches: clamp(self.batch_idx as int),
                imported_stocks: if self.phase == ImportPhase::Recent {
                    self.batch_end
                } else {
                    self.progress.imported_stocks
                },
                ..self.progress
            },
            in_batch: false,
            ..self
        }
    }

    /// Asks for the stock at the cursor over the current window.
    pub open spec fn fetch(self) -> (ImporterModel, ActionView) {
        (
            ImporterModel {
                progress: ImportProgressView {
                    current_code: self.codes[self.next_stock as int],
                    ..self.progress
                },
                ..self
            },
            ActionView::Fetch {
                code: self.codes[self.next_stock as int],
                start_date: date_text(self.window_start),
                end_date: date_text(self.window_end),
            },
        )
    }

    /// Moves from the recent phase to the history phase: the date range is
    /// the three years before the recent window, the batch counts restart,
    /// and the total is stock batches times day windows.
    pub open spec fn to_history(self) -> ImporterModel {
        ImporterModel {
            progress: ImportProgressView {
                start_date: date_text(self.history_start()),
                end_date: date_text(self.today - RECENT_DAYS),
                imported_batches: 0,
                total_batches: clamp(
                    ceil_div(self.codes.len() as int, self.batch_size as int) * ceil_div(
                        HISTORY_DAYS as int,
                        self.days_per_batch,
                    ),
                ),
                stage: if self.is_cancelled {
                    self.progress.stage
                } else {
                    ImportStage::ImportingHistory
                },
                ..self.progress
            },
            phase: ImportPhase::History,
            next_stock: 0,
            window_end: self.today - RECENT_DAYS,
            window_start: self.history_start(),
            batch_idx: 0,
            pass_batches: 0,
            windows_done: 0,
            ..self
        }
    }

    /// Moves to the day window that ends the day before the current one
    /// starts, so that no day is fetched twice and none is passed over.
    pub open spec fn next_window(self) -> ImporterModel {
        ImporterModel {
            window_end: self.window_start - 1,
            next_stock: 0,
            pass_batches: 0,
            windows_done: self.windows_done + 1,
            ..self
        }
    }

    /// First day of the window that ends at `window_end`: the window holds
    /// `days_per_batch` days, but for the oldest one, which reaches back to
    /// the first day of the history and may hold one day more or fewer days.
    pub open spec fn window_first_day(self) -> int {
        if self.window_end - self.days_per_batch <= self.history_start() {
            self.history_start()
        } else {
            self.window_end - self.days_per_batch + 1
        }
    }

    /// Enters the day window that ends at `window_end`, in the history
    /// phase. A cancelled job stops; once the history is used up the job is
    /// complete, as it is at once for an empty stock list. Otherwise the
    /// window's first batch is opened.
    pub open spec fn enter_window(self) -> (ImporterModel, ActionView) {
        if self.is_cancelled {
            (self.end(ImportStage::Cancelled), ActionView::Finish(ImportOutcome::Cancelled))
        } else if self.window_end < self.history_start() || self.codes.len() == 0 {
            (self.end(ImportStage::Completed), ActionView::Finish(ImportOutcome::Completed))
        } else {
            ImporterModel { window_start: self.window_first_day(), ..self }.open_batch().fetch()
        }
    }

    /// Chooses the next action from the state alone.
    ///
    /// Inside a batch the next stock is fetched, and the batch is closed
    /// with a pause after its last one. Between batches, the history phase
    /// enters its first window; a pass that has stocks left opens the next
    /// batch unless a cancel was requested; a finished recent pass enters
    /// the history phase and returns at once, so that the phase shows; a
    /// finished history pass moves on to the next window.
    pub open spec fn decide(self) -> (ImporterModel, ActionView) {
        if self.in_batch {
            if self.next_stock >= self.batch_end {
                (self.close_batch(), ActionView::Pause)
            } else {
                self.fetch()
            }
        } else if self.phase == ImportPhase::History && self.next_stock == 0 {
            self.enter_window()
        } else if self.next_stock < self.codes.len() {
            if self.is_cancelled {
                (self.end(ImportStage::Cancelled), ActionView::Finish(ImportOutcome::Cancelled))
            } else {
                self.open_batch().fetch()
            }
        } else if self.phase == ImportPhase::Recent {
            if self.is_cancelled {
                (self.end(ImportStage::Cancelled), ActionView::Finish(ImportOutcome::Cancelled))
            } else {
                (self.to_history(), ActionView::Proceed)
            }
        } else {
            self.next_window().enter_window()
        }
    }

    /// One step of the job: the state after `event`, and what to do next.
    ///
    /// Without a job there is nothing to do. A fetch that aborts ends the
    /// job as failed, or as cancelled if a cancel was requested meanwhile.
    /// Otherwise the fetch result is noted and the next action chosen.
    pub open spec fn step(self, event: ImportEvent) -> (ImporterModel, ActionView) {
        if self.phase == ImportPhase::Idle {
            (self, ActionView::Finish(ImportOutcome::NotRunning))
        } else if self.in_batch && event == ImportEvent::FetchAborted {
            if self.is_cancelled {
                (self.end(ImportStage::Cancelled), ActionView::Finish(ImportOutcome::Cancelled))
            } else {
                (self.end(ImportStage::Failed), ActionView::Finish(ImportOutcome::Failed))
            }
        } else {
            self.absorb(event).decide()
        }
    }
}


/// The importer: progress, settings and the cursor of the job being driven.
pub struct HistoryImporter {
    progress: ImportProgress,
    is_cancelled: bool,
    batch_size: usize,
    days_per_batch: i64,
    stocks: Vec<Stock>,
    phase: ImportPhase,
    today: i32,
    next_stock: usize,
    in_batch: bool,
    batch_end: usize,
    window_start: i32,
    window_end: i32,
    batch_idx: usize,
    batches: Ghost<nat>,
    pass_batches: Ghost<nat>,
    windows_done: Ghost<nat>,
}

impl View for HistoryImporter {
    type V = ImporterModel;

    closed spec fn view(&self) -> ImporterModel {
        ImporterModel {
            progress: self.progress@,
            is_cancelled: self.is_cancelled,
            batch_size: self.batch_size as nat,
            days_per_batch: self.days_per_batch as int,
            codes: stock_codes(self.stocks@),
            phase: self.phase,
            today: self.today as int,
            next_stock: self.next_stock as nat,
            in_batch: self.in_batch,
            batch_end: self.batch_end as nat,
            window_start: self.window_start as int,
            window_end: self.window_end as int,
            batch_idx: self.batches@,
            pass_batches: self.pass_batches@,
            windows_done: self.windows_done@,
        }
    }
}

/// Number of batches of `size` that `count` items fill, the last one
/// possibly short.
fn batches_of(count: usize, size: usize) -> (n: usize)
    requires
        size >= 1,
    ensures
        n == ceil_div(count as int, size as int),
{
    let q: usize = count / size;
    if count % size == 0 {
        q
    } else {
        assert(q < count) by (nonlinear_arith)
            requires
                q == count / size,
                count % size != 0,
                size >= 1,
        {
            if size == 1 {
                assert(count % 1 == 0);
            }
            assert(count >= 1);
            assert(size >= 2);
        }
        q + 1
    }
}

impl HistoryImporter {
    /// The validity of the importer's state.
    pub closed spec fn wf(&self) -> bool {
        self@.wf() && self.tallied()
    }

    /// The batch counter held is the number of batches opened, as far as a
    /// machine word can hold it.
    pub closed spec fn tallied(&self) -> bool {
        self.batch_idx as nat == clamp(self.batches@ as int)
    }

    /// A valid importer has a valid model.
    pub proof fn lemma_wf_model(&self)
        requires
            self.wf(),
        ensures
            self@.wf(),
    {
    }

    /// A fresh importer with default settings.
    pub fn new() -> (importer: Self)
        ensures
            importer@ == ImporterModel::initial(),
            importer.wf(),
    {
        let importer = HistoryImporter {
            progress: ImportProgress {
                total_stocks: 0,
                imported_stocks: 0,
                total_batches: 0,
                imported_batches: 0,
                current_code: String::new(),
                start_date: String::new(),
                end_date: String::new(),
                stage: ImportStage::Idle,
                is_running: false,
                error_count: 0,
            },
            is_cancelled: false,
            batch_size: DEFAULT_BATCH_SIZE,
            days_per_batch: DEFAULT_DAYS_PER_BATCH,
            stocks: Vec::new(),
            phase: ImportPhase::Idle,
            today: 0,
            next_stock: 0,
            in_batch: false,
            batch_end: 0,
            window_start: 0,
            window_end: 0,
            batch_idx: 0,
            batches: Ghost(0),
            pass_batches: Ghost(0),
            windows_done: Ghost(0),
        };
        assert(importer@.codes =~= Seq::<Seq<char>>::empty());
        importer
    }

    /// Sets the number of stocks per batch, for the jobs started from now
    /// on.
    pub fn with_batch_size(self, batch_size: usize) -> (importer: Self)
        requires
            self.wf(),
            batch_size >= 1,
        ensures
            importer@ == (ImporterModel { batch_size: batch_size as nat, ..self@.released() }),
            importer.wf(),
    {
        let mut importer = self;
        importer.batch_size = batch_size;
        if importer.phase != ImportPhase::Idle {
            importer.end(ImportStage::Cancelled);
        }
        importer
    }

    /// Sets the number of days per history window, for the jobs started
    /// from now on.
    pub fn with_days_per_batch(self, days: i64) -> (importer: Self)
        requires
            self.wf(),
            days >= 1,
        ensures
            importer@ == (ImporterModel { days_per_batch: days as int, ..self@.released() }),
            importer.wf(),
    {
        let mut importer = self;
        importer.days_per_batch = days;
        if importer.phase != ImportPhase::Idle {
            importer.end(ImportStage::Cancelled);
        }
        importer
    }

    /// A snapshot of the progress.
    pub fn get_progress(&self) -> (snapshot: ImportProgress)
        ensures
            snapshot@ == self@.progress,
    {
        ImportProgress {
            total_stocks: self.progress.total_stocks,
            imported_stocks: self.progress.imported_stocks,
            total_batches: self.progress.total_batches,
            imported_batches: self.progress.imported_batches,
            current_code: self.progress.current_code.clone(),
            start_date: self.progress.start_date.clone(),
            end_date: self.progress.end_date.clone(),
            stage: self.progress.stage,
            is_running: self.progress.is_running,
            error_count: self.progress.error_count,
        }
    }

    /// Requests cancellation: the flag is raised, the stage becomes
    /// `Cancelled` and the running flag is cleared. The driver learns of it
    /// at the next batch boundary.
    pub fn cancel(&mut self)
        requires
            old(self).wf(),
        ensures
            final(self)@ == old(self)@.cancel(),
            final(self).wf(),
    {
        self.is_cancelled = true;
        self.progress.stage = ImportStage::Cancelled;
        self.progress.is_running = false;
    }

    /// Accepts a job over `stocks` on day `today`, unless one is marked
    /// running: then the call is a configuration error and nothing changes.
    pub fn start_import_on(&mut self, stocks: Vec<Stock>, today: i32) -> (r: Result<(), AppError>)
        requires
            old(self).wf(),
            RECENT_DAYS + HISTORY_DAYS < today <= MAX_DAY,
        ensures
            final(self).wf(),
            old(self)@.progress.is_running ==> r is Err && r->Err_0.spec_kind()
                == ErrorKind::Config && final(self)@ == old(self)@,
            !old(self)@.progress.is_running ==> r is Ok && final(self)@ == old(self)@.begin(
                stock_codes(stocks@),
                today as int,
            ),
    {
        if self.progress.is_running {
            return Err(AppError::Config(String::from_str("an import is already running")));
        }
        self.progress.is_running = true;
        self.progress.stage = ImportStage::ImportingRecent;
        self.progress.total_stocks = stocks.len();
        self.progress.imported_stocks = 0;
        self.progress.imported_batches = 0;
        self.progress.total_batches = batches_of(stocks.len(), self.batch_size);
        self.progress.start_date = format_day(today - RECENT_DAYS);
        self.progress.end_date = format_day(today);
        self.is_cancelled = false;
        self.stocks = stocks;
        self.phase = ImportPhase::Recent;
        self.today = today;
        self.next_stock = 0;
        self.in_batch = false;
        self.batch_end = 0;
        self.window_start = today - RECENT_DAYS;
        self.window_end = today;
        self.batch_idx = 0;
        self.batches = Ghost(0);
        self.pass_batches = Ghost(0);
        self.windows_done = Ghost(0);
        Ok(())
    }

    /// Accepts a job over `stocks` on the day the clock shows, unless one is
    /// marked running.
    pub fn start_import(&mut self, stocks: Vec<Stock>) -> (r: Result<(), AppError>)
        requires
            old(self).wf(),
        ensures
            final(self).wf(),
            old(self)@.progress.is_running ==> r is Err && r->Err_0.spec_kind()
                == ErrorKind::Config && final(self)@ == old(self)@,
            !old(self)@.progress.is_running ==> r is Ok && exists|day: int|
                RECENT_DAYS + HISTORY_DAYS < day <= MAX_DAY && final(self)@
                    == #[trigger] old(self)@.begin(stock_codes(stocks@), day),
    {
        let day: i32 = today();
        let ghost before = self@;
        let ghost codes = stock_codes(stocks@);
        let r = self.start_import_on(stocks, day);
        proof {
            if !before.progress.is_running {
                assert(self@ == before.begin(codes, day as int));
            }
        }
        r
    }

    fn end(&mut self, stage: ImportStage)
        ensures
            final(self)@ == old(self)@.end(stage),
            final(self).tallied() == old(self).tallied(),
    {
        self.progress.stage = stage;
        self.progress.is_running = false;
        self.phase = ImportPhase::Idle;
        self.in_batch = false;
    }

    fn absorb(&mut self, event: ImportEvent)
        requires
            old(self).wf(),
            old(self)@.phase != ImportPhase::Idle,
        ensures
            final(self)@ == old(self)@.absorb(event),
            final(self).tallied() == old(self).tallied(),
    {
        if self.in_batch {
            match event {
                ImportEvent::FetchFailed => {
                    if self.progress.error_count < usize::MAX {
                        self.progress.error_count = self.progress.error_count + 1;
                    }
                    self.next_stock = self.next_stock + 1;
                },
                ImportEvent::FetchSucceeded => {
                    self.next_stock = self.next_stock + 1;
                },
                _ => {},
            }
        }
    }

    fn open_batch(&mut self)
        requires
            old(self)@.batch_size >= 1,
            old(self)@.next_stock <= old(self)@.codes.len(),
            old(self).tallied(),
        ensures
            final(self)@ == old(self)@.open_batch(),
            final(self).tallied(),
    {
        let n: usize = self.stocks.len();
        self.in_batch = true;
        self.batch_end = if n - self.next_stock > self.batch_size {
            self.next_stock + self.batch_size
        } else {
            n
        };
        if self.batch_idx < usize::MAX {
            self.batch_idx = self.batch_idx + 1;
        }
        self.batches = Ghost(self.batches@ + 1);
        self.pass_batches = Ghost(self.pass_batches@ + 1);
    }

    fn close_batch(&mut self)
        requires
            old(self).tallied(),
        ensures
            final(self)@ == old(self)@.close_batch(),
            final(self).tallied(),
    {
        self.progress.imported_batches = self.batch_idx;
        if self.phase == ImportPhase::Recent {
            self.progress.imported_stocks = self.batch_end;
        }
        self.in_batch = false;
    }

    fn fetch(&mut self) -> (action: ImportAction)
        requires
            old(self)@.next_stock < old(self)@.codes.len(),
            1 <= old(self)@.window_start <= MAX_DAY,
            1 <= old(self)@.window_end <= MAX_DAY,
        ensures
            (final(self)@, action@) == old(self)@.fetch(),
            final(self).tallied() == old(self).tallied(),
    {
        let code = self.stocks[self.next_stock].code.clone();
        self.progress.current_code = code.clone();
        ImportAction::Fetch {
            code: code,
            start_date: format_day(self.window_start),
            end_date: format_day(self.window_end),
        }
    }

    fn to_history(&mut self)
        requires
            old(self)@.batch_size >= 1,
            old(self)@.days_per_batch >= 1,
            RECENT_DAYS + HISTORY_DAYS < old(self)@.today <= MAX_DAY,
        ensures
            final(self)@ == old(self)@.to_history(),
            final(self).tallied(),
    {
        let first: i32 = self.today - RECENT_DAYS - HISTORY_DAYS;
        let last: i32 = self.today - RECENT_DAYS;
        let stock_batches: usize = batches_of(self.stocks.len(), self.batch_size);
        let days: i64 = HISTORY_DAYS as i64;
        let q: i64 = days / self.days_per_batch;
        let date_batches: i64 = if days % self.days_per_batch == 0 {
            q
        } else {
            q + 1
        };
        assert(0 <= q <= 1095) by (nonlinear_arith)
            requires
                q == 1095int / (self.days_per_batch as int),
                self.days_per_batch >= 1,
        ;
        let total: usize = match stock_batches.checked_mul(date_batches as usize) {
            Some(t) => t,
            None => usize::MAX,
        };
        self.progress.start_date = format_day(first);
        self.progress.end_date = format_day(last);
        self.progress.imported_batches = 0;
        self.progress.total_batches = total;
        if !self.is_cancelled {
            self.progress.stage = ImportStage::ImportingHistory;
        }
        self.phase = ImportPhase::History;
        self.next_stock = 0;
        self.window_end = last;
        self.window_start = first;
        self.batch_idx = 0;
        self.batches = Ghost(0);
        self.pass_batches = Ghost(0);
        self.windows_done = Ghost(0);
    }

    fn enter_window(&mut self) -> (action: ImportAction)
        requires
            old(self)@.batch_size >= 1,
            old(self)@.days_per_batch >= 1,
            old(self)@.next_stock == 0,
            RECENT_DAYS + HISTORY_DAYS < old(self)@.today <= MAX_DAY,
            old(self)@.window_end <= old(self)@.today,
            old(self).tallied(),
        ensures
            (final(self)@, action@) == old(self)@.enter_window(),
            final(self).tallied(),
    {
        let first: i32 = self.today - RECENT_DAYS - HISTORY_DAYS;
        if self.is_cancelled {
            self.end(ImportStage::Cancelled);
            return ImportAction::Finish(ImportOutcome::Cancelled);
        }
        if self.window_end < first || self.stocks.len() == 0 {
            self.end(ImportStage::Completed);
            return ImportAction::Finish(ImportOutcome::Completed);
        }
        let reach: i64 = self.window_end as i64 - self.days_per_batch;
        self.window_start = if reach <= first as i64 {
            first
        } else {
            (reach + 1) as i32
        };
        self.open_batch();
        self.fetch()
    }

    fn decide(&mut self) -> (action: ImportAction)
        requires
            old(self)@.batch_size >= 1,
            old(self)@.days_per_batch >= 1,
            old(self)@.phase != ImportPhase::Idle,
            old(self)@.progress.error_count <= usize::MAX,
            old(self)@.progress.imported_stocks <= old(self)@.progress.total_stocks,
            RECENT_DAYS + HISTORY_DAYS < old(self)@.today <= MAX_DAY,
            1 <= old(self)@.window_start <= old(self)@.today,
            1 <= old(self)@.window_end <= old(self)@.today,
            old(self)@.next_stock <= old(self)@.codes.len(),
            old(self)@.in_batch ==> old(self)@.batch_end <= old(self)@.codes.len(),
            old(self).tallied(),
        ensures
            (final(self)@, action@) == old(self)@.decide(),
            final(self).tallied(),
    {
        if self.in_batch {
            if self.next_stock >= self.batch_end {
                self.close_batch();
                ImportAction::Pause
            } else {
                self.fetch()
            }
        } else if self.phase == ImportPhase::History && self.next_stock == 0 {
            self.enter_window()
        } else if self.next_stock < self.stocks.len() {
            if self.is_cancelled {
                self.end(ImportStage::Cancelled);
                ImportAction::Finish(ImportOutcome::Cancelled)
            } else {
                self.open_batch();
                self.fetch()
            }
        } else if self.phase == ImportPhase::Recent {
            if self.is_cancelled {
                self.end(ImportStage::Cancelled);
                ImportAction::Finish(ImportOutcome::Cancelled)
            } else {
                self.to_history();
                ImportAction::Proceed
            }
        } else {
            self.window_end = self.window_start - 1;
            self.next_stock = 0;
            self.pass_batches = Ghost(0);
            self.windows_done = Ghost(self.windows_done@ + 1);
            self.enter_window()
        }
    }

    /// Drives the job one step: takes note of `event` and says what to do
    /// next. The new state and the action are exactly those of
    /// [`ImporterModel::step`]. A job that completes has imported every
    /// stock and every batch.
    pub fn step(&mut self, event: ImportEvent) -> (action: ImportAction)
        requires
            old(self).wf(),
        ensures
            (final(self)@, action@) == old(self)@.step(event),
            final(self).wf(),
            action@ == ActionView::Finish(ImportOutcome::Completed) ==> {
                &&& final(self)@.progress.stage == ImportStage::Completed
                &&& !final(self)@.progress.is_running
                &&& final(self)@.progress.imported_stocks == final(self)@.progress.total_stocks
                &&& final(self)@.progress.imported_batches
                    == final(self)@.progress.total_batches
            },
    {
        proof {
            law_step_keeps_wf(self@, event);
            if self@.phase != ImportPhase::Idle {
                law_finish_is_terminal(self@, event);
            }
        }
        let ghost before = self@;
        if self.phase == ImportPhase::Idle {
            return ImportAction::Finish(ImportOutcome::NotRunning);
        }
        if self.in_batch && event == ImportEvent::FetchAborted {
            if self.is_cancelled {
                self.end(ImportStage::Cancelled);
                return ImportAction::Finish(ImportOutcome::Cancelled);
            } else {
                self.end(ImportStage::Failed);
                return ImportAction::Finish(ImportOutcome::Failed);
            }
        }
        self.absorb(event);
        self.decide()
    }
}

/// The edges of the stage machine that a step may take: none at all, from
/// the recent phase to the history phase, from the history phase to
/// completion, or from either phase to failure or cancellation.
pub open spec fn stage_edge(from: ImportStage, to: ImportStage) -> bool {
    ||| from == to
    ||| (from == ImportStage::ImportingRecent && to == ImportStage::ImportingHistory)
    ||| (from == ImportStage::ImportingRecent && to == ImportStage::Failed)
    ||| (from == ImportStage::ImportingRecent && to == ImportStage::Cancelled)
    ||| (from == ImportStage::ImportingHistory && to == ImportStage::Completed)
    ||| (from == ImportStage::ImportingHistory && to == ImportStage::Failed)
    ||| (from == ImportStage::ImportingHistory && to == ImportStage::Cancelled)
}

/// If `count` items fill more than `parts - 1` and at most `parts` groups of
/// `size`, they fill `parts` groups, the last one possibly short.
pub proof fn lemma_ceil_div_is(count: int, size: int, parts: int)
    requires
        size >= 1,
        parts >= 1,
        (parts - 1) * size < count <= parts * size,
    ensures
        ceil_div(count, size) == parts,
{
    let q = count / size;
    let r = count % size;
    vstd::arithmetic::div_mod::lemma_fundamental_div_mod(count, size);
    vstd::arithmetic::div_mod::lemma_mod_bound(count, size);
    assert(count == size * q + r);
    if r == 0 {
        assert(q == parts) by (nonlinear_arith)
            requires
                count == size * q,
                size >= 1,
                (parts - 1) * size < count <= parts * size,
        ;
    } else {
        assert(q == parts - 1) by (nonlinear_arith)
            requires
                count == size * q + r,
                0 < r < size,
                size >= 1,
                (parts - 1) * size < count <= parts * size,
        ;
    }
}

/// The sums and products that the bookkeeping of one step rests on.
proof fn lemma_step_arithmetic(m: ImporterModel)
    requires
        m.batch_size >= 1,
        m.days_per_batch >= 1,
    ensures
        (m.pass_batches + 1) * m.batch_size == m.pass_batches * m.batch_size + m.batch_size,
        (m.pass_batches + 1 - 1) * m.batch_size == m.pass_batches * m.batch_size,
        0 * m.batch_size == 0,
        m.days_per_batch * 0 == 0,
        m.stock_batches() * 0 == 0,
        m.days_per_batch * (m.windows_done + 1) == m.days_per_batch * m.windows_done
            + m.days_per_batch,
        m.stock_batches() * (m.windows_done + 1) == m.stock_batches() * m.windows_done
            + m.stock_batches(),
        m.pass_batches >= 1 && (m.pass_batches - 1) * m.batch_size < m.codes.len()
            <= m.pass_batches * m.batch_size ==> m.stock_batches() == m.pass_batches,
        m.days_per_batch * m.windows_done < HISTORY_DAYS <= m.days_per_batch * (m.windows_done
            + 1) ==> m.day_windows() == m.windows_done + 1,
        m.codes.len() == 0 ==> m.stock_batches() == 0,
{
    let b = m.batch_size as int;
    let p = m.pass_batches as int;
    let d = m.days_per_batch;
    let w = m.windows_done as int;
    let sb = m.stock_batches();
    assert((p + 1) * b == p * b + b) by (nonlinear_arith);
    assert(d * (w + 1) == d * w + d) by (nonlinear_arith);
    assert(sb * (w + 1) == sb * w + sb) by (nonlinear_arith);
    assert(sb * 0 == 0) by (nonlinear_arith);
    if p >= 1 && (p - 1) * b < m.codes.len() <= p * b {
        lemma_ceil_div_is(m.codes.len() as int, b, p);
    }
    if d * w < HISTORY_DAYS <= d * (w + 1) {
        assert((w + 1 - 1) * d < 1095 <= (w + 1) * d) by (nonlinear_arith)
            requires
                d * w < 1095 <= d * (w + 1),
        ;
        lemma_ceil_div_is(HISTORY_DAYS as int, d, w + 1);
    }
    if m.codes.len() == 0 {
        assert(0int % b == 0 && 0int / b == 0) by (nonlinear_arith)
            requires
                b >= 1,
        ;
    }
}

/// Every step keeps the importer valid.
pub proof fn law_step_keeps_wf(m: ImporterModel, event: ImportEvent)
    requires
        m.wf(),
    ensures
        m.step(event).0.wf(),
{
    lemma_step_arithmetic(m);
    lemma_step_arithmetic(m.absorb(event));
}

/// One job at a time: once a job has been accepted it is marked running in
/// its recent phase, so a second start before it ends is refused.
pub proof fn law_start_marks_running(m: ImporterModel, codes: Seq<Seq<char>>, today: int)
    requires
        m.wf(),
        codes.len() <= usize::MAX,
        RECENT_DAYS + HISTORY_DAYS < today <= MAX_DAY,
    ensures
        m.begin(codes, today).wf(),
        m.begin(codes, today).progress.is_running,
        m.begin(codes, today).progress.stage == ImportStage::ImportingRecent,
        m.begin(codes, today).progress.total_stocks == codes.len(),
        m.begin(codes, today).progress.imported_stocks == 0,
{
}

/// A step moves the stage only along the edges of the stage machine, and a
/// terminal stage is never left by a step. A job is marked running exactly
/// in the recent and the history stage, before the step and after it, and a
/// job under way that is not marked running is a cancelled one.
pub proof fn law_stage_edges(m: ImporterModel, event: ImportEvent)
    requires
        m.wf(),
    ensures
        stage_edge(m.progress.stage, m.step(event).0.progress.stage),
        m.progress.is_running <==> m.progress.stage == ImportStage::ImportingRecent
            || m.progress.stage == ImportStage::ImportingHistory,
        m.step(event).0.progress.is_running <==> m.step(event).0.progress.stage
            == ImportStage::ImportingRecent || m.step(event).0.progress.stage
            == ImportStage::ImportingHistory,
        m.phase != ImportPhase::Idle && !m.progress.is_running ==> m.progress.stage
            == ImportStage::Cancelled,
        m.progress.stage == ImportStage::Completed || m.progress.stage == ImportStage::Failed
            || m.progress.stage == ImportStage::Cancelled || m.progress.stage
            == ImportStage::Idle ==> m.step(event).0.progress.stage == m.progress.stage,
{
}

/// A cancel request marks the job cancelled and not running at once, and the
/// first step taken at a batch boundary afterwards ends the job as cancelled.
pub proof fn law_cancel_stops_job(m: ImporterModel, event: ImportEvent)
    requires
        m.wf(),
        m.phase != ImportPhase::Idle,
        !m.in_batch,
    ensures
        m.cancel().wf(),
        m.cancel().progress.stage == ImportStage::Cancelled,
        !m.cancel().progress.is_running,
        m.cancel().step(event).1 == ActionView::Finish(ImportOutcome::Cancelled),
        m.cancel().step(event).0.progress.stage == ImportStage::Cancelled,
        !m.cancel().step(event).0.progress.is_running,
        m.cancel().step(event).0.phase == ImportPhase::Idle,
{
}

/// A job that is told to finish has the matching terminal stage and is no
/// longer running; a completed job comes from the history stage, has
/// imported every stock, and has counted every batch: the batches imported
/// are the total, stock batches times day windows.
pub proof fn law_finish_is_terminal(m: ImporterModel, event: ImportEvent)
    requires
        m.wf(),
        m.phase != ImportPhase::Idle,
    ensures
        m.step(event).1 == ActionView::Finish(ImportOutcome::Completed) ==> {
            &&& m.step(event).0.progress.stage == ImportStage::Completed
            &&& !m.step(event).0.progress.is_running
            &&& m.step(event).0.progress.imported_stocks == m.step(event).0.progress.total_stocks
            &&& m.step(event).0.progress.imported_batches
                == m.step(event).0.progress.total_batches
            &&& m.step(event).0.progress.total_batches == clamp(
                m.stock_batches() * m.day_windows(),
            )
            &&& m.phase == ImportPhase::History
            &&& m.progress.stage == ImportStage::ImportingHistory
        },
        m.step(event).1 == ActionView::Finish(ImportOutcome::Cancelled) ==> {
            &&& m.step(event).0.progress.stage == ImportStage::Cancelled
            &&& !m.step(event).0.progress.is_running
        },
        m.step(event).1 == ActionView::Finish(ImportOutcome::Failed) ==> {
            &&& m.step(event).0.progress.stage == ImportStage::Failed
            &&& !m.step(event).0.progress.is_running
            &&& event == ImportEvent::FetchAborted
        },
        m.step(event).1 != ActionView::Finish(ImportOutcome::NotRunning),
{
    lemma_step_arithmetic(m);
    lemma_step_arithmetic(m.absorb(event));
}

/// Progress never goes back within a job: a step lowers neither the count
/// of imported stocks nor the count of errors, and never changes the total.
/// A failure that does not abort is counted and the job goes on.
pub proof fn law_progress_monotone(m: ImporterModel, event: ImportEvent)
    requires
        m.wf(),
    ensures
        m.step(event).0.progress.imported_stocks >= m.progress.imported_stocks,
        m.step(event).0.progress.imported_stocks <= m.step(event).0.progress.total_stocks,
        m.step(event).0.progress.error_count >= m.progress.error_count,
        m.step(event).0.progress.total_stocks == m.progress.total_stocks,
        m.phase != ImportPhase::Idle && m.in_batch && event == ImportEvent::FetchFailed ==> m.step(event).0.progress.error_count
            == clamp(m.progress.error_count + 1 as int) && !(m.step(event).1 is Finish),
{
}

/// Stocks are fetched in the order supplied: a fetch always asks for the
/// stock at the cursor and shows it as the current one, and within a batch
/// the cursor moves by exactly the one stock whose result was reported.
pub proof fn law_fetch_in_order(m: ImporterModel, event: ImportEvent)
    requires
        m.wf(),
        m.step(event).1 is Fetch,
    ensures
        m.step(event).0.in_batch,
        m.step(event).0.next_stock < m.codes.len(),
        m.step(event).1->Fetch_code == m.codes[m.step(event).0.next_stock as int],
        m.step(event).0.progress.current_code == m.step(event).1->Fetch_code,
        m.in_batch && m.step(event).0.phase == m.phase && m.step(event).0.window_end
            == m.window_end ==> m.step(event).0.next_stock == m.absorb(event).next_stock,
{
}


/// A job that is neither cancelled nor aborted runs to completion: every
/// step that is given the event the state expects either completes the job
/// or leaves strictly less to do, and what is left cannot shrink for ever.
/// No such step fails or cancels the job.
pub proof fn law_uncancelled_job_completes(m: ImporterModel, event: ImportEvent)
    requires
        m.wf(),
        m.phase != ImportPhase::Idle,
        !m.is_cancelled,
        m.expects(event),
    ensures
        m.step(event).1 == ActionView::Finish(ImportOutcome::Completed) || {
            &&& !(m.step(event).1 is Finish)
            &&& m.step(event).0.less_left_than(m)
            &&& m.step(event).0.phase != ImportPhase::Idle
            &&& !m.step(event).0.is_cancelled
            &&& m.step(event).0.expects(reply(m.step(event).1, true))
            &&& m.step(event).0.expects(reply(m.step(event).1, false))
        },
{
}

/// The event with which a driver answers an action: the result of a fetch,
/// or nothing after a pause.
pub open spec fn reply(action: ActionView, fetched: bool) -> ImportEvent {
    match action {
        ActionView::Fetch { .. } => if fetched {
            ImportEvent::FetchSucceeded
        } else {
            ImportEvent::FetchFailed
        },
        _ => ImportEvent::Resume,
    }
}


/// A full run: a job that is neither cancelled nor aborted is completed
/// after finitely many steps, whichever of its fetches fail, and at
/// completion it is not running, has imported every stock, and shows as many
/// batches imported as the total, stock batches times day windows. The
/// number of steps that suffice is returned.
pub proof fn law_full_run_completes(
    m: ImporterModel,
    event: ImportEvent,
    fetched: spec_fn(nat) -> bool,
    at: nat,
) -> (steps: nat)
    requires
        m.wf(),
        m.phase != ImportPhase::Idle,
        !m.is_cancelled,
        m.expects(event),
    ensures
        m.run(event, fetched, at, steps).progress.stage == ImportStage::Completed,
        !m.run(event, fetched, at, steps).progress.is_running,
        m.run(event, fetched, at, steps).progress.imported_stocks == m.progress.total_stocks,
        m.run(event, fetched, at, steps).progress.total_stocks == m.progress.total_stocks,
        m.run(event, fetched, at, steps).progress.imported_batches == clamp(
            m.stock_batches() * m.day_windows(),
        ),
        m.run(event, fetched, at, steps).progress.total_batches == clamp(
            m.stock_batches() * m.day_windows(),
        ),
    decreases m.days_left(), m.pass_left(),
{
    law_uncancelled_job_completes(m, event);
    law_finish_is_terminal(m, event);
    law_step_keeps_wf(m, event);
    law_progress_monotone(m, event);
    let (next, action) = m.step(event);
    if action == ActionView::Finish(ImportOutcome::Completed) {
        assert(m.run(event, fetched, at, 1) == next);
        1
    } else {
        let rest = law_full_run_completes(next, reply(action, fetched(at)), fetched, at + 1);
        assert(m.run(event, fetched, at, rest + 1) == next.run(
            reply(action, fetched(at)),
            fetched,
            at + 1,
            rest,
        ));
        assert(next.codes == m.codes && next.batch_size == m.batch_size && next.days_per_batch
            == m.days_per_batch);
        rest + 1
    }
}

/// A job that was just accepted and is then driven without cancel or abort
/// goes from the recent phase to completion with every stock imported.
pub proof fn law_started_job_completes(
    m: ImporterModel,
    codes: Seq<Seq<char>>,
    today: int,
    fetched: spec_fn(nat) -> bool,
) -> (steps: nat)
    requires
        m.wf(),
        codes.len() <= usize::MAX,
        RECENT_DAYS + HISTORY_DAYS < today <= MAX_DAY,
    ensures
        m.begin(codes, today).progress.stage == ImportStage::ImportingRecent,
        m.begin(codes, today).run(ImportEvent::Resume, fetched, 0, steps).progress.stage
            == ImportStage::Completed,
        m.begin(codes, today).run(ImportEvent::Resume, fetched, 0, steps).progress.imported_stocks
            == codes.len(),
        m.begin(codes, today).run(ImportEvent::Resume, fetched, 0, steps).progress.total_stocks
            == codes.len(),
        m.begin(codes, today).run(ImportEvent::Resume, fetched, 0, steps).progress.imported_batches
            == clamp(
            ceil_div(codes.len() as int, m.batch_size as int) * ceil_div(
                HISTORY_DAYS as int,
                m.days_per_batch,
            ),
        ),
{
    law_start_marks_running(m, codes, today);
    law_full_run_completes(m.begin(codes, today), ImportEvent::Resume, fetched, 0)
}


/// The day windows of the history phase cut its range without gap or
/// overlap. The first window entered ends on the last day of the range.
/// Every window lies inside the range and holds at most the configured
/// number of days, but for the oldest, which may hold one more. A window
/// that follows another ends the day before that one starts. The job
/// completes only from a window that starts on the first day of the range.
/// So the windows are pairwise disjoint and cover every day of the range,
/// and there are as many as the range divided by the window size, rounded
/// up.
pub proof fn law_history_windows(m: ImporterModel, event: ImportEvent)
    requires
        m.wf(),
        m.phase == ImportPhase::History,
        m.codes.len() > 0,
    ensures
        ({
            let next = m.step(event).0;
            let first = m.history_start();
            let last = m.today - RECENT_DAYS;
            &&& m.step(event).1 is Fetch ==> {
                &&& first <= next.window_start <= next.window_end <= last
                &&& next.window_end == last - m.days_per_batch * next.windows_done
                &&& next.window_start == next.window_first_day()
                &&& next.window_end - next.window_start + 1 <= m.days_per_batch + 1
                &&& (next.window_start > first ==> next.window_end - next.window_start + 1
                    == m.days_per_batch)
                &&& next.windows_done < m.day_windows()
                &&& m.step(event).1->Fetch_start_date == date_text(next.window_start)
                &&& m.step(event).1->Fetch_end_date == date_text(next.window_end)
            }
            &&& !m.in_batch && m.next_stock == 0 && next.phase == ImportPhase::History ==> {
                &&& next.window_end == last
                &&& next.windows_done == 0
            }
            &&& (m.in_batch || m.next_stock > 0) && next.phase == ImportPhase::History ==> {
                ||| (next.window_end == m.window_end && next.window_start == m.window_start
                    && next.windows_done == m.windows_done)
                ||| (next.window_end == m.window_start - 1 && next.windows_done == m.windows_done
                    + 1 && !m.in_batch && m.next_stock == m.codes.len())
            }
            &&& m.step(event).1 == ActionView::Finish(ImportOutcome::Completed) ==> {
                &&& m.window_start == first
                &&& m.windows_done + 1 == m.day_windows()
                &&& m.next_stock == m.codes.len()
            }
        }),
{
    lemma_step_arithmetic(m);
    lemma_step_arithmetic(m.absorb(event));
    lemma_step_arithmetic(m.next_window());
    let d = m.days_per_batch;
    let windows = m.day_windows();
    vstd::arithmetic::div_mod::lemma_fundamental_div_mod(HISTORY_DAYS as int, d);
    vstd::arithmetic::div_mod::lemma_mod_bound(HISTORY_DAYS as int, d);
    assert(d * windows >= HISTORY_DAYS) by (nonlinear_arith)
        requires
            d >= 1,
            1095 == d * (1095int / d) + 1095int % d,
            0 <= 1095int % d < d,
            windows == if 1095int % d == 0 {
                1095int / d
            } else {
                1095int / d + 1
            },
    ;
    let next = m.step(event).0;
    if m.step(event).1 is Fetch {
        assert(next.windows_done < windows) by (nonlinear_arith)
            requires
                d >= 1,
                d * windows >= 1095,
                d * next.windows_done < 1095,
        ;
    }
}

} // verus!
