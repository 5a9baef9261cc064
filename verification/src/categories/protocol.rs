//! The protocol of an operation: which action it asks of the store next,
//! and what it makes of the store's reply.
//!
//! An operation never touches a store. It is a value that is stepped: each
//! step takes the reply to the action that the step before asked for, and
//! either asks for the next action or finishes with the operation's outcome.
//! Whoever holds the store performs the actions.

use vstd::prelude::*;
use crate::categories::model::{copy_rows, Categories};
use crate::categories::statement::{Key, Selection, Statement};
use crate::domain::id_text;
use crate::error::{DatabaseError, ErrorView, FaultView, StoreFault};

verus! {

/// What an operation asks of the store.
#[derive(Debug, PartialEq, Eq)]
pub enum Action {
    /// Open a transaction.
    Begin,
    /// Close the transaction and keep what it did.
    Commit,
    /// Close the transaction and undo what it did.
    Rollback,
    /// Run a statement; the reply is the number of rows affected.
    Execute(Statement),
    /// Fetch the row with this key, if there is one.
    FetchOptional(Key),
    /// Fetch every row that the selection keeps, newest first.
    FetchAll(Selection),
    /// Fetch the rows of one page of the selection: offset, then limit.
    FetchPage(Selection, i32, i32),
    /// Count the rows that the selection keeps.
    FetchCount(Selection),
}

/// What the store answers.
#[derive(Debug, PartialEq, Eq)]
pub enum Event {
    /// Nothing was asked yet: the event that starts an operation.
    Started,
    /// The transaction was opened or closed as asked.
    Done,
    /// The statement ran and affected this many rows.
    Affected(u64),
    /// The row that was fetched, or none.
    Row(Option<Categories>),
    /// The rows that were fetched.
    Rows(Vec<Categories>),
    /// The count that was asked for.
    Count(i32),
    /// The action failed.
    Failed(StoreFault),
}

/// The mathematical content of an [`Event`].
pub ghost enum Reply {
    Started,
    Done,
    Affected(u64),
    Row(Option<Categories>),
    Rows(Seq<Categories>),
    Count(i32),
    Failed(FaultView),
}

impl View for Event {
    type V = Reply;

    open spec fn view(&self) -> Reply {
        match self {
            Event::Started => Reply::Started,
            Event::Done => Reply::Done,
            Event::Affected(n) => Reply::Affected(*n),
            Event::Row(r) => Reply::Row(*r),
            Event::Rows(v) => Reply::Rows(v@),
            Event::Count(n) => Reply::Count(*n),
            Event::Failed(f) => Reply::Failed(f@),
        }
    }
}

/// How an operation ended.
#[derive(Debug, PartialEq, Eq)]
pub enum Outcome {
    /// A write went through: the rows read back, in the order of the
    /// statements, and the rows affected by the last statement.
    Written(Vec<Categories>, u64),
    /// A lookup by key: the row, or none.
    Found(Option<Categories>),
    /// A listing.
    Listed(Vec<Categories>),
    /// One page of a listing, and the size of the whole listing.
    Paged(Vec<Categories>, i32),
    /// The operation failed.
    Failed(DatabaseError),
}

/// The mathematical content of an [`Outcome`].
pub ghost enum Verdict {
    Written(Seq<Categories>, u64),
    Found(Option<Categories>),
    Listed(Seq<Categories>),
    Paged(Seq<Categories>, i32),
    Failed(ErrorView),
}

impl View for Outcome {
    type V = Verdict;

    open spec fn view(&self) -> Verdict {
        match self {
            Outcome::Written(rows, n) => Verdict::Written(rows@, *n),
            Outcome::Found(r) => Verdict::Found(*r),
            Outcome::Listed(rows) => Verdict::Listed(rows@),
            Outcome::Paged(rows, n) => Verdict::Paged(rows@, *n),
            Outcome::Failed(e) => Verdict::Failed(e@),
        }
    }
}

/// What a step of an operation yields.
#[derive(Debug, PartialEq, Eq)]
pub enum Step {
    /// Perform this action and step again with the reply.
    Perform(Action),
    /// The operation is over.
    Finish(Outcome),
}

/// The mathematical content of a [`Step`].
pub ghost enum Move {
    Perform(Action),
    Finish(Verdict),
}

impl View for Step {
    type V = Move;

    open spec fn view(&self) -> Move {
        match self {
            Step::Perform(a) => Move::Perform(*a),
            Step::Finish(o) => Move::Finish(o@),
        }
    }
}

/// A write: statements to run in order, and how to treat their replies.
#[derive(Debug, PartialEq, Eq)]
pub struct Script {
    /// The statements, in the order in which they run.
    pub items: Vec<Statement>,
    /// Run all statements in one transaction: commit after the last, roll
    /// back when the write fails.
    pub atomic: bool,
    /// A statement that fails is passed over, and the write goes on.
    pub lenient: bool,
    /// A statement that affects no row fails the write as not found.
    pub strict: bool,
    /// After each statement, read back the row that it is about.
    pub reread: bool,
}

/// The mathematical content of a [`Script`].
pub ghost struct Recipe {
    pub items: Seq<Statement>,
    pub atomic: bool,
    pub lenient: bool,
    pub strict: bool,
    pub reread: bool,
}

impl View for Script {
    type V = Recipe;

    open spec fn view(&self) -> Recipe {
        Recipe {
            items: self.items@,
            atomic: self.atomic,
            lenient: self.lenient,
            strict: self.strict,
            reread: self.reread,
        }
    }
}

/// What an operation is to do.
#[derive(Debug, PartialEq, Eq)]
pub enum Plan {
    /// Look one row up by a unique key.
    Find(Key),
    /// List the rows of a selection.
    List(Selection),
    /// Count the rows of a selection, then list one page of them: offset,
    /// then limit.
    Page(Selection, i32, i32),
    /// Run a script of statements.
    Write(Script),
}

/// The mathematical content of a [`Plan`].
pub ghost enum Intent {
    Find(Key),
    List(Selection),
    Page(Selection, i32, i32),
    Write(Recipe),
}

impl View for Plan {
    type V = Intent;

    open spec fn view(&self) -> Intent {
        match self {
            Plan::Find(k) => Intent::Find(*k),
            Plan::List(s) => Intent::List(*s),
            Plan::Page(s, offset, limit) => Intent::Page(*s, *offset, *limit),
            Plan::Write(script) => Intent::Write(script@),
        }
    }
}

/// Where an operation stands.
#[derive(Clone, Copy, Debug, PartialEq, Eq, Structural)]
pub enum Stage {
    /// Not stepped yet.
    Fresh,
    /// Asked to open the transaction.
    Opening,
    /// Asked to run the statement at the cursor.
    Writing,
    /// Asked for a row: the one looked up, or the one to read back.
    Reading,
    /// Asked for the size of the listing.
    Counting,
    /// Asked for the rows of the listing.
    Listing,
    /// Asked to commit.
    Closing,
    /// Asked to roll back.
    Aborting,
    /// Over.
    Finished,
}

/// An operation in progress.
#[derive(Debug)]
pub struct Operation {
    plan: Plan,
    stage: Stage,
    cursor: usize,
    gathered: Vec<Categories>,
    affected: u64,
    count: i32,
    failure: Option<DatabaseError>,
}

/// The mathematical content of an [`Operation`].
pub ghost struct Progress {
    pub plan: Intent,
    pub stage: Stage,
    /// The index of the statement that is running.
    pub cursor: int,
    /// The rows read back so far.
    pub gathered: Seq<Categories>,
    /// The rows affected by the last statement that ran.
    pub affected: u64,
    /// The size of the listing, once counted.
    pub count: i32,
    /// The error to finish with once the rollback is done.
    pub failure: Option<ErrorView>,
}

/// The error that says which row a statement did not find.
pub open spec fn missing_text(statement: Statement) -> Seq<char> {
    match statement {
        Statement::Delete(Key::Code(code)) => "Category with code '"@ + code@ + "' not found"@,
        Statement::Delete(Key::Slug(slug)) => "Category with URL slug '"@ + slug@
            + "' not found"@,
        _ => match statement.subject() {
            Some(id) => "Category with id "@ + id_text(id) + " not found"@,
            None => "Category not found"@,
        },
    }
}

/// The error for a reply that does not answer the action that was asked.
pub open spec fn unexpected() -> ErrorView {
    ErrorView::Generic("unexpected reply from the store"@)
}

/// The error for a step after the operation is over.
pub open spec fn exhausted() -> ErrorView {
    ErrorView::Generic("the operation is over"@)
}

/// An operation that has not been stepped.
pub open spec fn fresh(plan: Intent) -> Progress {
    Progress {
        plan,
        stage: Stage::Fresh,
        cursor: 0,
        gathered: Seq::empty(),
        affected: 0,
        count: 0,
        failure: None,
    }
}

/// Finish with `verdict`.
pub open spec fn conclude(op: Progress, verdict: Verdict) -> (Progress, Move) {
    (Progress { stage: Stage::Finished, ..op }, Move::Finish(verdict))
}

/// Fail with `error`: inside a transaction, roll back first.
pub open spec fn give_up(op: Progress, atomic: bool, error: ErrorView) -> (Progress, Move) {
    if atomic {
        (
            Progress { stage: Stage::Aborting, failure: Some(error), ..op },
            Move::Perform(Action::Rollback),
        )
    } else {
        conclude(op, Verdict::Failed(error))
    }
}

/// Go on with the statement at index `at`; after the last one, commit or
/// finish.
pub open spec fn proceed(op: Progress, recipe: Recipe, at: int) -> (Progress, Move) {
    if 0 <= at < recipe.items.len() {
        (
            Progress { stage: Stage::Writing, cursor: at, ..op },
            Move::Perform(Action::Execute(recipe.items[at])),
        )
    } else if recipe.atomic {
        (Progress { stage: Stage::Closing, cursor: at, ..op }, Move::Perform(Action::Commit))
    } else {
        conclude(Progress { cursor: at, ..op }, Verdict::Written(op.gathered, op.affected))
    }
}

/// The first step.
pub open spec fn begin(op: Progress) -> (Progress, Move) {
    match op.plan {
        Intent::Find(key) => (
            Progress { stage: Stage::Reading, ..op },
            Move::Perform(Action::FetchOptional(key)),
        ),
        Intent::List(selection) => (
            Progress { stage: Stage::Listing, ..op },
            Move::Perform(Action::FetchAll(selection)),
        ),
        Intent::Page(selection, _, _) => (
            Progress { stage: Stage::Counting, ..op },
            Move::Perform(Action::FetchCount(selection)),
        ),
        Intent::Write(recipe) => if recipe.items.len() == 0 {
            conclude(op, Verdict::Written(Seq::empty(), 0))
        } else if recipe.atomic {
            (Progress { stage: Stage::Opening, ..op }, Move::Perform(Action::Begin))
        } else {
            proceed(op, recipe, 0)
        },
    }
}

/// The step after a statement ran.
pub open spec fn written(op: Progress, recipe: Recipe, reply: Reply) -> (Progress, Move) {
    if !(0 <= op.cursor < recipe.items.len()) {
        give_up(op, recipe.atomic, unexpected())
    } else {
        let statement = recipe.items[op.cursor];
        match reply {
            Reply::Affected(n) => if recipe.strict && n == 0 {
                give_up(op, recipe.atomic, ErrorView::NotFound(missing_text(statement)))
            } else if recipe.reread && statement.subject() is Some {
                (
                    Progress { stage: Stage::Reading, affected: n, ..op },
                    Move::Perform(Action::FetchOptional(Key::Id(statement.subject()->0))),
                )
            } else {
                proceed(Progress { affected: n, ..op }, recipe, op.cursor + 1)
            },
            Reply::Failed(f) => if recipe.lenient {
                proceed(op, recipe, op.cursor + 1)
            } else {
                give_up(op, recipe.atomic, ErrorView::Sqlx(f))
            },
            _ => give_up(op, recipe.atomic, unexpected()),
        }
    }
}

/// The step after a row was read back.
pub open spec fn read_back(op: Progress, recipe: Recipe, reply: Reply) -> (Progress, Move) {
    if !(0 <= op.cursor < recipe.items.len()) {
        give_up(op, recipe.atomic, unexpected())
    } else {
        match reply {
            Reply::Row(Some(row)) => proceed(
                Progress { gathered: op.gathered.push(row), ..op },
                recipe,
                op.cursor + 1,
            ),
            Reply::Row(None) => if recipe.lenient {
                proceed(op, recipe, op.cursor + 1)
            } else {
                give_up(op, recipe.atomic, ErrorView::Sqlx(FaultView::RowNotFound))
            },
            Reply::Failed(f) => if recipe.lenient {
                proceed(op, recipe, op.cursor + 1)
            } else {
                give_up(op, recipe.atomic, ErrorView::Sqlx(f))
            },
            _ => give_up(op, recipe.atomic, unexpected()),
        }
    }
}

/// The step of a write, by its stage.
pub open spec fn advance_write(op: Progress, recipe: Recipe, reply: Reply) -> (Progress, Move) {
    match op.stage {
        Stage::Opening => match reply {
            Reply::Done => proceed(op, recipe, 0),
            Reply::Failed(f) => conclude(op, Verdict::Failed(ErrorView::Sqlx(f))),
            _ => conclude(op, Verdict::Failed(unexpected())),
        },
        Stage::Writing => written(op, recipe, reply),
        Stage::Reading => read_back(op, recipe, reply),
        Stage::Closing => match reply {
            Reply::Done => conclude(op, Verdict::Written(op.gathered, op.affected)),
            Reply::Failed(f) => conclude(op, Verdict::Failed(ErrorView::Sqlx(f))),
            _ => conclude(op, Verdict::Failed(unexpected())),
        },
        Stage::Aborting => conclude(
            op,
            Verdict::Failed(
                match op.failure {
                    Some(e) => e,
                    None => unexpected(),
                },
            ),
        ),
        _ => conclude(op, Verdict::Failed(unexpected())),
    }
}

/// The step of a read, by its stage.
pub open spec fn advance_read(op: Progress, reply: Reply) -> (Progress, Move) {
    match (op.stage, op.plan, reply) {
        (Stage::Reading, Intent::Find(_), Reply::Row(row)) => conclude(op, Verdict::Found(row)),
        (Stage::Listing, Intent::List(_), Reply::Rows(rows)) => conclude(
            op,
            Verdict::Listed(rows),
        ),
        (Stage::Counting, Intent::Page(selection, offset, limit), Reply::Count(n)) => (
            Progress { stage: Stage::Listing, count: n, ..op },
            Move::Perform(Action::FetchPage(selection, offset, limit)),
        ),
        (Stage::Listing, Intent::Page(_, _, _), Reply::Rows(rows)) => conclude(
            op,
            Verdict::Paged(rows, op.count),
        ),
        (_, _, Reply::Failed(f)) => conclude(op, Verdict::Failed(ErrorView::Sqlx(f))),
        _ => conclude(op, Verdict::Failed(unexpected())),
    }
}

/// One step of an operation: the operation after the step, and what the
/// step yields.
pub open spec fn advance(op: Progress, reply: Reply) -> (Progress, Move) {
    match op.stage {
        Stage::Fresh => begin(op),
        Stage::Finished => (op, Move::Finish(Verdict::Failed(exhausted()))),
        _ => match op.plan {
            Intent::Write(recipe) => advance_write(op, recipe, reply),
            _ => advance_read(op, reply),
        },
    }
}

/// An upper bound on the actions that an operation still asks for.
pub open spec fn weight(op: Progress) -> nat {
    let len: int = match op.plan {
        Intent::Write(recipe) => recipe.items.len() as int,
        _ => 0,
    };
    let rest: int = if 0 <= op.cursor < len {
        len - op.cursor
    } else {
        0
    };
    match op.stage {
        Stage::Fresh => (2 * len + 5) as nat,
        Stage::Opening => (2 * len + 4) as nat,
        Stage::Writing => (2 * rest + 3) as nat,
        Stage::Reading => (2 * rest + 2) as nat,
        Stage::Counting => 2,
        Stage::Listing => 1,
        Stage::Closing => 1,
        Stage::Aborting => 1,
        Stage::Finished => 0,
    }
}

/// A step that asks for an action brings the operation nearer to its end.
pub proof fn lemma_advance_decreases(op: Progress, reply: Reply)
    ensures
        advance(op, reply).1 is Perform ==> weight(advance(op, reply).0) < weight(op),
{
}

/// The message that says which row a statement did not find.
pub fn missing_message(statement: &Statement) -> (text: String)
    ensures
        text@ == missing_text(*statement),
{
    match statement {
        Statement::Delete(Key::Code(code)) => String::from_str("Category with code '").concat(
            code.as_str(),
        ).concat("' not found"),
        Statement::Delete(Key::Slug(slug)) => String::from_str(
            "Category with URL slug '",
        ).concat(slug.as_str()).concat("' not found"),
        _ => match statement.subject_id() {
            Some(id) => {
                let text = id.to_string();
                String::from_str("Category with id ").concat(text.as_str()).concat(" not found")
            },
            None => String::from_str("Category not found"),
        },
    }
}

fn unexpected_reply() -> (e: DatabaseError)
    ensures
        e@ == unexpected(),
{
    DatabaseError::Generic(String::from_str("unexpected reply from the store"))
}

impl View for Operation {
    type V = Progress;

    closed spec fn view(&self) -> Progress {
        Progress {
            plan: self.plan@,
            stage: self.stage,
            cursor: self.cursor as int,
            gathered: self.gathered@,
            affected: self.affected,
            count: self.count,
            failure: match self.failure {
                Some(e) => Some(e@),
                None => None,
            },
        }
    }
}

impl Operation {
    /// An operation that is to carry out `plan`, not stepped yet.
    pub fn new(plan: Plan) -> (op: Operation)
        ensures
            op@ == fresh(plan@),
    {
        Operation {
            plan,
            stage: Stage::Fresh,
            cursor: 0,
            gathered: Vec::new(),
            affected: 0,
            count: 0,
            failure: None,
        }
    }

    /// Whether the operation is over.
    pub fn is_finished(&self) -> (over: bool)
        ensures
            over == (self@.stage == Stage::Finished),
    {
        self.stage == Stage::Finished
    }

    fn conclude(self, outcome: Outcome) -> (next: (Operation, Step))
        ensures
            (next.0@, next.1@) == conclude(self@, outcome@),
    {
        let mut op = self;
        op.stage = Stage::Finished;
        (op, Step::Finish(outcome))
    }

    fn give_up(self, atomic: bool, error: DatabaseError) -> (next: (Operation, Step))
        ensures
            (next.0@, next.1@) == give_up(self@, atomic, error@),
    {
        let mut op = self;
        if atomic {
            op.stage = Stage::Aborting;
            op.failure = Some(error);
            (op, Step::Perform(Action::Rollback))
        } else {
            op.conclude(Outcome::Failed(error))
        }
    }

    fn proceed(self, at: usize) -> (next: (Operation, Step))
        requires
            self@.plan is Write,
        ensures
            (next.0@, next.1@) == proceed(self@, self@.plan->Write_0, at as int),
    {
        let mut op = self;
        let (statement, atomic) = match &op.plan {
            Plan::Write(script) => {
                if at < script.items.len() {
                    (Some(script.items[at].duplicate()), script.atomic)
                } else {
                    (None, script.atomic)
                }
            },
            _ => (None, false),
        };
        match statement {
            Some(s) => {
                op.stage = Stage::Writing;
                op.cursor = at;
                (op, Step::Perform(Action::Execute(s)))
            },
            None => {
                op.cursor = at;
                if atomic {
                    op.stage = Stage::Closing;
                    (op, Step::Perform(Action::Commit))
                } else {
                    let rows = copy_rows(&op.gathered);
                    let affected = op.affected;
                    op.conclude(Outcome::Written(rows, affected))
                }
            },
        }
    }

    fn begin(self) -> (next: (Operation, Step))
        ensures
            (next.0@, next.1@) == begin(self@),
    {
        let mut op = self;
        let first = match &op.plan {
            Plan::Find(key) => Some((Stage::Reading, Action::FetchOptional(key.duplicate()))),
            Plan::List(selection) => Some(
                (Stage::Listing, Action::FetchAll(selection.duplicate())),
            ),
            Plan::Page(selection, _, _) => Some(
                (Stage::Counting, Action::FetchCount(selection.duplicate())),
            ),
            Plan::Write(script) => {
                if script.items.len() > 0 && script.atomic {
                    Some((Stage::Opening, Action::Begin))
                } else {
                    None
                }
            },
        };
        match first {
            Some((stage, action)) => {
                op.stage = stage;
                (op, Step::Perform(action))
            },
            None => {
                let empty = match &op.plan {
                    Plan::Write(script) => script.items.len() == 0,
                    _ => true,
                };
                if empty {
                    op.conclude(Outcome::Written(Vec::new(), 0))
                } else {
                    op.proceed(0)
                }
            },
        }
    }

    fn written(self, event: Event) -> (next: (Operation, Step))
        requires
            self@.plan is Write,
        ensures
            (next.0@, next.1@) == written(self@, self@.plan->Write_0, event@),
    {
        let mut op = self;
        let (atomic, lenient, strict, reread, statement) = match &op.plan {
            Plan::Write(script) => (
                script.atomic,
                script.lenient,
                script.strict,
                script.reread,
                if op.cursor < script.items.len() {
                    Some(script.items[op.cursor].duplicate())
                } else {
                    None
                },
            ),
            _ => (false, false, false, false, None),
        };
        match statement {
            None => op.give_up(atomic, unexpected_reply()),
            Some(statement) => match event {
                Event::Affected(n) => {
                    if strict && n == 0 {
                        let error = DatabaseError::NotFound(missing_message(&statement));
                        op.give_up(atomic, error)
                    } else {
                        op.affected = n;
                        let subject = statement.subject_id();
                        match subject {
                            Some(id) if reread => {
                                op.stage = Stage::Reading;
                                (op, Step::Perform(Action::FetchOptional(Key::Id(id))))
                            },
                            _ => {
                                let at = op.cursor + 1;
                                op.proceed(at)
                            },
                        }
                    }
                },
                Event::Failed(f) => {
                    if lenient {
                        let at = op.cursor + 1;
                        op.proceed(at)
                    } else {
                        op.give_up(atomic, DatabaseError::Sqlx(f))
                    }
                },
                _ => op.give_up(atomic, unexpected_reply()),
            },
        }
    }

    fn read_back(self, event: Event) -> (next: (Operation, Step))
        requires
            self@.plan is Write,
        ensures
            (next.0@, next.1@) == read_back(self@, self@.plan->Write_0, event@),
    {
        let mut op = self;
        let (atomic, lenient, in_range) = match &op.plan {
            Plan::Write(script) => (
                script.atomic,
                script.lenient,
                op.cursor < script.items.len(),
            ),
            _ => (false, false, false),
        };
        if !in_range {
            return op.give_up(atomic, unexpected_reply());
        }
        let at = op.cursor + 1;
        match event {
            Event::Row(Some(row)) => {
                op.gathered.push(row);
                op.proceed(at)
            },
            Event::Row(None) => {
                if lenient {
                    op.proceed(at)
                } else {
                    op.give_up(atomic, DatabaseError::Sqlx(StoreFault::RowNotFound))
                }
            },
            Event::Failed(f) => {
                if lenient {
                    op.proceed(at)
                } else {
                    op.give_up(atomic, DatabaseError::Sqlx(f))
                }
            },
            _ => op.give_up(atomic, unexpected_reply()),
        }
    }

    fn advance_write(self, event: Event) -> (next: (Operation, Step))
        requires
            self@.plan is Write,
        ensures
            (next.0@, next.1@) == advance_write(self@, self@.plan->Write_0, event@),
    {
        let mut op = self;
        match op.stage {
            Stage::Opening => match event {
                Event::Done => op.proceed(0),
                Event::Failed(f) => op.conclude(Outcome::Failed(DatabaseError::Sqlx(f))),
                _ => op.conclude(Outcome::Failed(unexpected_reply())),
            },
            Stage::Writing => op.written(event),
            Stage::Reading => op.read_back(event),
            Stage::Closing => match event {
                Event::Done => {
                    let rows = copy_rows(&op.gathered);
                    let affected = op.affected;
                    op.conclude(Outcome::Written(rows, affected))
                },
                Event::Failed(f) => op.conclude(Outcome::Failed(DatabaseError::Sqlx(f))),
                _ => op.conclude(Outcome::Failed(unexpected_reply())),
            },
            Stage::Aborting => {
                let error = match &op.failure {
                    Some(e) => e.duplicate(),
                    None => unexpected_reply(),
                };
                op.conclude(Outcome::Failed(error))
            },
            _ => op.conclude(Outcome::Failed(unexpected_reply())),
        }
    }

    fn advance_read(self, event: Event) -> (next: (Operation, Step))
        requires
            !(self@.plan is Write),
        ensures
            (next.0@, next.1@) == advance_read(self@, event@),
    {
        let mut op = self;
        let page = match &op.plan {
            Plan::Page(selection, offset, limit) => Some(
                Action::FetchPage(selection.duplicate(), *offset, *limit),
            ),
            _ => None,
        };
        let finding = match &op.plan {
            Plan::Find(_) => true,
            _ => false,
        };
        let listing = match &op.plan {
            Plan::List(_) => true,
            _ => false,
        };
        match event {
            Event::Row(row) => {
                if op.stage == Stage::Reading && finding {
                    op.conclude(Outcome::Found(row))
                } else {
                    op.conclude(Outcome::Failed(unexpected_reply()))
                }
            },
            Event::Rows(rows) => {
                if op.stage == Stage::Listing && listing {
                    op.conclude(Outcome::Listed(rows))
                } else if op.stage == Stage::Listing && page.is_some() {
                    let count = op.count;
                    op.conclude(Outcome::Paged(rows, count))
                } else {
                    op.conclude(Outcome::Failed(unexpected_reply()))
                }
            },
            Event::Count(n) => {
                match page {
                    Some(fetch) if op.stage == Stage::Counting => {
                        op.stage = Stage::Listing;
                        op.count = n;
                        (op, Step::Perform(fetch))
                    },
                    _ => op.conclude(Outcome::Failed(unexpected_reply())),
                }
            },
            Event::Failed(f) => op.conclude(Outcome::Failed(DatabaseError::Sqlx(f))),
            _ => op.conclude(Outcome::Failed(unexpected_reply())),
        }
    }

    /// Takes the reply to the action that the step before asked for (for
    /// the first step: [`Event::Started`]) and yields the next action, or
    /// the outcome when the operation is over.
    pub fn step(self, event: Event) -> (next: (Operation, Step))
        ensures
            (next.0@, next.1@) == advance(self@, event@),
    {
        match self.stage {
            Stage::Fresh => self.begin(),
            Stage::Finished => {
                let error = DatabaseError::Generic(String::from_str("the operation is over"));
                (self, Step::Finish(Outcome::Failed(error)))
            },
            _ => {
                let writing = match &self.plan {
                    Plan::Write(_) => true,
                    _ => false,
                };
                if writing {
                    self.advance_write(event)
                } else {
                    self.advance_read(event)
                }
            },
        }
    }
}

/// The error for an outcome of another shape than the operation has.
pub open spec fn misshapen() -> ErrorView {
    ErrorView::Generic("unexpected outcome of the operation"@)
}

fn misshapen_outcome() -> (e: DatabaseError)
    ensures
        e@ == misshapen(),
{
    DatabaseError::Generic(String::from_str("unexpected outcome of the operation"))
}

impl Outcome {
    /// The outcome of a write that reads one row back: the first row.
    pub fn into_row(self) -> (result: Result<Categories, DatabaseError>)
        ensures
            match self@ {
                Verdict::Written(rows, _) => if rows.len() > 0 {
                    result == Ok::<Categories, DatabaseError>(rows[0])
                } else {
                    result matches Err(e) && e@ == misshapen()
                },
                Verdict::Failed(error) => result matches Err(e) && e@ == error,
                _ => result matches Err(e) && e@ == misshapen(),
            },
    {
        match self {
            Outcome::Written(rows, _) => {
                if rows.len() > 0 {
                    Ok(rows[0].duplicate())
                } else {
                    Err(misshapen_outcome())
                }
            },
            Outcome::Failed(e) => Err(e),
            _ => Err(misshapen_outcome()),
        }
    }

    /// The outcome of a write that reads rows back, or of a listing: the rows.
    pub fn into_rows(self) -> (result: Result<Vec<Categories>, DatabaseError>)
        ensures
            match self@ {
                Verdict::Written(rows, _) => result matches Ok(v) && v@ == rows,
                Verdict::Listed(rows) => result matches Ok(v) && v@ == rows,
                Verdict::Failed(error) => result matches Err(e) && e@ == error,
                _ => result matches Err(e) && e@ == misshapen(),
            },
    {
        match self {
            Outcome::Written(rows, _) => Ok(rows),
            Outcome::Listed(rows) => Ok(rows),
            Outcome::Failed(e) => Err(e),
            _ => Err(misshapen_outcome()),
        }
    }

    /// The outcome of a write that yields nothing.
    pub fn into_unit(self) -> (result: Result<(), DatabaseError>)
        ensures
            match self@ {
                Verdict::Written(_, _) => result is Ok,
                Verdict::Failed(error) => result matches Err(e) && e@ == error,
                _ => result matches Err(e) && e@ == misshapen(),
            },
    {
        match self {
            Outcome::Written(_, _) => Ok(()),
            Outcome::Failed(e) => Err(e),
            _ => Err(misshapen_outcome()),
        }
    }

    /// The outcome of a write that yields the number of rows affected.
    pub fn into_affected(self) -> (result: Result<u64, DatabaseError>)
        ensures
            match self@ {
                Verdict::Written(_, n) => result == Ok::<u64, DatabaseError>(n),
                Verdict::Failed(error) => result matches Err(e) && e@ == error,
                _ => result matches Err(e) && e@ == misshapen(),
            },
    {
        match self {
            Outcome::Written(_, n) => Ok(n),
            Outcome::Failed(e) => Err(e),
            _ => Err(misshapen_outcome()),
        }
    }

    /// The outcome of a lookup by key.
    pub fn into_found(self) -> (result: Result<Option<Categories>, DatabaseError>)
        ensures
            match self@ {
                Verdict::Found(row) => result == Ok::<Option<Categories>, DatabaseError>(row),
                Verdict::Failed(error) => result matches Err(e) && e@ == error,
                _ => result matches Err(e) && e@ == misshapen(),
            },
    {
        match self {
            Outcome::Found(row) => Ok(row),
            Outcome::Failed(e) => Err(e),
            _ => Err(misshapen_outcome()),
        }
    }

    /// The outcome of a paged listing: the page, and the size of the whole
    /// listing.
    pub fn into_page(self) -> (result: Result<(Vec<Categories>, i32), DatabaseError>)
        ensures
            match self@ {
                Verdict::Paged(rows, total) => result matches Ok(page) && page.0@ == rows
                    && page.1 == total,
                Verdict::Failed(error) => result matches Err(e) && e@ == error,
                _ => result matches Err(e) && e@ == misshapen(),
            },
    {
        match self {
            Outcome::Paged(rows, total) => Ok((rows, total)),
            Outcome::Failed(e) => Err(e),
            _ => Err(misshapen_outcome()),
        }
    }
}

} // verus!
