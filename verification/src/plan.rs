//! The steps of an operation, and the order in which they are performed.
//!
//! An operation on the database is a list of steps. The caller performs them one after
//! the other and reports how each went; the first that fails ends the operation.

use vstd::prelude::*;

use crate::binding::{bindings_view, Bound, BoundView};

verus! {

/// A script and what it binds.
#[derive(Debug, PartialEq)]
pub struct Request {
    pub text: String,
    pub bindings: Vec<(String, Bound)>,
}

/// What a request sends.
#[verifier::ext_equal]
pub struct RequestView {
    pub text: Seq<char>,
    pub bindings: Seq<(Seq<char>, BoundView)>,
}

impl View for Request {
    type V = RequestView;

    open spec fn view(&self) -> RequestView {
        RequestView { text: self.text@, bindings: bindings_view(self.bindings@) }
    }
}

/// One thing to ask of the database.
#[derive(Debug, PartialEq)]
pub enum Step {
    /// Work in a namespace.
    UseNamespace(String),
    /// Work in a database of the namespace.
    UseDatabase(String),
    /// Sign in as a root user.
    SigninRoot { username: String, password: String },
    /// Authenticate the connection with a token.
    Authenticate(String),
    /// Begin a transaction; the queries after it run inside.
    Begin,
    /// Send a script. Its replies are one per statement.
    Query(Request),
    /// Fail where a statement of the last script failed.
    Check,
    /// Commit the transaction.
    Commit,
    /// Read the reply to the statement of this number, counted from zero.
    Take(usize),
}

/// What a step asks.
#[verifier::ext_equal]
pub enum StepView {
    UseNamespace(Seq<char>),
    UseDatabase(Seq<char>),
    SigninRoot { username: Seq<char>, password: Seq<char> },
    Authenticate(Seq<char>),
    Begin,
    Query(RequestView),
    Check,
    Commit,
    Take(usize),
}

impl View for Step {
    type V = StepView;

    open spec fn view(&self) -> StepView {
        match *self {
            Step::UseNamespace(namespace) => StepView::UseNamespace(namespace@),
            Step::UseDatabase(database) => StepView::UseDatabase(database@),
            Step::SigninRoot { username, password } => StepView::SigninRoot {
                username: username@,
                password: password@,
            },
            Step::Authenticate(token) => StepView::Authenticate(token@),
            Step::Begin => StepView::Begin,
            Step::Query(request) => StepView::Query(request@),
            Step::Check => StepView::Check,
            Step::Commit => StepView::Commit,
            Step::Take(statement) => StepView::Take(statement),
        }
    }
}

/// The steps of one operation.
#[derive(Debug, PartialEq)]
pub struct Plan {
    pub steps: Vec<Step>,
}

impl View for Plan {
    type V = Seq<StepView>;

    open spec fn view(&self) -> Seq<StepView> {
        self.steps@.map_values(|step: Step| step@)
    }
}

/// A transaction is committed only right after the replies of its script were checked.
pub open spec fn commits_checked(steps: Seq<StepView>) -> bool {
    forall|c: int|
        0 <= c < steps.len() && #[trigger] steps[c] is Commit ==> {
            &&& c >= 3
            &&& steps[c - 3] is Begin
            &&& steps[c - 2] is Query
            &&& steps[c - 1] is Check
        }
}

/// A reply is read only after the script that it answers was sent and its replies checked.
pub open spec fn reads_checked(steps: Seq<StepView>) -> bool {
    forall|t: int|
        0 <= t < steps.len() && #[trigger] steps[t] is Take ==> exists|k: int|
            0 < k < t && #[trigger] steps[k] is Check && steps[k - 1] is Query
}

/// An operation under way.
pub struct Run {
    plan: Plan,
    done: usize,
    failed: bool,
}

impl Run {
    /// All the steps of the operation.
    pub closed spec fn steps(&self) -> Seq<StepView> {
        self.plan@
    }

    /// How many of them have succeeded.
    pub closed spec fn done(&self) -> nat {
        self.done as nat
    }

    /// One of them has failed.
    pub closed spec fn failed(&self) -> bool {
        self.failed
    }

    #[verifier::type_invariant]
    spec fn in_bounds(&self) -> bool {
        self.done <= self.plan.steps@.len()
    }

    /// There is a step to perform.
    pub open spec fn under_way(&self) -> bool {
        !self.failed() && self.done() < self.steps().len()
    }

    /// Starts an operation at its first step.
    pub fn new(plan: Plan) -> (run: Run)
        ensures
            run.steps() == plan@,
            run.done() == 0,
            !run.failed(),
    {
        Run { plan, done: 0, failed: false }
    }

    /// The step to perform next: the first that has not succeeded, unless it failed.
    pub fn current(&self) -> (step: Option<&Step>)
        ensures
            step is Some <==> self.under_way(),
            step is Some <==> !self.failed() && self.done() < self.steps().len(),
            step matches Some(step) ==> step@ == self.steps()[self.done() as int],
            self.done() <= self.steps().len(),
    {
        proof {
            use_type_invariant(&*self);
        }
        if !self.failed && self.done < self.plan.steps.len() {
            Some(&self.plan.steps[self.done])
        } else {
            None
        }
    }

    /// Records how the current step went. A failure is handed back, and ends the operation.
    pub fn advance<E>(&mut self, outcome: Result<(), E>) -> (result: Result<(), E>)
        requires
            old(self).under_way(),
        ensures
            result == outcome,
            final(self).steps() == old(self).steps(),
            final(self).done() == old(self).done() + (if outcome is Ok { 1nat } else { 0 }),
            final(self).failed() == (outcome is Err),
    {
        proof {
            use_type_invariant(&*self);
        }
        if outcome.is_ok() {
            assert(self.done < self.plan.steps.len());
            self.done = self.done + 1;
        } else {
            self.failed = true;
        }
        outcome
    }

    /// The number of the current step, counted from zero; of the failed one after a failure.
    pub fn position(&self) -> (position: usize)
        ensures
            position == self.done(),
    {
        self.done
    }

    /// Every step has succeeded.
    pub fn finished(&self) -> (finished: bool)
        ensures
            finished <==> !self.failed() && self.done() == self.steps().len(),
    {
        proof {
            use_type_invariant(&*self);
        }
        !self.failed && self.done == self.plan.steps.len()
    }
}

/// When a run of an operation that checks before it commits comes to commit, its transaction
/// was begun, its script sent and the replies checked, all with success.
pub proof fn commit_comes_after_success(run: &Run)
    requires
        commits_checked(run.steps()),
        run.under_way(),
        run.steps()[run.done() as int] is Commit,
    ensures
        run.done() >= 3,
        run.steps()[run.done() - 3] is Begin,
        run.steps()[run.done() - 2] is Query,
        run.steps()[run.done() - 1] is Check,
{
}

/// The steps of a plan are asked in their order, and each asks what it holds, whole.
pub proof fn steps_ask_what_they_hold(plan: Plan, i: int)
    requires
        0 <= i < plan.steps@.len(),
    ensures
        plan@.len() == plan.steps@.len(),
        match plan.steps@[i] {
            Step::UseNamespace(name) => plan@[i] == StepView::UseNamespace(name@),
            Step::UseDatabase(name) => plan@[i] == StepView::UseDatabase(name@),
            Step::SigninRoot { username, password } => plan@[i] == (StepView::SigninRoot {
                username: username@,
                password: password@,
            }),
            Step::Authenticate(token) => plan@[i] == StepView::Authenticate(token@),
            Step::Begin => plan@[i] is Begin,
            Step::Query(request) => {
                &&& plan@[i] is Query
                &&& plan@[i]->Query_0.text == request.text@
                &&& plan@[i]->Query_0.bindings == bindings_view(request.bindings@)
            },
            Step::Check => plan@[i] is Check,
            Step::Commit => plan@[i] is Commit,
            Step::Take(statement) => plan@[i] == StepView::Take(statement),
        },
{
}

/// A run starts with the first step of its plan, and one without steps is over at once.
pub proof fn run_starts_at_the_first_step(plan: Plan, run: Run, step: Option<&Step>, over: bool)
    requires
        call_ensures(Run::new, (plan,), run),
        call_ensures(Run::current, (&run,), step),
        call_ensures(Run::finished, (&run,), over),
    ensures
        plan.steps@.len() > 0 ==> step is Some && step->0@ == plan.steps@[0]@ && !over,
        plan.steps@.len() == 0 ==> step is None && over,
{
}

/// A run whose step failed has no step to perform and is never finished, however many are left.
pub proof fn failed_run_goes_no_further(run: Run, step: Option<&Step>, over: bool)
    requires
        run.failed(),
        call_ensures(Run::current, (&run,), step),
        call_ensures(Run::finished, (&run,), over),
    ensures
        step is None,
        !over,
{
}

/// A run without failure has a step to perform until all have succeeded, and that step is the
/// one whose number is the count of those that have.
pub proof fn steps_are_performed_in_order(run: Run, step: Option<&Step>, over: bool, at: usize)
    requires
        !run.failed(),
        call_ensures(Run::current, (&run,), step),
        call_ensures(Run::finished, (&run,), over),
        call_ensures(Run::position, (&run,), at),
    ensures
        over <==> at == run.steps().len(),
        step is Some <==> !over,
        step matches Some(step) ==> at < run.steps().len() && step@ == run.steps()[at as int],
{
}

} // verus!
