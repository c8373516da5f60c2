//! What a command line asks of the harness, and the lines printed around a run.

use crate::engine::{engine_named, Engine};
use vstd::prelude::*;
use vstd::string::*;

verus! {

/// The usage line for a harness started as `program`.
pub open spec fn usage_text(program: Seq<char>) -> Seq<char> {
    "usage: "@ + program + " [wasmtime|wasm3|wasmi: string]"@
}

/// The line that announces a run under the engine called `name`.
pub open spec fn banner_text(name: Seq<char>) -> Seq<char> {
    "Running Coremark 1.0 using "@ + name + "... [should take 12..20 seconds]"@
}

/// The usage line for a harness started as `program`.
pub fn usage(program: &str) -> (line: String)
    ensures
        line@ == usage_text(program@),
{
    let mut line = String::from_str("usage: ");
    line.append(program);
    line.append(" [wasmtime|wasm3|wasmi: string]");
    line
}

/// The line that announces a run under the engine called `name`. It is made
/// from the name as given, whether or not an engine has that name.
pub fn banner(name: &str) -> (line: String)
    ensures
        line@ == banner_text(name@),
{
    let mut line = String::from_str("Running Coremark 1.0 using ");
    line.append(name);
    line.append("... [should take 12..20 seconds]");
    line
}

/// What is left to do once the banner, if any, is out.
#[derive(Clone, Debug, PartialEq, Eq)]
pub enum Task {
    /// Run the guest under this engine and report its score.
    Run(Engine),
    /// Print this usage line.
    ShowUsage(String),
}

/// What the harness does for one command line.
#[derive(Clone, Debug, PartialEq, Eq)]
pub struct Request {
    /// The line to print first, where a run is announced.
    pub banner: Option<String>,
    /// What to do then.
    pub task: Task,
}

/// A [`Task`] with its line as a sequence of characters.
pub enum TaskView {
    Run(Engine),
    ShowUsage(Seq<char>),
}

/// A [`Request`] with its lines as sequences of characters.
pub struct RequestView {
    pub banner: Option<Seq<char>>,
    pub task: TaskView,
}

impl View for Task {
    type V = TaskView;

    open spec fn view(&self) -> TaskView {
        match self {
            Task::Run(engine) => TaskView::Run(*engine),
            Task::ShowUsage(line) => TaskView::ShowUsage(line@),
        }
    }
}

impl View for Request {
    type V = RequestView;

    open spec fn view(&self) -> RequestView {
        RequestView {
            banner: match self.banner {
                Some(line) => Some(line@),
                None => None,
            },
            task: self.task@,
        }
    }
}

/// The request that the arguments `args` make, the program's own name first.
///
/// Exactly one argument after the program's name names an engine. The run is
/// announced under that name before the name is looked up, so an unknown name
/// is announced too and then answered with the usage line. Any other number of
/// arguments is answered with the usage line alone.
pub open spec fn request_for(args: Seq<Seq<char>>) -> RequestView
    recommends
        args.len() > 0,
{
    if args.len() == 2 {
        RequestView {
            banner: Some(banner_text(args[1])),
            task: match engine_named(args[1]) {
                Some(engine) => TaskView::Run(engine),
                None => TaskView::ShowUsage(usage_text(args[0])),
            },
        }
    } else {
        RequestView { banner: None, task: TaskView::ShowUsage(usage_text(args[0])) }
    }
}

/// Reads the command line `args`, the program's own name first.
pub fn interpret(args: &Vec<String>) -> (request: Request)
    requires
        args.len() > 0,
    ensures
        request@ == request_for(args.deep_view()),
{
    if args.len() == 2 {
        let name = args[1].as_str();
        let task = match Engine::from_name(name) {
            Some(engine) => Task::Run(engine),
            None => Task::ShowUsage(usage(args[0].as_str())),
        };
        Request { banner: Some(banner(name)), task }
    } else {
        Request { banner: None, task: Task::ShowUsage(usage(args[0].as_str())) }
    }
}

} // verus!
