//! Tasks whose lifecycle phase is carried by their type.
//!
//! A [`Task`] is parameterised by a marker type that names its phase. Each
//! transition consumes the task and returns it under the next marker, so a
//! call that the phase graph does not allow has no method to resolve to.

use std::marker::PhantomData;
use vstd::prelude::*;

verus! {

/// The vertices of the phase graph.
#[derive(Clone, Copy, Debug, PartialEq, Eq, Structural)]
pub enum Phase {
    Ready,
    Running,
    Paused,
}

/// The phase in which every task begins.
pub open spec fn initial_phase() -> Phase {
    Phase::Ready
}

/// The edges of the phase graph: `Ready -> Running -> Paused`.
pub open spec fn has_edge(from: Phase, to: Phase) -> bool {
    ||| from == Phase::Ready && to == Phase::Running
    ||| from == Phase::Running && to == Phase::Paused
}

/// A phase without an outgoing edge.
pub open spec fn is_terminal(phase: Phase) -> bool {
    forall|to: Phase| !has_edge(phase, to)
}

/// A type-level tag that stands for one vertex of the phase graph.
pub trait Marker {
    /// The vertex this tag stands for.
    spec fn phase_spec() -> Phase;

    /// The vertex this tag stands for, as a value.
    fn phase() -> (p: Phase)
        ensures
            p == Self::phase_spec(),
    ;
}

/// Tag of a task that has been created and not yet started. A tag takes
/// no space and no task ever holds a value of one: it is used as a type only.
#[derive(Debug)]
pub struct Ready;

/// Tag of a task that is being worked on.
#[derive(Debug)]
pub struct Running;

/// Tag of a task that has been suspended.
#[derive(Debug)]
pub struct Paused;

impl Marker for Ready {
    open spec fn phase_spec() -> Phase {
        Phase::Ready
    }

    fn phase() -> Phase {
        Phase::Ready
    }
}

impl Marker for Running {
    open spec fn phase_spec() -> Phase {
        Phase::Running
    }

    fn phase() -> Phase {
        Phase::Running
    }
}

impl Marker for Paused {
    open spec fn phase_spec() -> Phase {
        Phase::Paused
    }

    fn phase() -> Phase {
        Phase::Paused
    }
}

/// What a task is, apart from how it is stored: its name and its phase.
pub struct TaskView {
    pub name: Seq<char>,
    pub phase: Phase,
}

/// A named unit of work in phase `S`.
#[derive(Debug)]
pub struct Task<S> {
    name: String,
    state: PhantomData<S>,
}

impl<S: Marker> View for Task<S> {
    type V = TaskView;

    closed spec fn view(&self) -> TaskView {
        TaskView { name: self.name@, phase: S::phase_spec() }
    }
}

impl<S: Marker> Task<S> {
    /// A task's phase is the one its type names: it is fixed when the task
    /// is typed, and no operation on a `Task<S>` can change it.
    pub proof fn law_phase_follows_type(&self)
        ensures
            self@.phase == S::phase_spec(),
    {
    }

    /// The task's name. Available in every phase; the task stays usable.
    pub fn name(&self) -> (name: &str)
        ensures
            name@ == self@.name,
    {
        self.name.as_str()
    }

    /// The task's phase, read off its type.
    pub fn phase(&self) -> (p: Phase)
        ensures
            p == self@.phase,
    {
        S::phase()
    }
}

impl Task<Ready> {
    /// Creates a task. This is the only constructor, and it yields the
    /// initial phase.
    pub fn new(name: &str) -> (task: Task<Ready>)
        ensures
            task@.name == name@,
            task@.phase == initial_phase(),
    {
        Task { name: name.to_owned(), state: PhantomData }
    }

    /// Moves the task along the edge `Ready -> Running`.
    pub fn start(self) -> (task: Task<Running>)
        ensures
            task@.name == self@.name,
            task@.phase == Phase::Running,
            has_edge(self@.phase, task@.phase),
    {
        Task { name: self.name, state: PhantomData }
    }
}

impl Task<Running> {
    /// Moves the task along the edge `Running -> Paused`.
    pub fn pause(self) -> (task: Task<Paused>)
        ensures
            task@.name == self@.name,
            task@.phase == Phase::Paused,
            has_edge(self@.phase, task@.phase),
    {
        Task { name: self.name, state: PhantomData }
    }
}

/// From any phase at most one transition is on offer, so a caller never has
/// to choose between destinations.
pub proof fn law_single_successor(from: Phase, a: Phase, b: Phase)
    requires
        has_edge(from, a),
        has_edge(from, b),
    ensures
        a == b,
{
}

/// No edge leads into the initial phase: a task that has left it cannot come
/// back, and construction is the only way into it.
pub proof fn law_initial_has_no_entry(from: Phase)
    ensures
        !has_edge(from, initial_phase()),
{
}

/// No edge is a loop, and no edge has a reverse: the graph is a chain.
pub proof fn law_edges_point_forward(from: Phase, to: Phase)
    requires
        has_edge(from, to),
    ensures
        from != to,
        !has_edge(to, from),
{
}

/// `Paused` is where the chain ends; the other two phases have a way out.
pub proof fn law_only_paused_is_terminal(phase: Phase)
    ensures
        is_terminal(phase) <==> phase == Phase::Paused,
{
    if phase == Phase::Ready {
        assert(has_edge(phase, Phase::Running));
    }
    if phase == Phase::Running {
        assert(has_edge(phase, Phase::Paused));
    }
}

} // verus!
