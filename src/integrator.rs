use vstd::prelude::*;

verus! {

/// What the scene did with the ray of the current bounce.
#[derive(Clone, Copy, Debug, PartialEq, Eq, Structural)]
pub enum Bounce {
    /// The ray hit nothing and escapes to the sky.
    Missed,
    /// The ray hit a surface that absorbed it.
    Absorbed,
    /// The ray hit a surface and scattered into a new ray.
    Scattered,
}

/// How a path ends. Its color is black, or the sky's color at the escaping
/// ray's direction multiplied by the attenuations of all the scatters, the
/// first scatter's outermost.
#[derive(Clone, Copy, Debug, PartialEq, Eq, Structural)]
pub enum Ending {
    Black,
    Sky,
}

/// What the driver of a path does next.
#[derive(Clone, Copy, Debug, PartialEq, Eq, Structural)]
pub enum Step {
    /// Cast the current ray into the scene and report the bounce.
    Trace,
    /// Stop: the path's color is settled.
    Finish(Ending),
}

/// The remaining depth and the ending, if any, after a path that started
/// with `depth` bounces to spend has seen `events`. Events after the path has
/// ended are ignored.
pub open spec fn run(depth: int, events: Seq<Bounce>) -> (int, Option<Ending>)
    decreases events.len(),
{
    if events.len() == 0 {
        (depth, None)
    } else {
        let (d, e) = run(depth, events.drop_last());
        if e is Some || d <= 0 {
            (d, e)
        } else {
            match events.last() {
                Bounce::Missed => (d, Some(Ending::Sky)),
                Bounce::Absorbed => (d, Some(Ending::Black)),
                Bounce::Scattered => (d - 1, None),
            }
        }
    }
}

/// How the path has ended after `events`, or `None` while it goes on. A path
/// with no depth left is black.
pub open spec fn ending(depth: int, events: Seq<Bounce>) -> Option<Ending> {
    let (d, e) = run(depth, events);
    if e is Some {
        e
    } else if d <= 0 {
        Some(Ending::Black)
    } else {
        None
    }
}

/// The decisions of the recursive color estimate, one bounce at a time: a
/// path starts with a depth budget, each scatter spends one unit of it, an
/// escape ends it at the sky, and an absorption or an empty budget ends it
/// black.
pub struct PathTracer {
    pub remaining: i32,
    pub ended: Option<Ending>,
    pub max_depth: Ghost<int>,
    pub history: Ghost<Seq<Bounce>>,
}

impl PathTracer {
    pub open spec fn wf(&self) -> bool {
        run(self.max_depth@, self.history@) == (self.remaining as int, self.ended)
    }

    /// How the path has ended so far.
    pub open spec fn outcome(&self) -> Option<Ending> {
        ending(self.max_depth@, self.history@)
    }

    /// A path that may scatter `max_depth` times.
    pub fn new(max_depth: i32) -> (r: PathTracer)
        ensures
            r.wf(),
            r.max_depth@ == max_depth as int,
            r.history@ == Seq::<Bounce>::empty(),
    {
        PathTracer {
            remaining: max_depth,
            ended: None,
            max_depth: Ghost(max_depth as int),
            history: Ghost(Seq::empty()),
        }
    }

    /// The next thing to do: trace while the path goes on, else finish with
    /// its ending.
    pub fn next_step(&self) -> (r: Step)
        requires
            self.wf(),
        ensures
            r == (match self.outcome() {
                Some(e) => Step::Finish(e),
                None => Step::Trace,
            }),
    {
        match self.ended {
            Some(e) => Step::Finish(e),
            None => {
                if self.remaining <= 0 {
                    Step::Finish(Ending::Black)
                } else {
                    Step::Trace
                }
            },
        }
    }

    /// Reports what the scene did with the ray just traced.
    pub fn record(&mut self, bounce: Bounce)
        requires
            old(self).wf(),
            old(self).outcome() is None,
        ensures
            final(self).wf(),
            final(self).max_depth == old(self).max_depth,
            final(self).history@ == old(self).history@.push(bounce),
    {
        let ghost events = self.history@.push(bounce);
        assert(events.drop_last() =~= self.history@);
        match bounce {
            Bounce::Missed => {
                self.ended = Some(Ending::Sky);
            },
            Bounce::Absorbed => {
                self.ended = Some(Ending::Black);
            },
            Bounce::Scattered => {
                self.remaining = self.remaining - 1;
            },
        }
        self.history = Ghost(events);
    }
}

/// A path with no depth to spend is black, whatever the scene does.
pub proof fn no_depth_is_black(depth: int, events: Seq<Bounce>)
    requires
        depth <= 0,
    ensures
        ending(depth, events) == Some(Ending::Black),
    decreases events.len(),
{
    stays_unended_without_depth(depth, events);
}

proof fn stays_unended_without_depth(depth: int, events: Seq<Bounce>)
    requires
        depth <= 0,
    ensures
        run(depth, events) == (depth, Option::<Ending>::None),
    decreases events.len(),
{
    if events.len() > 0 {
        stays_unended_without_depth(depth, events.drop_last());
    }
}

/// Each bounce that does not end the path spends one unit of depth.
proof fn depth_spent(depth: int, events: Seq<Bounce>)
    ensures
        run(depth, events).1 is None ==> run(depth, events).0 <= 0 || run(depth, events).0
            == depth - events.len(),
    decreases events.len(),
{
    if events.len() > 0 {
        depth_spent(depth, events.drop_last());
    }
}

/// A path ends after at most `depth` bounces: once the scene has reported
/// that many, its color is settled.
pub proof fn path_ends_within_depth(depth: int, events: Seq<Bounce>)
    requires
        events.len() >= depth,
    ensures
        ending(depth, events) is Some,
{
    depth_spent(depth, events);
}

} // verus!
