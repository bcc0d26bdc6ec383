//! The outcome of a run of tasks: which of them succeeded and which failed.

use vstd::prelude::*;
use crate::strings::texts;

verus! {

/// The names of the tasks that succeeded and of those that failed, each
/// list in the order in which the tasks ended.
#[derive(Debug)]
pub struct Status {
    pub succeeded: Vec<String>,
    pub failed: Vec<String>,
}

/// The contents of a `Status`.
pub ghost struct StatusView {
    pub succeeded: Seq<Seq<char>>,
    pub failed: Seq<Seq<char>>,
}

impl View for Status {
    type V = StatusView;

    open spec fn view(&self) -> StatusView {
        StatusView { succeeded: texts(self.succeeded@), failed: texts(self.failed@) }
    }
}

/// One line for each of `targets`: two spaces, then the name.
pub open spec fn listed(targets: Seq<Seq<char>>) -> Seq<char>
    decreases targets.len(),
{
    if targets.len() == 0 {
        Seq::empty()
    } else {
        listed(targets.drop_last()) + "  "@ + targets.last() + "\n"@
    }
}

impl StatusView {
    /// The report: an empty line, the tasks that succeeded under their
    /// heading, then the tasks that failed under theirs.
    pub open spec fn report(self) -> Seq<char> {
        "\nBuild succeeded for targets:\n"@ + listed(self.succeeded)
            + "Build failed for targets:\n"@ + listed(self.failed)
    }
}

/// Appends one line for each of `targets` to `report`.
fn list_targets(report: &mut String, targets: &Vec<String>)
    ensures
        final(report)@ == old(report)@ + listed(texts(targets@)),
{
    let ghost all = texts(targets@);
    let ghost start = report@;
    let mut i: usize = 0;
    proof {
        assert(all.take(0) =~= Seq::<Seq<char>>::empty());
        assert(report@ =~= start + listed(all.take(0)));
    }
    while i < targets.len()
        invariant
            i <= targets.len(),
            all == texts(targets@),
            report@ == start + listed(all.take(i as int)),
        decreases targets.len() - i,
    {
        report.append("  ");
        report.append(targets[i].as_str());
        report.append("\n");
        proof {
            let done = all.take(i + 1);
            assert(done.drop_last() =~= all.take(i as int));
            assert(done.last() == targets@[i as int]@);
            assert(report@ =~= start + listed(done));
        }
        i = i + 1;
    }
    proof {
        assert(all.take(targets.len() as int) =~= all);
    }
}

impl Status {
    /// A status in which no task has ended yet.
    pub fn new() -> (status: Status)
        ensures
            status@.succeeded.len() == 0,
            status@.failed.len() == 0,
    {
        Status { succeeded: Vec::new(), failed: Vec::new() }
    }

    /// Notes that the task `target` succeeded.
    pub fn success(&mut self, target: &str)
        ensures
            final(self)@.succeeded == old(self)@.succeeded.push(target@),
            final(self)@.failed == old(self)@.failed,
    {
        self.succeeded.push(String::from_str(target));
        assert(texts(self.succeeded@) =~= texts(old(self).succeeded@).push(target@));
    }

    /// Notes that the task `target` failed.
    pub fn fail(&mut self, target: &str)
        ensures
            final(self)@.failed == old(self)@.failed.push(target@),
            final(self)@.succeeded == old(self)@.succeeded,
    {
        self.failed.push(String::from_str(target));
        assert(texts(self.failed@) =~= texts(old(self).failed@).push(target@));
    }

    /// Whether no task has failed.
    pub fn ok(&self) -> (ok: bool)
        ensures
            ok == (self@.failed.len() == 0),
    {
        self.failed.len() == 0
    }

    /// The report on the tasks that have ended.
    pub fn report(&self) -> (report: String)
        ensures
            report@ == self@.report(),
    {
        let mut report = String::from_str("\nBuild succeeded for targets:\n");
        list_targets(&mut report, &self.succeeded);
        report.append("Build failed for targets:\n");
        list_targets(&mut report, &self.failed);
        report
    }
}

} // verus!
