//! What a whole batch run comes to.
//!
//! A driver is faithful when it hands the run each line in turn, asks the
//! oracle exactly when the run requests it, and hands the reply back before
//! it reads on. This file follows such a driver through an input and states
//! which names it has written out and which it has put to the oracle.

use crate::batch::{step_spec, BatchRunView, EventView, Failure, RequestView, StepView};
use crate::lookup::needs_oracle;
use crate::normalize::canonical;
use vstd::prelude::*;

verus! {

/// One line of the input together with what the oracle replies when it is
/// asked about that line's name: `Some` of its answer, `None` where it fails.
/// For a line about which the oracle is not asked the reply plays no part.
pub ghost struct Turn {
    pub line: Seq<char>,
    pub reply: Option<bool>,
}

/// What a driver has to show for the input so far.
pub ghost struct Trace {
    /// Where the run stands.
    pub run: BatchRunView,
    /// The names written out, first to last.
    pub written: Seq<Seq<char>>,
    /// The names put to the oracle, first to last.
    pub asked: Seq<Seq<char>>,
}

/// The event into which a driver turns the oracle's reply.
pub open spec fn reply_event(reply: Option<bool>) -> EventView {
    match reply {
        Some(available) => EventView::Answer(available),
        None => EventView::OracleFailed,
    }
}

/// `written` with what `step` says is to be written out.
pub open spec fn after_output(written: Seq<Seq<char>>, step: StepView) -> Seq<Seq<char>> {
    match step.output {
        Some(name) => written.push(name),
        None => written,
    }
}

/// One turn of a faithful driver: the line goes to the run; if the run then
/// requests a query, that name goes to the oracle and the reply goes back to
/// the run.
pub open spec fn take_turn(before: Trace, turn: Turn) -> Trace {
    let read = step_spec(before.run, EventView::Line(turn.line));
    let written = after_output(before.written, read);
    match read.request {
        RequestView::Ask(name) => {
            let answered = step_spec(read.run, reply_event(turn.reply));
            Trace {
                run: answered.run,
                written: after_output(written, answered),
                asked: before.asked.push(name),
            }
        },
        _ => Trace { run: read.run, written, asked: before.asked },
    }
}

/// A faithful driver's trace after the turns `turns`, from a fresh run.
pub open spec fn drive(turns: Seq<Turn>) -> Trace
    decreases turns.len(),
{
    if turns.len() == 0 {
        Trace { run: BatchRunView::Reading, written: Seq::empty(), asked: Seq::empty() }
    } else {
        take_turn(drive(turns.drop_last()), turns.last())
    }
}

/// The canonical name of a turn's line.
pub open spec fn name_of() -> spec_fn(Turn) -> Seq<char> {
    |turn: Turn| canonical(turn.line)
}

/// The turns whose name is long enough for the oracle.
pub open spec fn is_asked() -> spec_fn(Turn) -> bool {
    |turn: Turn| needs_oracle(canonical(turn.line))
}

/// The turns whose name is long enough for the oracle and found available.
pub open spec fn is_available() -> spec_fn(Turn) -> bool {
    |turn: Turn| needs_oracle(canonical(turn.line)) && turn.reply == Some(true)
}

/// Whether the oracle is asked in this turn and fails.
pub open spec fn fails(turn: Turn) -> bool {
    needs_oracle(canonical(turn.line)) && turn.reply is None
}

/// The names of the turns that `keep` accepts, in the order of the turns.
pub open spec fn names_where(turns: Seq<Turn>, keep: spec_fn(Turn) -> bool) -> Seq<Seq<char>> {
    turns.filter(keep).map_values(name_of())
}

/// One more turn adds its name at the end if `keep` accepts it, and nothing
/// otherwise.
pub proof fn lemma_names_where_push(turns: Seq<Turn>, turn: Turn, keep: spec_fn(Turn) -> bool)
    ensures
        names_where(turns.push(turn), keep) == if keep(turn) {
            names_where(turns, keep).push(canonical(turn.line))
        } else {
            names_where(turns, keep)
        },
{
    turns.lemma_filter_push(turn, keep);
    if keep(turn) {
        assert(turns.filter(keep).push(turn).map_values(name_of()) =~= turns.filter(
            keep,
        ).map_values(name_of()).push(canonical(turn.line)));
    }
}

/// No name comes of no turn.
pub proof fn lemma_names_where_empty(keep: spec_fn(Turn) -> bool)
    ensures
        names_where(Seq::<Turn>::empty(), keep) == Seq::<Seq<char>>::empty(),
{
    reveal(Seq::filter);
    assert(Seq::<Turn>::empty().filter(keep).map_values(name_of()) =~= Seq::<
        Seq<char>,
    >::empty());
}

/// While the oracle answers every query, a faithful driver has written out
/// exactly the names found available and has asked about exactly the names
/// that are long enough, each as often and in the order in which its line came;
/// and the run wants the next line.
pub proof fn lemma_drive_while_oracle_answers(turns: Seq<Turn>)
    requires
        forall|i: int| 0 <= i < turns.len() ==> !fails(#[trigger] turns[i]),
    ensures
        drive(turns).run == BatchRunView::Reading,
        drive(turns).written == names_where(turns, is_available()),
        drive(turns).asked == names_where(turns, is_asked()),
    decreases turns.len(),
{
    if turns.len() == 0 {
        lemma_names_where_empty(is_available());
        lemma_names_where_empty(is_asked());
    } else {
        let before = turns.drop_last();
        let turn = turns.last();
        assert(forall|i: int| 0 <= i < before.len() ==> before[i] == turns[i]);
        lemma_drive_while_oracle_answers(before);
        assert(turns =~= before.push(turn));
        lemma_names_where_push(before, turn, is_available());
        lemma_names_where_push(before, turn, is_asked());
        assert(!fails(turn));
    }
}

/// Once the run has failed, further turns change nothing: nothing more is
/// written out and the oracle is not asked again.
pub proof fn lemma_failed_run_stays(turns: Seq<Turn>, k: int)
    requires
        0 <= k <= turns.len(),
        drive(turns.take(k)).run is Failed,
    ensures
        drive(turns) == drive(turns.take(k)),
    decreases turns.len() - k,
{
    if k == turns.len() {
        assert(turns.take(k) =~= turns);
    } else {
        assert(turns.take(k + 1).drop_last() =~= turns.take(k));
        lemma_failed_run_stays(turns, k + 1);
    }
}

/// Where the oracle fails for the first time in turn `k`, a faithful driver
/// has written out the names found available before that turn and no others,
/// has asked about the names that are long enough up to and including that
/// turn and about none after it, and the run has failed on the oracle.
pub proof fn lemma_drive_halts_at_first_failure(turns: Seq<Turn>, k: int)
    requires
        0 <= k < turns.len(),
        fails(turns[k]),
        forall|i: int| 0 <= i < k ==> !fails(#[trigger] turns[i]),
    ensures
        drive(turns).run == BatchRunView::Failed(Failure::Oracle),
        drive(turns).written == names_where(turns.take(k), is_available()),
        drive(turns).asked == names_where(turns.take(k + 1), is_asked()),
{
    let before = turns.take(k);
    let upto = turns.take(k + 1);
    lemma_drive_while_oracle_answers(before);
    assert(upto.drop_last() =~= before);
    assert(upto =~= before.push(turns[k]));
    lemma_names_where_push(before, turns[k], is_asked());
    lemma_failed_run_stays(turns, k + 1);
}

} // verus!
