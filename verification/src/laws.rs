//! Laws of the session model: what holds of repeated navigation, of the
//! registry's numbering, of partial refactoring, and of the rejection paths,
//! proved once and for all states.

use vstd::prelude::*;

verus! {

use crate::model::EffectSpec;
use crate::model::ShellModel;
use crate::model::back_model;
use crate::model::delete_step;
use crate::model::forward_model;
use crate::model::list_line;
use crate::model::list_lines;
use crate::model::mkdir_step;
use crate::model::quiet;
use crate::model::refactor_step;
use crate::model::rmdir_step;
use crate::model::step_spec;
use crate::model::told;
use crate::model::CommandModel;
use crate::text::dec_rep;
use crate::text::joined;
use crate::text::parsed_index;
use crate::text::tokens_of;

// ---------------------------------------------------------------------------
// Iterated dispatch
// ---------------------------------------------------------------------------

/// The state after dispatching the same line `n` times.
pub open spec fn steps(m: ShellModel, line: Seq<char>, n: nat) -> ShellModel
    decreases n,
{
    if n == 0 {
        m
    } else {
        step_spec(steps(m, line, (n - 1) as nat), line).state
    }
}

/// The state after stepping backward through the history `n` times.
pub open spec fn back_many(m: ShellModel, n: nat) -> ShellModel
    decreases n,
{
    if n == 0 {
        m
    } else {
        back_model(back_many(m, (n - 1) as nat))
    }
}

/// The state after stepping forward through the history `n` times.
pub open spec fn forward_many(m: ShellModel, n: nat) -> ShellModel
    decreases n,
{
    if n == 0 {
        m
    } else {
        forward_model(forward_many(m, (n - 1) as nat))
    }
}

proof fn lemma_step_back_line(x: ShellModel, line: Seq<char>)
    requires
        tokens_of(line) == seq!["<-"@],
    ensures
        step_spec(x, line) == quiet(back_model(x)),
{
    reveal_strlit("<-");
    reveal_strlit("dir");
    reveal_strlit("mkdir");
    reveal_strlit("rmdir");
    reveal_strlit("help");
}

proof fn lemma_step_forward_line(x: ShellModel, line: Seq<char>)
    requires
        tokens_of(line) == seq!["->"@],
    ensures
        step_spec(x, line) == quiet(forward_model(x)),
{
    reveal_strlit("->");
    reveal_strlit("<-");
    reveal_strlit("dir");
    reveal_strlit("mkdir");
    reveal_strlit("rmdir");
    reveal_strlit("help");
    assert("->"@[0] == '-');
    assert("<-"@[0] == '<');
}

proof fn lemma_back_many(m: ShellModel, n: nat)
    requires
        m.wf(),
    ensures
        back_many(m, n).wf(),
        back_many(m, n).history == m.history,
        back_many(m, n).registry == m.registry,
        back_many(m, n).env == m.env,
        back_many(m, n).cursor == if n >= m.cursor {
            0int
        } else {
            m.cursor - n
        },
        back_many(m, n).location == m.history[back_many(m, n).cursor],
    decreases n,
{
    if n > 0 {
        lemma_back_many(m, (n - 1) as nat);
    }
}

proof fn lemma_forward_many(m: ShellModel, n: nat)
    requires
        m.wf(),
    ensures
        forward_many(m, n).wf(),
        forward_many(m, n).history == m.history,
        forward_many(m, n).registry == m.registry,
        forward_many(m, n).env == m.env,
        forward_many(m, n).cursor == if m.cursor + n >= m.history.len() {
            m.history.len() - 1
        } else {
            m.cursor + n
        },
        forward_many(m, n).location == m.history[forward_many(m, n).cursor],
    decreases n,
{
    if n > 0 {
        lemma_forward_many(m, (n - 1) as nat);
    }
}

proof fn lemma_steps_back_eq(m: ShellModel, line: Seq<char>, n: nat)
    requires
        tokens_of(line) == seq!["<-"@],
    ensures
        steps(m, line, n) == back_many(m, n),
    decreases n,
{
    if n > 0 {
        lemma_steps_back_eq(m, line, (n - 1) as nat);
        lemma_step_back_line(back_many(m, (n - 1) as nat), line);
    }
}

proof fn lemma_steps_forward_eq(m: ShellModel, line: Seq<char>, n: nat)
    requires
        tokens_of(line) == seq!["->"@],
    ensures
        steps(m, line, n) == forward_many(m, n),
    decreases n,
{
    if n > 0 {
        lemma_steps_forward_eq(m, line, (n - 1) as nat);
        lemma_step_forward_line(forward_many(m, (n - 1) as nat), line);
    }
}

/// Dispatching a backward-navigation line at least as often as the cursor
/// is deep lands on the oldest history entry and stays there; every such
/// step prints nothing and requests nothing, so no error is ever reported.
pub proof fn lemma_go_backward_stabilizes(m: ShellModel, line: Seq<char>, n: nat)
    requires
        m.wf(),
        tokens_of(line) == seq!["<-"@],
        n >= m.cursor,
    ensures
        steps(m, line, n).wf(),
        steps(m, line, n).cursor == 0,
        steps(m, line, n).location == m.history[0],
        step_spec(steps(m, line, n), line).state == steps(m, line, n),
        forall|k: nat|
            (#[trigger] step_spec(steps(m, line, k), line)).outputs == Seq::<Seq<char>>::empty()
                && step_spec(steps(m, line, k), line).effect is None,
{
    lemma_steps_back_eq(m, line, n);
    lemma_back_many(m, n);
    lemma_step_back_line(steps(m, line, n), line);
    assert forall|k: nat|
        (#[trigger] step_spec(steps(m, line, k), line)).outputs == Seq::<Seq<char>>::empty()
            && step_spec(steps(m, line, k), line).effect is None by {
        lemma_step_back_line(steps(m, line, k), line);
    }
}

/// Dispatching a forward-navigation line at least as often as entries
/// remain ahead of the cursor lands on the newest history entry — the
/// last-visited location — and stays there; every such step prints nothing
/// and requests nothing, so no error is ever reported.
pub proof fn lemma_go_forward_stabilizes(m: ShellModel, line: Seq<char>, n: nat)
    requires
        m.wf(),
        tokens_of(line) == seq!["->"@],
        m.cursor + n >= m.history.len() - 1,
    ensures
        steps(m, line, n).wf(),
        steps(m, line, n).cursor == m.history.len() - 1,
        steps(m, line, n).location == m.history[m.history.len() - 1],
        step_spec(steps(m, line, n), line).state == steps(m, line, n),
        forall|k: nat|
            (#[trigger] step_spec(steps(m, line, k), line)).outputs == Seq::<Seq<char>>::empty()
                && step_spec(steps(m, line, k), line).effect is None,
{
    lemma_steps_forward_eq(m, line, n);
    lemma_forward_many(m, n);
    lemma_step_forward_line(steps(m, line, n), line);
    assert forall|k: nat|
        (#[trigger] step_spec(steps(m, line, k), line)).outputs == Seq::<Seq<char>>::empty()
            && step_spec(steps(m, line, k), line).effect is None by {
        lemma_step_forward_line(steps(m, line, k), line);
    }
}

// ---------------------------------------------------------------------------
// Registry numbering
// ---------------------------------------------------------------------------

/// The listing numbers its lines contiguously from 1, whatever sequence of
/// creations and deletions produced the registry: there are exactly as many
/// lines as entries, and the line at (0-based) position `i` begins with the
/// decimal rendering of `i + 1`.
pub proof fn lemma_list_numbering(reg: Seq<CommandModel>)
    ensures
        list_lines(reg).len() == reg.len(),
        forall|i: int|
            0 <= i < reg.len() ==> #[trigger] list_lines(reg)[i] == list_line(i, reg[i]),
        forall|i: int|
            0 <= i < reg.len() ==> (#[trigger] list_lines(reg)[i]).take(
                dec_rep((i + 1) as nat).len() as int,
            ) == dec_rep((i + 1) as nat),
{
    assert forall|i: int|
        0 <= i < reg.len() implies (#[trigger] list_lines(reg)[i]).take(
        dec_rep((i + 1) as nat).len() as int,
    ) == dec_rep((i + 1) as nat) by {
        assert(list_line(i, reg[i]).take(dec_rep((i + 1) as nat).len() as int) =~= dec_rep(
            (i + 1) as nat,
        ));
    }
}

/// Deleting a valid position removes exactly that entry: the registry
/// shrinks by one and the remaining entries keep their order; and when no
/// other entry bears the deleted name, the registry — and with it the
/// following listing — nowhere holds that name any more.
pub proof fn lemma_delete_then_list(m: ShellModel, pos: Seq<char>, v: nat)
    requires
        parsed_index(pos) == Some(v),
        1 <= v <= m.registry.len(),
    ensures
        ({
            let m2 = delete_step(m, Some(pos)).state;
            &&& m2.registry.len() == m.registry.len() - 1
            &&& forall|i: int| 0 <= i < v - 1 ==> m2.registry[i] == m.registry[i]
            &&& forall|i: int|
                v - 1 <= i < m2.registry.len() ==> m2.registry[i] == m.registry[i + 1]
            &&& (forall|j: int|
                0 <= j < m.registry.len() && j != v - 1 ==> (#[trigger] m.registry[j]).name
                    != m.registry[v as int - 1].name) ==> (forall|i: int|
                0 <= i < m2.registry.len() ==> (#[trigger] m2.registry[i]).name
                    != m.registry[v as int - 1].name)
        }),
{
}

// ---------------------------------------------------------------------------
// Partial refactoring
// ---------------------------------------------------------------------------

/// Refactoring a valid position with only a new description leaves the
/// definition unchanged, and the other way round; the name and every other
/// entry are untouched; and with neither field given the registry is
/// altogether unchanged while success is still reported.
pub proof fn lemma_refactor_partial(
    m: ShellModel,
    pos: Seq<char>,
    v: nat,
    new_definition: Option<Seq<char>>,
    new_description: Option<Seq<char>>,
)
    requires
        parsed_index(pos) == Some(v),
        1 <= v <= m.registry.len(),
    ensures
        ({
            let out = refactor_step(m, Some(pos), new_definition, new_description);
            let c0 = m.registry[v as int - 1];
            let c1 = out.state.registry[v as int - 1];
            &&& out.state.registry.len() == m.registry.len()
            &&& c1.name == c0.name
            &&& (new_definition is None ==> c1.definition == c0.definition)
            &&& (new_description is None ==> c1.description == c0.description)
            &&& forall|i: int|
                0 <= i < m.registry.len() && i != v - 1 ==> out.state.registry[i] == m.registry[i]
            &&& (new_definition is None && new_description is None ==> out.state == m)
            &&& out.outputs == seq!["Custom command '"@ + c0.name + "' updated."@]
            &&& out.effect is None
        }),
{
    let c0 = m.registry[v as int - 1];
    if new_definition is None && new_description is None {
        assert(m.registry.update(v as int - 1, c0) =~= m.registry);
        assert(refactor_step(m, Some(pos), new_definition, new_description).state =~= m);
    }
}

// ---------------------------------------------------------------------------
// Rejection paths
// ---------------------------------------------------------------------------

/// A non-numeric position is rejected as an invalid number and an
/// out-of-range one (zero, or past the registry's end) as out of range; the
/// two messages differ, and the registry is unmodified in both cases.
pub proof fn lemma_delete_rejections(m: ShellModel, pos: Seq<char>)
    ensures
        parsed_index(pos) is None ==> delete_step(m, Some(pos)) == told(
            m,
            "Invalid command number."@,
        ),
        (match parsed_index(pos) {
            Some(v) => v == 0 || v > m.registry.len(),
            None => false,
        }) ==> delete_step(m, Some(pos)) == told(m, "Command number out of range."@),
        "Invalid command number."@ != "Command number out of range."@,
{
    reveal_strlit("Invalid command number.");
    reveal_strlit("Command number out of range.");
    assert("Invalid command number."@.len() != "Command number out of range."@.len());
}

// ---------------------------------------------------------------------------
// Creating and removing a directory
// ---------------------------------------------------------------------------

/// Creating a directory and then removing it address one and the same
/// path — the name joined onto the current location — and neither step
/// changes the session state; restoring the parent's listing is thereby
/// entirely the filesystem collaborator's obligation.
pub proof fn lemma_mkdir_rmdir_same_path(m: ShellModel, name: Seq<char>)
    ensures
        mkdir_step(m, Some(name)).state == m,
        rmdir_step(m, Some(name)).state == m,
        mkdir_step(m, Some(name)).effect == Some(
            EffectSpec::MakeDir {
                path: joined(m.location, name),
                failure: "Failed to create directory: "@ + name,
            },
        ),
        rmdir_step(m, Some(name)).effect == Some(
            EffectSpec::RemoveDir {
                path: joined(m.location, name),
                failure: "Failed to remove directory: "@ + name,
            },
        ),
{
}

} // verus!
