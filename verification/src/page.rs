use vstd::prelude::*;

use crate::format::{lemma_rule_line_starts_with_colon, render_rule, rule_line};
use crate::things::{ProviderFault, Thing};

verus! {

/// The page's lifecycle. It starts `Pending` and moves exactly once, when the
/// provider settles, to one of the three resolved states.
pub enum ViewState {
    Pending,
    Error(String),
    Empty,
    List(Vec<Thing>),
}

/// What the page shows for a given point in the lifecycle: `None` while the
/// provider is still pending, `Some` once it has settled.
pub open spec fn classified(outcome: Option<Result<Vec<Thing>, ProviderFault>>) -> ViewState {
    match outcome {
        None => ViewState::Pending,
        Some(Err(fault)) => ViewState::Error(fault.message),
        Some(Ok(things)) => if things@.len() == 0 {
            ViewState::Empty
        } else {
            ViewState::List(things)
        },
    }
}

/// The list-item text of each rule, in provider order.
pub open spec fn lines_of(things: Seq<Thing>) -> Seq<Seq<char>> {
    things.map(|i: int, t: Thing| rule_line(t))
}

/// Lines joined with a newline between consecutive lines.
pub open spec fn joined_lines(lines: Seq<Seq<char>>) -> Seq<char>
    decreases lines.len(),
{
    if lines.len() == 0 {
        Seq::empty()
    } else if lines.len() == 1 {
        lines[0]
    } else {
        joined_lines(lines.drop_last()) + seq!['\n'] + lines.last()
    }
}

/// The full text the page shows in a given state.
pub open spec fn rendered(state: ViewState) -> Seq<char> {
    match state {
        ViewState::Pending => "Loading.."@,
        ViewState::Error(message) => "Server Error: "@ + message@,
        ViewState::Empty => "no things"@,
        ViewState::List(things) => joined_lines(lines_of(things@)),
    }
}

/// Maps the provider's outcome (or its absence, while pending) to the state
/// the page is in.
pub fn classify(outcome: Option<Result<Vec<Thing>, ProviderFault>>) -> (state: ViewState)
    ensures
        state == classified(outcome),
{
    match outcome {
        None => ViewState::Pending,
        Some(Err(fault)) => ViewState::Error(fault.message),
        Some(Ok(things)) => {
            if things.len() == 0 {
                ViewState::Empty
            } else {
                ViewState::List(things)
            }
        },
    }
}

/// Formats every rule: one list item per rule, in provider order, none
/// dropped, none added.
pub fn render_items(things: &Vec<Thing>) -> (items: Vec<String>)
    ensures
        items@.len() == things@.len(),
        forall|i: int| 0 <= i < things@.len() ==> items@[i]@ == rule_line(things@[i]),
{
    let mut items: Vec<String> = Vec::new();
    let mut i: usize = 0;
    while i < things.len()
        invariant
            i <= things@.len(),
            items@.len() == i,
            forall|j: int| 0 <= j < i ==> items@[j]@ == rule_line(things@[j]),
        decreases things@.len() - i,
    {
        items.push(render_rule(&things[i]));
        i += 1;
    }
    items
}

/// Renders the text for one lifecycle state.
pub fn render_view(state: &ViewState) -> (out: String)
    ensures
        out@ == rendered(*state),
{
    match state {
        ViewState::Pending => String::from_str("Loading.."),
        ViewState::Error(message) => {
            let mut out = String::from_str("Server Error: ");
            out.append(message.as_str());
            out
        },
        ViewState::Empty => String::from_str("no things"),
        ViewState::List(things) => {
            let ghost lines = lines_of(things@);
            let mut out = String::new();
            let mut i: usize = 0;
            while i < things.len()
                invariant
                    i <= things@.len(),
                    lines == lines_of(things@),
                    out@ == joined_lines(lines.take(i as int)),
                decreases things@.len() - i,
            {
                if i > 0 {
                    out.append("\n");
                }
                let line = render_rule(&things[i]);
                out.append(line.as_str());
                proof {
                    reveal_strlit("\n");
                    assert(lines.take(i as int + 1).drop_last() =~= lines.take(i as int));
                    assert(lines.take(i as int + 1).last() == rule_line(things@[i as int]));
                    assert(out@ =~= joined_lines(lines.take(i as int + 1)));
                }
                i += 1;
            }
            proof {
                assert(lines.take(things@.len() as int) =~= lines);
            }
            out
        },
    }
}

/// The whole fetch/render step: what the page shows for a provider outcome,
/// or while the provider is still pending.
pub fn render_outcome(outcome: Option<Result<Vec<Thing>, ProviderFault>>) -> (out: String)
    ensures
        out@ == rendered(classified(outcome)),
{
    let state = classify(outcome);
    render_view(&state)
}

/// A provider that resolves with zero rules renders exactly the fixed empty
/// message, nothing else.
pub proof fn lemma_resolved_empty(things: Vec<Thing>)
    requires
        things@.len() == 0,
    ensures
        rendered(classified(Some(Ok(things)))) == "no things"@,
{
}

/// A provider that resolves with one or more rules renders exactly one list
/// item per rule, each the rule's own line, in provider order; the page's
/// text is those lines joined by newlines.
pub proof fn lemma_resolved_list(things: Vec<Thing>)
    requires
        things@.len() >= 1,
    ensures
        lines_of(things@).len() == things@.len(),
        forall|i: int|
            0 <= i < things@.len() ==> lines_of(things@)[i] == rule_line(things@[i]),
        rendered(classified(Some(Ok(things)))) == joined_lines(lines_of(things@)),
{
}

/// A provider that faults renders the fixed error label followed by the
/// fault's message, verbatim: the label is the output's prefix and the
/// message is exactly what remains.
pub proof fn lemma_resolved_fault(fault: ProviderFault)
    ensures
        rendered(classified(Some(Err(fault)))).len() == "Server Error: "@.len()
            + fault.message@.len(),
        rendered(classified(Some(Err(fault)))).take("Server Error: "@.len() as int)
            == "Server Error: "@,
        rendered(classified(Some(Err(fault)))).skip("Server Error: "@.len() as int)
            == fault.message@,
{
    let out = rendered(classified(Some(Err(fault))));
    let label = "Server Error: "@;
    assert(out.take(label.len() as int) =~= label);
    assert(out.skip(label.len() as int) =~= fault.message@);
}

/// In a joined rendering of nonempty lines that each open with a colon, the
/// whole text is nonempty and opens with that colon.
proof fn lemma_joined_lines_first(lines: Seq<Seq<char>>)
    requires
        lines.len() >= 1,
        forall|i: int| 0 <= i < lines.len() ==> lines[i].len() >= 1 && lines[i][0] == ':',
    ensures
        joined_lines(lines).len() >= 1,
        joined_lines(lines)[0] == ':',
    decreases lines.len(),
{
    if lines.len() > 1 {
        assert(forall|i: int|
            0 <= i < lines.drop_last().len() ==> lines.drop_last()[i].len() >= 1
                && lines.drop_last()[i][0] == ':');
        lemma_joined_lines_first(lines.drop_last());
    }
}

/// While the provider is pending the page shows exactly the loading
/// placeholder, and that placeholder is none of the settled renderings: not
/// the empty message, not an error rendering, and not a list rendering.
pub proof fn lemma_pending_placeholder(things: Vec<Thing>, fault: ProviderFault)
    ensures
        classified(None) == ViewState::Pending,
        rendered(classified(None)) == "Loading.."@,
        rendered(classified(None)) != rendered(ViewState::Empty),
        rendered(classified(None)) != rendered(ViewState::Error(fault.message)),
        rendered(classified(None)) != rendered(classified(Some(Ok(things)))),
{
    reveal_strlit("Loading..");
    reveal_strlit("no things");
    reveal_strlit("Server Error: ");
    let placeholder = "Loading.."@;
    assert(placeholder[0] == 'L');
    assert(rendered(ViewState::Empty)[0] == 'n');
    assert(rendered(ViewState::Error(fault.message))[0] == 'S');
    if things@.len() >= 1 {
        assert forall|i: int| 0 <= i < lines_of(things@).len() implies lines_of(things@)[i].len()
            >= 1 && lines_of(things@)[i][0] == ':' by {
            lemma_rule_line_starts_with_colon(things@[i]);
        }
        lemma_joined_lines_first(lines_of(things@));
        assert(rendered(classified(Some(Ok(things))))[0] == ':');
    }
}

} // verus!
