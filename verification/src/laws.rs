//! What holds of the requests, whatever the sticky set and the windows are, and of the
//! lines that carry them.

use crate::cli::request_text;
use crate::control::{
    add_effect, handled, listed, remove_effect, toggle_effect, Action, Connection, Event,
};
use crate::decimal::{decimal_text, is_digit, lemma_decimal_text_digits, unsigned_value};
use crate::protocol::{parse_line, refusal, Command, ParseError, Reply};
use crate::sticky::{ascending, is_listing_of};
use crate::text::{
    first_word, is_space, lemma_skip_spaces_run, lemma_skip_word_run, second_word,
};
use vstd::prelude::*;

verus! {

/// Adding twice is adding once: for a window that exists, the second `add` in a row
/// answers `Already in sticky list` and leaves the set as the first one left it, and the
/// first one answers `Added` unless the window was sticky before.
pub proof fn law_add_is_idempotent(sticky: Set<u64>, windows: Set<u64>, id: u64)
    requires
        windows.contains(id),
    ensures
        ({
            let first = add_effect(sticky, windows, id);
            let second = add_effect(first.0, windows, id);
            &&& first.1 == if sticky.contains(id) {
                Reply::AlreadySticky
            } else {
                Reply::Added
            }
            &&& first.0 == sticky.insert(id)
            &&& second.1 == Reply::AlreadySticky
            &&& second.0 == first.0
        }),
{
    assert(sticky.contains(id) ==> sticky.insert(id) =~= sticky);
}

/// Removing undoes adding: for a window that exists, `remove` after `add` answers
/// `Removed`, a second `remove` answers `Not in sticky list`, and a set that did not hold
/// the window before is what it was.
pub proof fn law_remove_undoes_add(sticky: Set<u64>, windows: Set<u64>, id: u64)
    requires
        windows.contains(id),
    ensures
        ({
            let added = add_effect(sticky, windows, id);
            let removed = remove_effect(added.0, windows, id);
            let again = remove_effect(removed.0, windows, id);
            &&& removed.1 == Reply::Removed
            &&& removed.0 == sticky.remove(id)
            &&& !sticky.contains(id) ==> removed.0 == sticky
            &&& again.1 == Reply::NotSticky
            &&& again.0 == removed.0
        }),
{
    assert(sticky.insert(id).remove(id) =~= sticky.remove(id));
    assert(!sticky.contains(id) ==> sticky.remove(id) =~= sticky);
    assert(sticky.contains(id) ==> sticky.insert(id) =~= sticky);
}

/// No request touches a window that does not exist: `add`, `remove` and `toggle_active`
/// answer that the window was not found and leave the set alone, whether or not it holds
/// the window.
pub proof fn law_missing_window_changes_nothing(sticky: Set<u64>, windows: Set<u64>, id: u64)
    requires
        !windows.contains(id),
    ensures
        add_effect(sticky, windows, id) == (sticky, Reply::WindowNotFound),
        remove_effect(sticky, windows, id) == (sticky, Reply::WindowNotFound),
        toggle_effect(sticky, windows, id) == (sticky, Reply::ActiveNotFound),
        Reply::WindowNotFound@ == "Window not found in Niri\n"@,
        Reply::ActiveNotFound@ == "Active window not found in Niri\n"@,
{
}

/// `list` answers the sticky windows that exist and no others: an id is listed if and
/// only if the snapshot holds it and it is a window, in the snapshot's order. For the
/// snapshot of a sticky set this is the listing of the set's windows that exist.
pub proof fn law_list_is_intersection(snapshot: Seq<u64>, sticky: Set<u64>, windows: Set<u64>)
    ensures
        forall|id: u64|
            listed(snapshot, windows).contains(id) <==> snapshot.contains(id) && windows.contains(
                id,
            ),
        ascending(snapshot) ==> ascending(listed(snapshot, windows)),
        is_listing_of(snapshot, sticky) ==> is_listing_of(
            listed(snapshot, windows),
            sticky.intersect(windows),
        ),
    decreases snapshot.len(),
{
    reveal(Seq::filter);
    let exists_now = |id: u64| windows.contains(id);
    if snapshot.len() > 0 {
        let shorter = snapshot.drop_last();
        let last = snapshot.last();
        law_list_is_intersection(shorter, sticky, windows);
        assert forall|id: u64|
            listed(snapshot, windows).contains(id) <==> snapshot.contains(id) && windows.contains(
                id,
            ) by {
            if snapshot.contains(id) {
                let k = choose|k: int| 0 <= k < snapshot.len() && snapshot[k] == id;
                if k < shorter.len() {
                    assert(shorter[k] == id);
                }
            }
            if shorter.contains(id) {
                let k = choose|k: int| 0 <= k < shorter.len() && shorter[k] == id;
                assert(snapshot[k] == id);
            }
            if windows.contains(last) {
                let kept = listed(shorter, windows);
                assert(listed(snapshot, windows) == kept.push(last));
                assert(kept.push(last)[kept.len() as int] == last);
                if kept.push(last).contains(id) {
                    let k = choose|k: int| 0 <= k < kept.push(last).len() && kept.push(last)[k] == id;
                    if k < kept.len() {
                        assert(kept[k] == id);
                    }
                }
                if kept.contains(id) {
                    let k = choose|k: int| 0 <= k < kept.len() && kept[k] == id;
                    assert(kept.push(last)[k] == id);
                }
            }
            assert(snapshot[snapshot.len() - 1] == last);
        }
        if ascending(snapshot) {
            assert(ascending(shorter));
            let kept = listed(shorter, windows);
            if windows.contains(last) {
                assert forall|i: int, j: int| 0 <= i < j < kept.push(last).len() implies kept.push(
                    last,
                )[i] < kept.push(last)[j] by {
                    if j == kept.len() {
                        assert(kept.contains(kept[i]));
                        let k = choose|k: int| 0 <= k < shorter.len() && shorter[k] == kept[i];
                        assert(snapshot[k] < snapshot[snapshot.len() - 1]);
                    }
                }
            }
        }
    }
}

/// Toggling twice changes nothing: for a focused window that exists and is not sticky,
/// `toggle_active` adds it and says so, and a second `toggle_active` removes it and says
/// so; after both the set is what it was.
pub proof fn law_toggle_is_symmetric(sticky: Set<u64>, windows: Set<u64>, id: u64)
    requires
        windows.contains(id),
        !sticky.contains(id),
    ensures
        ({
            let first = toggle_effect(sticky, windows, id);
            let second = toggle_effect(first.0, windows, id);
            &&& first.1 == Reply::ActiveAdded
            &&& first.0 == sticky.insert(id)
            &&& second.1 == Reply::ActiveRemoved
            &&& second.0 == sticky
        }),
        Reply::ActiveAdded@ == "Added active window to sticky\n"@,
        Reply::ActiveRemoved@ == "Removed active window from sticky\n"@,
{
    assert(sticky.insert(id).remove(id) =~= sticky);
}

/// A line that is no command gets the reply that says why, and changes nothing.
pub proof fn law_malformed_line_changes_nothing(
    line: String,
    before: Set<u64>,
    next: Connection,
    action: Action,
    after: Set<u64>,
)
    requires
        parse_line(line@) is Err,
        handled(Connection::Reading, Event::Line(line), before, next, action, after),
    ensures
        after == before,
        next == Connection::Closed,
        action == Action::Reply(refusal(parse_line(line@)->Err_0)),
{
}

/// Whether a connection in state `conn` waits for `event`.
pub open spec fn awaited(conn: Connection, event: Event) -> bool {
    match (conn, event) {
        (Connection::Reading, Event::Line(_)) => true,
        (Connection::Focusing, Event::Focused(_)) => true,
        (Connection::Validating(_), Event::Windows(_)) => true,
        _ => false,
    }
}

/// No request goes unanswered: once the client has sent a line, each step either asks
/// the compositor for what the next state waits for, or sends a reply and closes the
/// connection. This holds whatever the compositor answers, failures included.
pub proof fn law_no_request_goes_unanswered(
    conn: Connection,
    event: Event,
    before: Set<u64>,
    next: Connection,
    action: Action,
    after: Set<u64>,
)
    requires
        awaited(conn, event),
        handled(conn, event, before, next, action, after),
    ensures
        match action {
            Action::Reply(_) => next == Connection::Closed,
            Action::QueryFocused => next == Connection::Focusing,
            Action::QueryWindows => next is Validating,
            Action::Close => false,
        },
{
}

/// `add` and `remove` need a window id: without a second word the line is refused with
/// `Missing window id`, with a second word that writes no id with `Invalid window id`.
pub proof fn law_window_id_is_checked(line: Seq<char>)
    requires
        first_word(line) == "add"@ || first_word(line) == "remove"@,
    ensures
        second_word(line).len() == 0 ==> parse_line(line) == Err::<Command, ParseError>(
            ParseError::MissingWindowId,
        ),
        second_word(line).len() > 0 && unsigned_value(second_word(line)) is None ==> parse_line(
            line,
        ) == Err::<Command, ParseError>(ParseError::InvalidWindowId),
        refusal(ParseError::MissingWindowId)@ == "Missing window id\n"@,
        refusal(ParseError::InvalidWindowId)@ == "Invalid window id\n"@,
{
}

/// A line whose first word is none of the four commands, an empty line among them, is
/// refused with `Unknown command`.
pub proof fn law_unknown_command_is_refused(line: Seq<char>)
    requires
        first_word(line) != "add"@,
        first_word(line) != "remove"@,
        first_word(line) != "list"@,
        first_word(line) != "toggle_active"@,
    ensures
        parse_line(line) == Err::<Command, ParseError>(ParseError::UnknownCommand),
        refusal(ParseError::UnknownCommand)@ == "Unknown command\n"@,
{
}

/// What a run of `add` requests for one window does when the sticky set serves them one
/// after another, each with the list of windows that its connection asked for: the set at
/// the end, and the replies in the order of service.
pub open spec fn adds_in_turn(sticky: Set<u64>, windows: Seq<Set<u64>>, id: u64) -> (
    Set<u64>,
    Seq<Reply>,
)
    decreases windows.len(),
{
    if windows.len() == 0 {
        (sticky, Seq::empty())
    } else {
        let earlier = adds_in_turn(sticky, windows.drop_last(), id);
        let last = add_effect(earlier.0, windows.last(), id);
        (last.0, earlier.1.push(last.1))
    }
}

/// One of many wins: when several connections ask at once to add the same window, which
/// exists and is not sticky, the sticky set serves them in some order, and whatever that
/// order is, the first is answered `Added`, every other one `Already in sticky list`,
/// and the set gains the window and nothing else.
pub proof fn law_one_add_wins(sticky: Set<u64>, windows: Seq<Set<u64>>, id: u64)
    requires
        !sticky.contains(id),
        windows.len() > 0,
        forall|k: int| 0 <= k < windows.len() ==> (#[trigger] windows[k]).contains(id),
    ensures
        ({
            let (set, replies) = adds_in_turn(sticky, windows, id);
            &&& set == sticky.insert(id)
            &&& replies.len() == windows.len()
            &&& replies[0] == Reply::Added
            &&& forall|k: int| 1 <= k < replies.len() ==> replies[k] == Reply::AlreadySticky
        }),
    decreases windows.len(),
{
    let earlier = windows.drop_last();
    if earlier.len() == 0 {
        assert(adds_in_turn(sticky, earlier, id) == (sticky, Seq::<Reply>::empty()));
    } else {
        assert forall|k: int| 0 <= k < earlier.len() implies (#[trigger] earlier[k]).contains(
            id,
        ) by {
            assert(earlier[k] == windows[k]);
        }
        law_one_add_wins(sticky, earlier, id);
        assert(sticky.insert(id).insert(id) =~= sticky.insert(id));
    }
}

/// A set has one listing: two sequences that each hold the members of the same set in
/// ascending order are the same sequence. So a snapshot is determined by the set alone.
pub proof fn law_listing_is_unique(first: Seq<u64>, second: Seq<u64>, ids: Set<u64>)
    requires
        is_listing_of(first, ids),
        is_listing_of(second, ids),
    ensures
        first == second,
    decreases first.len(),
{
    if first.len() == 0 {
        if second.len() > 0 {
            assert(second.contains(second[0]));
            assert(first.contains(second[0]));
        }
        assert(first =~= second);
    } else {
        let top = first.last();
        assert(first.contains(top));
        assert(second.contains(top));
        let at = choose|k: int| 0 <= k < second.len() && second[k] == top;
        if at < second.len() - 1 {
            let above = second.last();
            assert(second.contains(above));
            let k = choose|k: int| 0 <= k < first.len() && first[k] == above;
            assert(first[k] <= top);
        }
        let rest = ids.remove(top);
        assert forall|id: u64| first.drop_last().contains(id) <==> rest.contains(id) by {
            if first.drop_last().contains(id) {
                let k = choose|k: int| 0 <= k < first.len() - 1 && first.drop_last()[k] == id;
                assert(first[k] == id);
                assert(first.contains(id));
            }
            if rest.contains(id) {
                assert(first.contains(id));
                let k = choose|k: int| 0 <= k < first.len() && first[k] == id;
                assert(first.drop_last()[k] == id);
            }
        }
        assert forall|id: u64| second.drop_last().contains(id) <==> rest.contains(id) by {
            if second.drop_last().contains(id) {
                let k = choose|k: int| 0 <= k < second.len() - 1 && second.drop_last()[k] == id;
                assert(second[k] == id);
                assert(second.contains(id));
            }
            if rest.contains(id) {
                assert(second.contains(id));
                let k = choose|k: int| 0 <= k < second.len() && second[k] == id;
                assert(second.drop_last()[k] == id);
            }
        }
        law_listing_is_unique(first.drop_last(), second.drop_last(), rest);
        assert(first =~= first.drop_last().push(top));
        assert(second =~= second.drop_last().push(top));
    }
}

/// What is written is read back: the decimal text of a window id writes that id.
pub proof fn law_id_is_read_back(id: u64)
    ensures
        unsigned_value(decimal_text(id as nat)) == Some(id),
{
    lemma_decimal_text_digits(id as nat);
}

/// A request that carries an id is read back: a verb, a blank, the id in decimal and a
/// newline hold the verb as their first word and the id as their second.
proof fn lemma_verb_and_id(verb: Seq<char>, id: u64)
    requires
        verb.len() > 0,
        forall|i: int| 0 <= i < verb.len() ==> !is_space(#[trigger] verb[i]),
    ensures
        ({
            let line = verb + seq![' '] + decimal_text(id as nat) + seq!['\n'];
            &&& first_word(line) == verb
            &&& second_word(line) == decimal_text(id as nat)
            &&& second_word(line).len() > 0
            &&& unsigned_value(second_word(line)) == Some(id)
        }),
{
    let digits = decimal_text(id as nat);
    let line = verb + seq![' '] + digits + seq!['\n'];
    let blank = verb.len() as int;
    let end = blank + 1 + digits.len();
    lemma_decimal_text_digits(id as nat);
    assert forall|i: int| 0 <= i < blank implies !is_space(#[trigger] line[i]) by {
        assert(line[i] == verb[i]);
    }
    assert(line[blank] == ' ');
    assert forall|i: int| blank + 1 <= i < end implies !is_space(#[trigger] line[i]) by {
        assert(line[i] == digits[i - blank - 1]);
        assert(is_digit(digits[i - blank - 1]));
    }
    assert(line[end] == '\n');
    lemma_skip_spaces_run(line, 0, 0);
    lemma_skip_word_run(line, 0, blank);
    lemma_skip_spaces_run(line, blank, blank + 1);
    lemma_skip_word_run(line, blank + 1, end);
    assert(line.subrange(0, blank) =~= verb);
    assert(line.subrange(blank + 1, end) =~= digits);
}

/// A request without an id is read back: a verb and a newline hold the verb as their
/// first word.
proof fn lemma_verb_alone(verb: Seq<char>)
    requires
        verb.len() > 0,
        forall|i: int| 0 <= i < verb.len() ==> !is_space(#[trigger] verb[i]),
    ensures
        first_word(verb + seq!['\n']) == verb,
{
    let line = verb + seq!['\n'];
    let end = verb.len() as int;
    assert forall|i: int| 0 <= i < end implies !is_space(#[trigger] line[i]) by {
        assert(line[i] == verb[i]);
    }
    assert(line[end] == '\n');
    lemma_skip_spaces_run(line, 0, 0);
    lemma_skip_word_run(line, 0, end);
    assert(line.subrange(0, end) =~= verb);
}

/// The front end and the daemon agree: the line that the front end sends for a command
/// is parsed by the daemon as that command.
pub proof fn law_request_is_understood(command: Command)
    ensures
        parse_line(request_text(command)) == Ok::<Command, ParseError>(command),
{
    reveal_strlit("add");
    reveal_strlit("remove");
    reveal_strlit("list");
    reveal_strlit("toggle_active");
    reveal_strlit("add ");
    reveal_strlit("remove ");
    reveal_strlit("list\n");
    reveal_strlit("toggle_active\n");
    reveal_strlit("\n");
    match command {
        Command::Add(id) => {
            lemma_verb_and_id("add"@, id);
            assert("add "@ =~= "add"@ + seq![' ']);
            assert("\n"@ =~= seq!['\n']);
        },
        Command::Remove(id) => {
            lemma_verb_and_id("remove"@, id);
            assert("remove "@ =~= "remove"@ + seq![' ']);
            assert("\n"@ =~= seq!['\n']);
        },
        Command::List => {
            lemma_verb_alone("list"@);
            assert("list\n"@ =~= "list"@ + seq!['\n']);
        },
        Command::ToggleActive => {
            lemma_verb_alone("toggle_active"@);
            assert("toggle_active\n"@ =~= "toggle_active"@ + seq!['\n']);
        },
    }
}

} // verus!
