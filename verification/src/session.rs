//! What the read loop does over a run of messages.
//!
//! The lemmas here follow the loop through more than one line: the keepalive
//! exchange and the gathering of the message of the day.

use crate::irc_client::{
    framed, react_to_line, react_to_message, ActionView, IRCEventView, Reaction,
};
use crate::parser::{is_ascii_letter, only_letters, MessageView};
use crate::text::join_spec;
use crate::wire::{all_params, lemma_parse_round_trip, no_line_end, wire_line};
use vstd::prelude::*;

verus! {

/// What the loop has gathered and done after a run of messages.
pub struct Transcript {
    /// The lines of the message of the day gathered so far.
    pub motd: Seq<Seq<char>>,
    /// The action taken on each message, in order.
    pub actions: Seq<ActionView>,
}

/// The loop's reactions to `messages`, taken in order, starting with the
/// lines `motd` of the message of the day.
pub open spec fn react_to_all(motd: Seq<Seq<char>>, messages: Seq<MessageView>) -> Transcript
    decreases messages.len(),
{
    if messages.len() == 0 {
        Transcript { motd, actions: Seq::empty() }
    } else {
        let before = react_to_all(motd, messages.drop_last());
        let r = react_to_message(before.motd, messages.last());
        Transcript { motd: r.motd, actions: before.actions.push(r.action) }
    }
}

/// The events among `actions`, in order.
pub open spec fn emitted(actions: Seq<ActionView>) -> Seq<IRCEventView>
    decreases actions.len(),
{
    if actions.len() == 0 {
        Seq::empty()
    } else {
        let before = emitted(actions.drop_last());
        match actions.last() {
            ActionView::Emit(event) => before.push(event),
            _ => before,
        }
    }
}

/// The last parameter of each of `messages`, in order.
pub open spec fn last_params(messages: Seq<MessageView>) -> Seq<Seq<char>> {
    Seq::new(messages.len(), |i: int| messages[i].params.last())
}

/// Each of `lines` is a line of the message of the day: a `372` with a
/// parameter.
pub open spec fn all_motd_lines(lines: Seq<MessageView>) -> bool {
    forall|i: int|
        0 <= i < lines.len() ==> (#[trigger] lines[i]).command == "372"@ && lines[i].params.len()
            > 0
}

/// The commands that the loop tells apart differ from each other.
proof fn lemma_motd_commands_differ()
    ensures
        "375"@ != "PING"@,
        "375"@ != "353"@,
        "375"@ != "366"@,
        "375"@ != "372"@,
        "372"@ != "PING"@,
        "372"@ != "353"@,
        "372"@ != "366"@,
        "376"@ != "PING"@,
        "376"@ != "353"@,
        "376"@ != "366"@,
        "376"@ != "372"@,
        "376"@ != "375"@,
{
    reveal_strlit("PING");
    reveal_strlit("353");
    reveal_strlit("366");
    reveal_strlit("372");
    reveal_strlit("375");
    reveal_strlit("376");
    assert("375"@[1] != "353"@[1]);
    assert("375"@[1] != "366"@[1]);
    assert("375"@[2] != "372"@[2]);
    assert("372"@[1] != "353"@[1]);
    assert("372"@[1] != "366"@[1]);
    assert("376"@[1] != "353"@[1]);
    assert("376"@[1] != "366"@[1]);
    assert("376"@[2] != "372"@[2]);
    assert("376"@[2] != "375"@[2]);
}

/// After the start of a message of the day and some of its lines the loop
/// holds exactly those lines, whatever it held before, and has emitted
/// nothing.
pub proof fn lemma_motd_gathered(motd: Seq<Seq<char>>, start: MessageView, lines: Seq<MessageView>)
    requires
        start.command == "375"@,
        all_motd_lines(lines),
    ensures
        react_to_all(motd, seq![start] + lines).motd == last_params(lines),
        emitted(react_to_all(motd, seq![start] + lines).actions) == Seq::<IRCEventView>::empty(),
    decreases lines.len(),
{
    lemma_motd_commands_differ();
    let all = seq![start] + lines;
    if lines.len() == 0 {
        assert(all.drop_last() =~= Seq::<MessageView>::empty());
        assert(all.last() == start);
        assert(last_params(lines) =~= Seq::<Seq<char>>::empty());
        let nothing = react_to_all(motd, all.drop_last());
        assert(nothing.motd == motd && nothing.actions =~= Seq::<ActionView>::empty());
        let t = react_to_all(motd, all);
        assert(t.actions =~= seq![ActionView::Nothing]);
        assert(t.actions.drop_last() =~= Seq::<ActionView>::empty());
        assert(emitted(t.actions.drop_last()) =~= Seq::<IRCEventView>::empty());
    } else {
        let earlier = lines.drop_last();
        assert(all.drop_last() =~= seq![start] + earlier);
        assert(all.last() == lines.last());
        assert(all_motd_lines(earlier)) by {
            assert forall|i: int| 0 <= i < earlier.len() implies (#[trigger] earlier[i]).command
                == "372"@ && earlier[i].params.len() > 0 by {
                assert(earlier[i] == lines[i]);
            }
        }
        lemma_motd_gathered(motd, start, earlier);
        let before = react_to_all(motd, seq![start] + earlier);
        let t = react_to_all(motd, all);
        assert(lines.last() == lines[lines.len() - 1]);
        assert(t.motd =~= last_params(lines));
        assert(t.actions.last() == ActionView::Nothing);
        assert(t.actions.drop_last() =~= before.actions);
    }
}

/// The sequence `375`, any number of `372`, `376` makes the loop emit
/// exactly one event: the message of the day with the lines of the `372`
/// messages in order. Nothing that the loop had gathered before the `375`
/// is in it.
pub proof fn lemma_message_of_the_day(
    motd: Seq<Seq<char>>,
    start: MessageView,
    lines: Seq<MessageView>,
    end: MessageView,
)
    requires
        start.command == "375"@,
        all_motd_lines(lines),
        end.command == "376"@,
    ensures
        emitted(react_to_all(motd, seq![start] + lines + seq![end]).actions) == seq![
            IRCEventView::MessageOfTheDay(last_params(lines)),
        ],
{
    lemma_motd_commands_differ();
    lemma_motd_gathered(motd, start, lines);
    let all = seq![start] + lines + seq![end];
    assert(all.drop_last() =~= seq![start] + lines);
    assert(all.last() == end);
    let before = react_to_all(motd, seq![start] + lines);
    let t = react_to_all(motd, all);
    assert(t.actions.drop_last() =~= before.actions);
    assert(emitted(t.actions) =~= seq![IRCEventView::MessageOfTheDay(last_params(lines))]);
}

/// A `PING` line with a trailing parameter is answered with one `PONG` line
/// that carries the same parameter, and leaves the loop as it was.
pub proof fn lemma_ping_is_answered(motd: Seq<Seq<char>>, token: Seq<char>)
    requires
        no_line_end(token),
    ensures
        react_to_line(motd, "PING :"@ + token + "\r\n"@) == (Reaction {
            motd,
            action: ActionView::Send(framed("PONG :"@ + token)),
        }),
{
    reveal_strlit("PING :");
    reveal_strlit("PING");
    reveal_strlit("\r\n");
    let command = "PING"@;
    assert(only_letters(command)) by {
        assert forall|i: int| 0 <= i < command.len() implies is_ascii_letter(
            #[trigger] command[i],
        ) by {
            assert(command[0] == 'P' && command[1] == 'I' && command[2] == 'N' && command[3]
                == 'G');
        }
    }
    let middles = Seq::<Seq<char>>::empty();
    lemma_parse_round_trip(None, command, middles, Some(token));
    assert(wire_line(None, command, middles, Some(token)) =~= "PING :"@ + token + "\r\n"@);
    assert(all_params(middles, Some(token)) =~= seq![token]);
    assert(join_spec(seq![token], " "@) == token);
}

} // verus!
