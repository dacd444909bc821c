//! The list of the messages of the chat.

use crate::number::{decimal_digits, push_decimal};
use crate::widget::display::{str_views, Color, List, ListView, Scrollbar, Style};
use vstd::prelude::*;

verus! {

/// The messages to show.
pub struct Messages<'a> {
    pub messages: Vec<&'a str>,
}

/// How many lines a framed area of the given height has inside: the height
/// without the two border lines.
pub open spec fn inner_height(height: u16) -> nat {
    if height >= 2 {
        (height - 2) as nat
    } else {
        0
    }
}

/// The first message in sight: the last lines are shown, so as many
/// messages are passed over as do not fit.
pub open spec fn scroll_offset(total: nat, inner: nat) -> nat {
    if total > inner {
        (total - inner) as nat
    } else {
        0
    }
}

/// Each message behind its number, counted from 0, a colon and a space.
pub open spec fn numbered(messages: Seq<Seq<char>>) -> Seq<Seq<char>> {
    Seq::new(messages.len(), |i: int| decimal_digits(i as nat) + ": "@ + messages[i])
}

/// What the message list draws in an area of the given height: a framed
/// list titled `Chat` of the numbered messages, light green, scrolled to
/// its end, with a scrollbar where the messages do not all fit.
pub open spec fn messages_list(messages: Seq<Seq<char>>, height: u16) -> ListView {
    let inner = inner_height(height);
    let total = messages.len();
    let offset = scroll_offset(total, inner);
    ListView {
        title: "Chat"@,
        items: numbered(messages),
        style: Style { fg: Color::LightGreen, bold: false },
        offset: offset as usize,
        scrollbar: if inner > 0 && total > inner {
            Some(
                Scrollbar {
                    total: total as usize,
                    position: offset as usize,
                    viewport: inner as usize,
                },
            )
        } else {
            None
        },
    }
}

impl<'a> Messages<'a> {
    pub fn new(messages: Vec<&'a str>) -> (widget: Self)
        ensures
            widget.messages@ == messages@,
    {
        Self { messages }
    }

    /// What the message list draws in an area of the given height.
    pub fn render(&self, height: u16) -> (list: List)
        ensures
            list@ == messages_list(str_views(self.messages@), height),
    {
        let inner: usize = if height >= 2 {
            (height - 2) as usize
        } else {
            0
        };
        let total = self.messages.len();
        let mut items: Vec<String> = Vec::new();
        let mut i: usize = 0;
        while i < total
            invariant
                total == self.messages@.len(),
                i <= total,
                items@.len() == i,
                forall|k: int|
                    0 <= k < i ==> items@[k]@ == decimal_digits(k as nat) + ": "@
                        + self.messages@[k]@,
            decreases total - i,
        {
            let mut item = String::new();
            push_decimal(&mut item, i);
            item.append(": ");
            item.append(self.messages[i]);
            assert(Seq::<char>::empty() + decimal_digits(i as nat) =~= decimal_digits(i as nat));
            items.push(item);
            i += 1;
        }
        let offset: usize = if total > inner {
            total - inner
        } else {
            0
        };
        let scrollbar = if inner > 0 && total > inner {
            Some(Scrollbar { total, position: offset, viewport: inner })
        } else {
            None
        };
        let list = List {
            title: "Chat".to_owned(),
            items,
            style: Style { fg: Color::LightGreen, bold: false },
            offset,
            scrollbar,
        };
        assert(list@.items =~= numbered(str_views(self.messages@)));
        list
    }
}

} // verus!
