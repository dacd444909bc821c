//! The list of the users in the channel.

use crate::widget::display::{str_views, Color, List, ListView, Style};
use vstd::prelude::*;

verus! {

/// The users to show.
pub struct Users<'a> {
    pub users: Vec<&'a str>,
}

/// What the user list draws: a framed list titled `Users` with one user on
/// each line, light green, from the first on.
pub open spec fn users_list(users: Seq<Seq<char>>) -> ListView {
    ListView {
        title: "Users"@,
        items: users,
        style: Style { fg: Color::LightGreen, bold: false },
        offset: 0,
        scrollbar: None,
    }
}

impl<'a> Users<'a> {
    pub fn new(users: Vec<&'a str>) -> (widget: Self)
        ensures
            widget.users@ == users@,
    {
        Self { users }
    }

    /// What the user list draws.
    pub fn render(&self) -> (list: List)
        ensures
            list@ == users_list(str_views(self.users@)),
    {
        let mut items: Vec<String> = Vec::new();
        let n = self.users.len();
        let mut i: usize = 0;
        while i < n
            invariant
                n == self.users@.len(),
                i <= n,
                items@.len() == i,
                forall|k: int| 0 <= k < i ==> items@[k]@ == self.users@[k]@,
            decreases n - i,
        {
            items.push(self.users[i].to_owned());
            i += 1;
        }
        let list = List {
            title: "Users".to_owned(),
            items,
            style: Style { fg: Color::LightGreen, bold: false },
            offset: 0,
            scrollbar: None,
        };
        assert(list@.items =~= str_views(self.users@));
        list
    }
}

} // verus!
