//! A menu of items, one of which is shown at a time: clicks go to the item
//! shown, the wheel moves to its neighbours.

use crate::simon::i3blocks::{I3BlocksOutput, I3ClickEvent};
use vstd::arithmetic::div_mod::{lemma_fundamental_div_mod_converse, lemma_small_mod};
use vstd::prelude::*;
use vstd::string::*;

verus! {

/// What the menu does after a click.
#[derive(Debug, Clone, Copy, PartialEq, Eq, Structural)]
pub enum MenuAction {
    NextItem,
    PreviousItem,
    Exit,
    Noop,
}

/// The answer of every item to the wheel: up is the next item, down the
/// previous one.
pub open spec fn wheel(button: i32) -> MenuAction {
    if button == 4 {
        MenuAction::NextItem
    } else if button == 5 {
        MenuAction::PreviousItem
    } else {
        MenuAction::Noop
    }
}

/// An entry of a menu.
pub trait MenuItem: Sized {
    /// Tells whether the item can be shown and clicked.
    spec fn valid(&self) -> bool;

    /// What the item shows.
    spec fn text(&self) -> Seq<char>;

    /// What the menu is to do after a click of `button` on the item.
    spec fn action(&self, button: i32) -> MenuAction;

    /// The item after a click of `button`.
    spec fn clicked(&self, button: i32) -> Self;

    /// The block that shows the item.
    fn to_output(&mut self) -> (output: I3BlocksOutput)
        requires
            old(self).valid(),
        ensures
            output.full_text@ == old(self).text(),
            *final(self) == *old(self),
    ;

    /// Takes a click.
    fn handle_click(&mut self, click: &I3ClickEvent) -> (action: MenuAction)
        requires
            old(self).valid(),
        ensures
            action == old(self).action(click.button),
            *final(self) == old(self).clicked(click.button),
            final(self).valid(),
    ;
}

/// A value that a `SelectItem` can offer.
pub trait SelectItemOption {
    /// How the value is shown.
    spec fn shown(&self) -> Seq<char>;

    /// How the value is shown.
    fn to_string(&self) -> (text: String)
        ensures
            text@ == self.shown(),
    ;
}

/// An item that leaves the menu when it is clicked.
pub struct ButtonItem {
    pub label: &'static str,
}

impl MenuItem for ButtonItem {
    open spec fn valid(&self) -> bool {
        true
    }

    open spec fn text(&self) -> Seq<char> {
        self.label@
    }

    open spec fn action(&self, button: i32) -> MenuAction {
        if button == 1 {
            MenuAction::Exit
        } else {
            wheel(button)
        }
    }

    open spec fn clicked(&self, button: i32) -> Self {
        *self
    }

    fn to_output(&mut self) -> (output: I3BlocksOutput) {
        I3BlocksOutput { full_text: String::from_str(self.label) }
    }

    fn handle_click(&mut self, click: &I3ClickEvent) -> (action: MenuAction) {
        if click.button == 1 {
            MenuAction::Exit
        } else if click.button == 4 {
            MenuAction::NextItem
        } else if click.button == 5 {
            MenuAction::PreviousItem
        } else {
            MenuAction::Noop
        }
    }
}

/// The place that follows `index` among `len` places in a ring: after the
/// last comes the first.
pub open spec fn next_in_ring(index: int, len: int) -> int {
    if index + 1 == len {
        0
    } else {
        index + 1
    }
}

/// The place before `index` among `len` places in a ring: before the first
/// comes the last.
pub open spec fn previous_in_ring(index: int, len: int) -> int {
    if index == 0 {
        len - 1
    } else {
        index - 1
    }
}

/// Stepping in a ring is adding or taking one, and keeping the remainder of
/// the division by the ring's length.
pub proof fn lemma_ring_remainders(index: int, len: int)
    requires
        0 <= index < len,
    ensures
        next_in_ring(index, len) == (index + 1) % len,
        previous_in_ring(index, len) == (index - 1) % len,
{
    if index + 1 == len {
        lemma_fundamental_div_mod_converse(len, len, 1, 0);
    } else {
        lemma_small_mod((index + 1) as nat, len as nat);
    }
    if index == 0 {
        lemma_fundamental_div_mod_converse(-1, len, -1, len - 1);
    } else {
        lemma_small_mod((index - 1) as nat, len as nat);
    }
}

/// Steps forward in a ring.
pub fn ring_next(index: usize, len: usize) -> (next: usize)
    requires
        index < len,
    ensures
        next == next_in_ring(index as int, len as int),
        next < len,
{
    if index + 1 == len {
        0
    } else {
        index + 1
    }
}

/// Steps backward in a ring.
pub fn ring_previous(index: usize, len: usize) -> (previous: usize)
    requires
        index < len,
    ensures
        previous == previous_in_ring(index as int, len as int),
        previous < len,
{
    if index == 0 {
        len - 1
    } else {
        index - 1
    }
}

/// An item that offers a choice among options: the left button takes the
/// next option, the right button the previous one.
pub struct SelectItem<T> where T: SelectItemOption + Copy {
    pub label: &'static str,
    pub options: Vec<T>,
    pub index: usize,
}

impl<T> SelectItem<T> where T: SelectItemOption + Copy {
    /// The option that is chosen.
    pub open spec fn chosen(&self) -> T
        recommends
            self.index < self.options@.len(),
    {
        self.options@[self.index as int]
    }

    /// The option that is chosen.
    pub fn value(&self) -> (value: T)
        requires
            self.index < self.options@.len(),
        ensures
            value == self.chosen(),
    {
        self.options[self.index]
    }
}

impl<T> MenuItem for SelectItem<T> where T: SelectItemOption + Copy {
    open spec fn valid(&self) -> bool {
        self.index < self.options@.len()
    }

    open spec fn text(&self) -> Seq<char> {
        self.label@ + " "@ + self.chosen().shown()
    }

    open spec fn action(&self, button: i32) -> MenuAction {
        wheel(button)
    }

    open spec fn clicked(&self, button: i32) -> Self {
        if button == 1 {
            SelectItem {
                label: self.label,
                options: self.options,
                index: next_in_ring(self.index as int, self.options@.len() as int) as usize,
            }
        } else if button == 3 {
            SelectItem {
                label: self.label,
                options: self.options,
                index: previous_in_ring(self.index as int, self.options@.len() as int) as usize,
            }
        } else {
            *self
        }
    }

    fn to_output(&mut self) -> (output: I3BlocksOutput) {
        let option = self.options[self.index].to_string();
        let mut full_text = String::from_str(self.label);
        full_text.append(" ");
        full_text.append(option.as_str());
        I3BlocksOutput { full_text }
    }

    fn handle_click(&mut self, click: &I3ClickEvent) -> (action: MenuAction) {
        if click.button == 1 {
            self.index = ring_next(self.index, self.options.len());
            MenuAction::Noop
        } else if click.button == 3 {
            self.index = ring_previous(self.index, self.options.len());
            MenuAction::Noop
        } else if click.button == 4 {
            MenuAction::NextItem
        } else if click.button == 5 {
            MenuAction::PreviousItem
        } else {
            MenuAction::Noop
        }
    }
}

/// Where the menu stands after `action`, having stood at `index` among
/// `len` items.
pub open spec fn moved(index: int, len: int, action: MenuAction) -> int {
    match action {
        MenuAction::NextItem => next_in_ring(index, len),
        MenuAction::PreviousItem => previous_in_ring(index, len),
        _ => index,
    }
}

/// A menu: its items, and the place of the one that is shown.
pub struct Menu<I> where I: MenuItem {
    items: Vec<I>,
    index: usize,
}

impl<I> Menu<I> where I: MenuItem {
    /// What holds of every menu: the place shown is a place of the menu,
    /// and every item can be shown and clicked.
    pub closed spec fn well_formed(&self) -> bool {
        &&& self.items@.len() == 0 ==> self.index == 0
        &&& self.items@.len() > 0 ==> self.index < self.items@.len()
        &&& forall|i: int| 0 <= i < self.items@.len() ==> (#[trigger] self.items@[i]).valid()
    }

    /// The items of the menu.
    pub closed spec fn items(&self) -> Seq<I> {
        self.items@
    }

    /// The place of the item that is shown.
    pub closed spec fn position(&self) -> nat {
        self.index as nat
    }

    /// In a well-formed menu the place shown is among the items (or zero
    /// where there are none), and every item is valid.
    pub proof fn lemma_well_formed(&self)
        requires
            self.well_formed(),
        ensures
            self.items().len() == 0 ==> self.position() == 0,
            self.items().len() > 0 ==> self.position() < self.items().len(),
            forall|i: int| 0 <= i < self.items().len() ==> (#[trigger] self.items()[i]).valid(),
    {
    }

    /// A menu without items.
    pub fn new() -> (menu: Menu<I>)
        ensures
            menu.well_formed(),
            menu.items() == Seq::<I>::empty(),
            menu.position() == 0,
    {
        Menu { items: Vec::new(), index: 0 }
    }

    /// Adds an item behind the others.
    pub fn add_menu_item(&mut self, menu_item: I)
        requires
            old(self).well_formed(),
            menu_item.valid(),
        ensures
            final(self).well_formed(),
            final(self).items() == old(self).items().push(menu_item),
            final(self).position() == old(self).position(),
    {
        self.items.push(menu_item);
    }

    /// The number of items.
    pub fn len(&self) -> (len: usize)
        ensures
            len == self.items().len(),
    {
        self.items.len()
    }

    /// The place of the item that is shown.
    pub fn index(&self) -> (index: usize)
        requires
            self.well_formed(),
        ensures
            index == self.position(),
            self.items().len() > 0 ==> index < self.items().len(),
    {
        self.index
    }

    /// One item of the menu.
    pub fn item(&self, place: usize) -> (item: &I)
        requires
            self.well_formed(),
            place < self.items().len(),
        ensures
            *item == self.items()[place as int],
            item.valid(),
    {
        &self.items[place]
    }

    /// The block of the item that is shown.
    pub fn show(&mut self) -> (output: I3BlocksOutput)
        requires
            old(self).well_formed(),
            old(self).items().len() > 0,
        ensures
            final(self).well_formed(),
            output.full_text@ == old(self).items()[old(self).position() as int].text(),
            final(self).items() == old(self).items(),
            final(self).position() == old(self).position(),
    {
        let place: usize = self.index;
        let output = self.items[place].to_output();
        assert(self.items@ =~= old(self).items@);
        output
    }

    /// Hands a click to the item that is shown, and moves as the item says.
    pub fn click(&mut self, click: &I3ClickEvent) -> (action: MenuAction)
        requires
            old(self).well_formed(),
            old(self).items().len() > 0,
        ensures
            final(self).well_formed(),
            action == old(self).items()[old(self).position() as int].action(click.button),
            final(self).items() == old(self).items().update(
                old(self).position() as int,
                old(self).items()[old(self).position() as int].clicked(click.button),
            ),
            final(self).position() == moved(
                old(self).position() as int,
                old(self).items().len() as int,
                action,
            ),
    {
        let place: usize = self.index;
        let len: usize = self.items.len();
        let action = self.items[place].handle_click(click);
        assert(self.items@ =~= old(self).items@.update(
            place as int,
            old(self).items@[place as int].clicked(click.button),
        ));
        match action {
            MenuAction::NextItem => {
                self.index = ring_next(place, len);
            },
            MenuAction::PreviousItem => {
                self.index = ring_previous(place, len);
            },
            _ => {},
        }
        action
    }
}

} // verus!
