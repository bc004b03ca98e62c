//! The menu and event router: it owns the list of recently opened files,
//! rebuilds the menu when the list is replaced, and turns the activation of
//! a menu entry into the event to emit. The lock around the router, the
//! installation of the menu and the emission itself are the caller's part.

use crate::menu::{build_menu, menu_of, recent_id, MenuDescriptor};
use crate::text::{
    chars_of, decimal, has_prefix, lemma_parse_decimal, parse_index_from, parsed_index,
    starts_with,
};
use vstd::prelude::*;

verus! {

/// The name of the window that every event is emitted to.
pub const PRIMARY_WINDOW: &'static str = "main";

/// The event that the activation of a menu entry gives rise to.
#[derive(Debug, PartialEq, Eq)]
pub enum MenuEvent {
    /// A recent file is to be opened; the payload is its path.
    OpenRecent(String),
    /// Any other entry; the payload is the entry's identifier as it came.
    Action(String),
}

/// The mathematical value of a [`MenuEvent`].
pub enum MenuEventModel {
    OpenRecent(Seq<char>),
    Action(Seq<char>),
}

impl View for MenuEvent {
    type V = MenuEventModel;

    open spec fn view(&self) -> MenuEventModel {
        match self {
            MenuEvent::OpenRecent(path) => MenuEventModel::OpenRecent(path@),
            MenuEvent::Action(id) => MenuEventModel::Action(id@),
        }
    }
}

/// The name under which an event is emitted.
pub open spec fn event_name(event: MenuEventModel) -> Seq<char> {
    match event {
        MenuEventModel::OpenRecent(_) => "menu:open-recent"@,
        MenuEventModel::Action(_) => "menu:action"@,
    }
}

/// The payload that an event carries.
pub open spec fn event_payload(event: MenuEventModel) -> Seq<char> {
    match event {
        MenuEventModel::OpenRecent(path) => path,
        MenuEventModel::Action(id) => id,
    }
}

impl MenuEvent {
    /// The name under which this event is emitted.
    pub fn name(&self) -> (r: &'static str)
        ensures
            r@ == event_name(self@),
    {
        match self {
            MenuEvent::OpenRecent(_) => "menu:open-recent",
            MenuEvent::Action(_) => "menu:action",
        }
    }

    /// The payload that this event carries.
    pub fn payload(&self) -> (r: &String)
        ensures
            r@ == event_payload(self@),
    {
        match self {
            MenuEvent::OpenRecent(path) => path,
            MenuEvent::Action(id) => id,
        }
    }
}

/// The index that the identifier `id` names: the number behind `recent:`,
/// where `id` has that form.
pub open spec fn recent_index(id: Seq<char>) -> Option<nat> {
    if has_prefix(id, "recent:"@) {
        parsed_index(id.skip("recent:"@.len() as int))
    } else {
        None
    }
}

/// The event for the activation of the entry `id` while the recent files
/// are `recents`: the file is opened where `id` names an index within the
/// list; every other identifier is passed on as it came.
pub open spec fn routed(recents: Seq<Seq<char>>, id: Seq<char>) -> MenuEventModel {
    match recent_index(id) {
        Some(index) => if index < recents.len() {
            MenuEventModel::OpenRecent(recents[index as int])
        } else {
            MenuEventModel::Action(id)
        },
        None => MenuEventModel::Action(id),
    }
}

/// The router's state: the recent files, most recent first as the caller
/// orders them.
#[derive(Debug)]
pub struct MenuRouter {
    recents: Vec<String>,
}

impl View for MenuRouter {
    type V = Seq<Seq<char>>;

    closed spec fn view(&self) -> Seq<Seq<char>> {
        self.recents.deep_view()
    }
}

impl MenuRouter {
    /// A router with no recent file.
    pub fn new() -> (r: MenuRouter)
        ensures
            r@ == Seq::<Seq<char>>::empty(),
    {
        let r = MenuRouter { recents: Vec::new() };
        assert(r@ =~= Seq::<Seq<char>>::empty());
        r
    }

    /// The recent files that the router holds.
    pub fn recents(&self) -> (r: &Vec<String>)
        ensures
            r.deep_view() == self@,
    {
        &self.recents
    }

    /// Replaces the list of recent files and gives the menu for the new
    /// list. The list stays replaced whatever becomes of the menu.
    pub fn set_recent_menu(&mut self, recents: Vec<String>) -> (r: MenuDescriptor)
        ensures
            final(self)@ == recents.deep_view(),
            r@ == menu_of(recents.deep_view()),
    {
        let menu = build_menu(&recents);
        self.recents = recents;
        menu
    }

    /// The event for the activation of the entry `id`, resolved against the
    /// list that the router holds now.
    pub fn on_menu_activated(&self, id: &str) -> (r: MenuEvent)
        ensures
            r@ == routed(self@, id@),
    {
        let chars = chars_of(id);
        let prefix = chars_of("recent:");
        let count: usize = self.recents.len();
        assert(self@.len() == count);
        if starts_with(&chars, &prefix) {
            match parse_index_from(&chars, prefix.len()) {
                Some(index) => {
                    if index < count {
                        return MenuEvent::OpenRecent(self.recents[index].clone());
                    }
                },
                None => {},
            }
        }
        MenuEvent::Action(id.to_owned())
    }
}

/// The identifier of the entry at `index` names that index.
pub proof fn lemma_recent_id_names_its_index(index: nat)
    ensures
        recent_index(recent_id(index)) == Some(index),
{
    let id = recent_id(index);
    let prefix = "recent:"@;
    assert(id.take(prefix.len() as int) =~= prefix);
    assert(id.skip(prefix.len() as int) =~= decimal(index));
    lemma_parse_decimal(index);
}

/// Activating the entry that the menu holds for the recent file at `index`
/// opens that file.
pub proof fn lemma_listed_entry_opens_its_file(recents: Seq<Seq<char>>, index: nat)
    requires
        index < recents.len(),
    ensures
        menu_of(recents).open_recent.items[index as int].id == recent_id(index),
        routed(recents, recent_id(index)) == MenuEventModel::OpenRecent(recents[index as int]),
{
    lemma_recent_id_names_its_index(index);
}

/// Activating an entry whose index lies beyond the list opens no file: the
/// identifier is passed on as it came.
pub proof fn lemma_index_beyond_list_opens_nothing(recents: Seq<Seq<char>>, index: nat)
    requires
        index >= recents.len(),
    ensures
        routed(recents, recent_id(index)) == MenuEventModel::Action(recent_id(index)),
{
    lemma_recent_id_names_its_index(index);
}

} // verus!
