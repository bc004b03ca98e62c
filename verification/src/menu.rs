//! The application menu as plain data, built from the list of recently
//! opened files. Turning the description into a native menu and installing
//! it is the caller's part.

use crate::text::{decimal, decimal_text, joined};
use vstd::prelude::*;

verus! {

/// One entry of a menu. An empty `id` means that the entry is never
/// activated and needs no identifier of its own.
#[derive(Debug, PartialEq, Eq)]
pub struct MenuItem {
    pub id: String,
    pub label: String,
    pub enabled: bool,
}

/// The mathematical value of a [`MenuItem`].
pub struct MenuItemModel {
    pub id: Seq<char>,
    pub label: Seq<char>,
    pub enabled: bool,
}

impl View for MenuItem {
    type V = MenuItemModel;

    open spec fn view(&self) -> MenuItemModel {
        MenuItemModel { id: self.id@, label: self.label@, enabled: self.enabled }
    }
}

/// A named group of entries.
#[derive(Debug, PartialEq, Eq)]
pub struct Submenu {
    pub label: String,
    pub items: Vec<MenuItem>,
}

/// The mathematical value of a [`Submenu`].
pub struct SubmenuModel {
    pub label: Seq<char>,
    pub items: Seq<MenuItemModel>,
}

impl View for Submenu {
    type V = SubmenuModel;

    open spec fn view(&self) -> SubmenuModel {
        SubmenuModel {
            label: self.label@,
            items: self.items@.map_values(|item: MenuItem| item@),
        }
    }
}

/// The whole menu: the `File` group, the `Open Recent` group that is nested
/// in it as its last entry, and the `View` group.
#[derive(Debug, PartialEq, Eq)]
pub struct MenuDescriptor {
    pub file: Submenu,
    pub open_recent: Submenu,
    pub view: Submenu,
}

/// The mathematical value of a [`MenuDescriptor`].
pub struct MenuModel {
    pub file: SubmenuModel,
    pub open_recent: SubmenuModel,
    pub view: SubmenuModel,
}

impl View for MenuDescriptor {
    type V = MenuModel;

    open spec fn view(&self) -> MenuModel {
        MenuModel { file: self.file@, open_recent: self.open_recent@, view: self.view@ }
    }
}

/// The final component of `path`, as `std::path::Path::file_name` gives it
/// under the path syntax of the platform that the library is built for; none
/// where the path has no such component.
pub uninterp spec fn final_component(path: Seq<char>) -> Option<Seq<char>>;

/// `std::path::Path::file_name` on `path`: the outcome is a function of the
/// path's text alone, and [`final_component`] is its name. The component of
/// a path that is a string is a string too.
#[verifier::external_body]
fn path_file_name(path: &str) -> (r: Option<String>)
    ensures
        match r {
            Some(name) => final_component(path@) == Some(name@),
            None => final_component(path@).is_none(),
        },
{
    std::path::Path::new(path).file_name().and_then(|name| name.to_str()).map(|name| name.to_string())
}

/// An enabled entry.
pub open spec fn entry(id: Seq<char>, label: Seq<char>) -> MenuItemModel {
    MenuItemModel { id, label, enabled: true }
}

/// The entries of the `File` group, before the nested `Open Recent` group.
pub open spec fn file_entries() -> Seq<MenuItemModel> {
    seq![
        entry("file_new"@, "New"@),
        entry("file_open"@, "Open"@),
        entry("file_open_folder"@, "Open Folder"@),
        entry("file_preferences"@, "Preferences"@),
        entry("file_save"@, "Save"@),
        entry("file_save_as"@, "Save As"@),
    ]
}

/// The entries of the `View` group.
pub open spec fn view_entries() -> Seq<MenuItemModel> {
    seq![
        entry("view_toggle_preview"@, "Toggle Source"@),
        entry("view_toggle_theme"@, "Toggle Theme"@),
    ]
}

/// The entry that stands in `Open Recent` while there is no recent file.
pub open spec fn placeholder() -> MenuItemModel {
    MenuItemModel { id: Seq::empty(), label: "No recent files"@, enabled: false }
}

/// The identifier of the entry for the recent file at `index`.
pub open spec fn recent_id(index: nat) -> Seq<char> {
    "recent:"@ + decimal(index)
}

/// The label of the entry for the recent file `path`, whose final component
/// is `name`: that component, or the whole path where there is none.
pub open spec fn label_for(path: Seq<char>, name: Option<Seq<char>>) -> Seq<char> {
    match name {
        Some(name) => name,
        None => path,
    }
}

/// The labels of the entries for the recent files `recents`.
pub open spec fn labels_of(recents: Seq<Seq<char>>) -> Seq<Seq<char>> {
    Seq::new(recents.len(), |i: int| label_for(recents[i], final_component(recents[i])))
}

/// The entries of `Open Recent` for recent files with the labels `labels`:
/// one for each, in order; or the placeholder alone where there is none.
pub open spec fn recent_entries(labels: Seq<Seq<char>>) -> Seq<MenuItemModel> {
    if labels.len() == 0 {
        seq![placeholder()]
    } else {
        Seq::new(labels.len(), |i: int| entry(recent_id(i as nat), labels[i]))
    }
}

/// The menu for recent files with the labels `labels`.
pub open spec fn menu_of_labels(labels: Seq<Seq<char>>) -> MenuModel {
    MenuModel {
        file: SubmenuModel { label: "File"@, items: file_entries() },
        open_recent: SubmenuModel { label: "Open Recent"@, items: recent_entries(labels) },
        view: SubmenuModel { label: "View"@, items: view_entries() },
    }
}

/// The menu for the recent files `recents`.
pub open spec fn menu_of(recents: Seq<Seq<char>>) -> MenuModel {
    menu_of_labels(labels_of(recents))
}

fn text_entry(id: &str, label: &str) -> (r: MenuItem)
    ensures
        r@ == entry(id@, label@),
{
    MenuItem { id: id.to_owned(), label: label.to_owned(), enabled: true }
}

/// The label of the entry for the recent file `path`, whose final component
/// is `name`.
pub fn recent_label(path: &str, name: Option<String>) -> (r: String)
    ensures
        r@ == label_for(
            path@,
            match name {
                Some(name) => Some(name@),
                None => None,
            },
        ),
{
    match name {
        Some(name) => name,
        None => path.to_owned(),
    }
}

/// The labels of the entries for the recent files `recents`.
pub fn recent_labels(recents: &Vec<String>) -> (r: Vec<String>)
    ensures
        r.deep_view() == labels_of(recents.deep_view()),
{
    let mut labels: Vec<String> = Vec::new();
    let mut i: usize = 0;
    while i < recents.len()
        invariant
            i <= recents.len(),
            labels@.len() == i,
            forall|j: int|
                0 <= j < i ==> (#[trigger] labels@[j])@ == label_for(
                    recents@[j]@,
                    final_component(recents@[j]@),
                ),
        decreases recents.len() - i,
    {
        let path: &str = recents[i].as_str();
        let label = recent_label(path, path_file_name(path));
        labels.push(label);
        i += 1;
    }
    assert(labels.deep_view() =~= labels_of(recents.deep_view()));
    labels
}

/// The entry for the recent file at `index`, labelled `label`.
pub fn recent_entry(index: usize, label: &str) -> (r: MenuItem)
    ensures
        r@ == entry(recent_id(index as nat), label@),
{
    let number = decimal_text(index as u128);
    MenuItem { id: joined("recent:", number.as_str()), label: label.to_owned(), enabled: true }
}

/// The menu for recent files with the labels `labels`.
pub fn menu_from_labels(labels: &Vec<String>) -> (r: MenuDescriptor)
    ensures
        r@ == menu_of_labels(labels.deep_view()),
{
    let mut file: Vec<MenuItem> = Vec::new();
    file.push(text_entry("file_new", "New"));
    file.push(text_entry("file_open", "Open"));
    file.push(text_entry("file_open_folder", "Open Folder"));
    file.push(text_entry("file_preferences", "Preferences"));
    file.push(text_entry("file_save", "Save"));
    file.push(text_entry("file_save_as", "Save As"));
    let mut recent: Vec<MenuItem> = Vec::new();
    if labels.len() == 0 {
        recent.push(
            MenuItem { id: String::new(), label: "No recent files".to_owned(), enabled: false },
        );
    } else {
        let mut i: usize = 0;
        while i < labels.len()
            invariant
                i <= labels.len(),
                recent@.len() == i,
                forall|j: int|
                    0 <= j < i ==> (#[trigger] recent@[j])@ == entry(
                        recent_id(j as nat),
                        labels@[j]@,
                    ),
            decreases labels.len() - i,
        {
            recent.push(recent_entry(i, labels[i].as_str()));
            i += 1;
        }
    }
    let mut view: Vec<MenuItem> = Vec::new();
    view.push(text_entry("view_toggle_preview", "Toggle Source"));
    view.push(text_entry("view_toggle_theme", "Toggle Theme"));
    let r = MenuDescriptor {
        file: Submenu { label: "File".to_owned(), items: file },
        open_recent: Submenu { label: "Open Recent".to_owned(), items: recent },
        view: Submenu { label: "View".to_owned(), items: view },
    };
    assert(r@.file.items =~= file_entries());
    assert(r@.view.items =~= view_entries());
    assert(r@.open_recent.items =~= recent_entries(labels.deep_view()));
    r
}

/// The menu for the recent files `recents`: the fixed `File` and `View`
/// groups, and in `Open Recent` one entry for each recent file, in order.
pub fn build_menu(recents: &Vec<String>) -> (r: MenuDescriptor)
    ensures
        r@ == menu_of(recents.deep_view()),
{
    let labels = recent_labels(recents);
    menu_from_labels(&labels)
}

/// With no recent file, `Open Recent` holds the disabled placeholder and
/// nothing else. Otherwise it holds as many entries as there are recent
/// files, all enabled, the one at each position carrying that position in
/// its identifier.
pub proof fn lemma_recent_entries_follow_the_list(recents: Seq<Seq<char>>)
    ensures
        recents.len() == 0 ==> menu_of(recents).open_recent.items == seq![placeholder()],
        !placeholder().enabled,
        recents.len() > 0 ==> menu_of(recents).open_recent.items.len() == recents.len(),
        forall|i: int|
            0 <= i < recents.len() ==> {
                let item = #[trigger] menu_of(recents).open_recent.items[i];
                &&& item.id == recent_id(i as nat)
                &&& item.enabled
                &&& item.label == label_for(recents[i], final_component(recents[i]))
            },
{
}

} // verus!
