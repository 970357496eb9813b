//! Copying a directory with everything below it.
//!
//! The copy is a task. The caller performs the action that the task stands at and reports what
//! came of it to `step`, until the task is over.

use vstd::prelude::*;
use vstd::string::*;

use crate::platform;
use crate::platform::{join_path, Platform};
use crate::text;

verus! {

/// An entry of a directory.
#[derive(Debug)]
pub enum DirEntry {
    Directory(String),
    File(String),
    /// The entry could not be read, for this reason.
    Unreadable(String),
}

/// What is still to be copied.
#[derive(Debug)]
pub enum CopyItem {
    Directory { from: String, to: String },
    File { from: String, to: String },
    Unreadable(String),
}

/// The model of what is still to be copied.
#[verifier::ext_equal]
pub enum ItemView {
    Directory(Seq<char>, Seq<char>),
    File(Seq<char>, Seq<char>),
    Unreadable(Seq<char>),
}

impl View for CopyItem {
    type V = ItemView;

    open spec fn view(&self) -> ItemView {
        match self {
            CopyItem::Directory { from, to } => ItemView::Directory(from@, to@),
            CopyItem::File { from, to } => ItemView::File(from@, to@),
            CopyItem::Unreadable(reason) => ItemView::Unreadable(reason@),
        }
    }
}

/// The models of what is still to be copied.
pub open spec fn items(list: Seq<CopyItem>) -> Seq<ItemView> {
    Seq::new(list.len(), |i: int| list[i]@)
}

/// What the caller of a copy does next.
#[derive(Debug)]
pub enum CopyAction {
    /// Create the directory `to` and those above it.
    CreateDir { from: String, to: String },
    /// List the directory `from`.
    ReadDir { from: String, to: String },
    /// Copy the file `from` to `to`.
    CopyFile { from: String, to: String },
    /// Everything has been copied.
    Done,
    /// The copy has failed.
    Fail(String),
}

/// The model of an action.
#[verifier::ext_equal]
pub enum CopyActionView {
    CreateDir(Seq<char>, Seq<char>),
    ReadDir(Seq<char>, Seq<char>),
    CopyFile(Seq<char>, Seq<char>),
    Done,
    Fail(Seq<char>),
}

impl View for CopyAction {
    type V = CopyActionView;

    open spec fn view(&self) -> CopyActionView {
        match self {
            CopyAction::CreateDir { from, to } => CopyActionView::CreateDir(from@, to@),
            CopyAction::ReadDir { from, to } => CopyActionView::ReadDir(from@, to@),
            CopyAction::CopyFile { from, to } => CopyActionView::CopyFile(from@, to@),
            CopyAction::Done => CopyActionView::Done,
            CopyAction::Fail(reason) => CopyActionView::Fail(reason@),
        }
    }
}

/// What came of an action.
#[derive(Debug)]
pub enum CopyEvent {
    Succeeded,
    Failed(String),
    /// The directory holds these entries.
    Entries(Vec<DirEntry>),
}

/// A copy at the point that it has reached.
#[derive(Debug)]
pub struct DirCopy {
    platform: Platform,
    /// What is to be copied after the action, in this order.
    later: Vec<CopyItem>,
    action: CopyAction,
}

/// The model of a copy.
#[verifier::ext_equal]
pub struct CopyView {
    pub platform: Platform,
    pub later: Seq<ItemView>,
    pub action: CopyActionView,
}

impl View for DirCopy {
    type V = CopyView;

    closed spec fn view(&self) -> CopyView {
        CopyView { platform: self.platform, later: items(self.later@), action: self.action@ }
    }
}

/// What an entry of the directory `from` asks to be copied to the directory `to`.
pub open spec fn entry_item(
    platform: Platform,
    entry: DirEntry,
    from: Seq<char>,
    to: Seq<char>,
) -> ItemView {
    match entry {
        DirEntry::Directory(name) => ItemView::Directory(
            platform::path_below(platform, from, name@),
            platform::path_below(platform, to, name@),
        ),
        DirEntry::File(name) => ItemView::File(
            platform::path_below(platform, from, name@),
            platform::path_below(platform, to, name@),
        ),
        DirEntry::Unreadable(reason) => ItemView::Unreadable(reason@),
    }
}

/// What the entries of the directory `from` ask to be copied to the directory `to`.
pub open spec fn entry_items(
    platform: Platform,
    entries: Seq<DirEntry>,
    from: Seq<char>,
    to: Seq<char>,
) -> Seq<ItemView> {
    Seq::new(entries.len(), |i: int| entry_item(platform, entries[i], from, to))
}

/// The action that copies an item.
pub open spec fn item_action(item: ItemView) -> CopyActionView {
    match item {
        ItemView::Directory(from, to) => CopyActionView::CreateDir(from, to),
        ItemView::File(from, to) => CopyActionView::CopyFile(from, to),
        ItemView::Unreadable(reason) => CopyActionView::Fail("read entry: "@ + reason),
    }
}

impl CopyView {
    /// The same copy at another action.
    pub open spec fn at(self, action: CopyActionView) -> CopyView {
        CopyView { action, ..self }
    }

    /// The copy that turns to the next item, or is over where none is left.
    pub open spec fn at_next_item(self) -> CopyView {
        if self.later.len() == 0 {
            self.at(CopyActionView::Done)
        } else {
            CopyView { later: self.later.drop_first(), ..self }.at(item_action(self.later[0]))
        }
    }

    /// Where the copy stands after its action came to `event`. A directory is created before
    /// what it holds is copied, and everything in it comes before what follows it. The copy stays
    /// where it is where the event is none of the action.
    pub open spec fn after(self, event: CopyEvent) -> CopyView {
        match (self.action, event) {
            (CopyActionView::CreateDir(from, to), CopyEvent::Succeeded) => self.at(
                CopyActionView::ReadDir(from, to),
            ),
            (CopyActionView::CreateDir(_, to), CopyEvent::Failed(reason)) => self.at(
                CopyActionView::Fail("create "@ + to + ": "@ + reason@),
            ),
            (CopyActionView::ReadDir(from, to), CopyEvent::Entries(entries)) => CopyView {
                later: entry_items(self.platform, entries@, from, to) + self.later,
                ..self
            }.at_next_item(),
            (CopyActionView::ReadDir(from, _), CopyEvent::Failed(reason)) => self.at(
                CopyActionView::Fail("read "@ + from + ": "@ + reason@),
            ),
            (CopyActionView::CopyFile(_, _), CopyEvent::Succeeded) => self.at_next_item(),
            (CopyActionView::CopyFile(from, _), CopyEvent::Failed(reason)) => self.at(
                CopyActionView::Fail("copy "@ + from + ": "@ + reason@),
            ),
            _ => self,
        }
    }
}

fn path_message(prefix: &str, path: &str, reason: &str) -> (message: String)
    ensures
        message@ == prefix@ + path@ + ": "@ + reason@,
{
    let mut message = prefix.to_owned();
    message.append(path);
    message.append(": ");
    message.append(reason);
    message
}

fn items_of(platform: Platform, entries: &Vec<DirEntry>, from: &str, to: &str) -> (list: Vec<
    CopyItem,
>)
    ensures
        items(list@) == entry_items(platform, entries@, from@, to@),
{
    let mut list: Vec<CopyItem> = Vec::new();
    for i in 0..entries.len()
        invariant
            list@.len() == i,
            forall|k: int|
                0 <= k < i ==> (#[trigger] list@[k])@ == entry_item(
                    platform,
                    entries@[k],
                    from@,
                    to@,
                ),
    {
        list.push(
            match &entries[i] {
                DirEntry::Directory(name) => CopyItem::Directory {
                    from: join_path(platform, from, name.as_str()),
                    to: join_path(platform, to, name.as_str()),
                },
                DirEntry::File(name) => CopyItem::File {
                    from: join_path(platform, from, name.as_str()),
                    to: join_path(platform, to, name.as_str()),
                },
                DirEntry::Unreadable(reason) => CopyItem::Unreadable(reason.clone()),
            },
        );
    }
    assert(items(list@) == entry_items(platform, entries@, from@, to@));
    list
}

/// Begins to copy the directory `src` with everything below it to `dst`.
pub fn copy_dir_all(platform: Platform, src: &str, dst: &str) -> (copy: DirCopy)
    ensures
        copy@ == (CopyView {
            platform,
            later: seq![],
            action: CopyActionView::CreateDir(src@, dst@),
        }),
{
    let copy = DirCopy {
        platform,
        later: Vec::new(),
        action: CopyAction::CreateDir { from: src.to_owned(), to: dst.to_owned() },
    };
    assert(items(copy.later@) == Seq::<ItemView>::empty());
    copy
}

impl DirCopy {
    /// What is to be done next.
    pub fn action(&self) -> (action: &CopyAction)
        ensures
            action@ == self@.action,
    {
        &self.action
    }

    fn at(self, action: CopyAction) -> (copy: DirCopy)
        ensures
            copy@ == self@.at(action@),
    {
        DirCopy { action, ..self }
    }

    fn at_next_item(self) -> (copy: DirCopy)
        ensures
            copy@ == self@.at_next_item(),
    {
        let ghost before = self@;
        let mut copy = self;
        if copy.later.len() == 0 {
            copy.at(CopyAction::Done)
        } else {
            let item = copy.later.remove(0);
            assert(before.later[0] == item@);
            assert(items(copy.later@) == before.later.drop_first());
            copy.action = match item {
                CopyItem::Directory { from, to } => CopyAction::CreateDir { from, to },
                CopyItem::File { from, to } => CopyAction::CopyFile { from, to },
                CopyItem::Unreadable(reason) => {
                    let mut message = "read entry: ".to_owned();
                    message.append(reason.as_str());
                    CopyAction::Fail(message)
                },
            };
            copy
        }
    }

    /// Takes the copy on after its action came to `event`.
    pub fn step(self, event: CopyEvent) -> (copy: DirCopy)
        ensures
            copy@ == self@.after(event),
    {
        match (&self.action, event) {
            (CopyAction::CreateDir { from, to }, CopyEvent::Succeeded) => {
                let (from, to) = (from.clone(), to.clone());
                self.at(CopyAction::ReadDir { from, to })
            },
            (CopyAction::CreateDir { to, .. }, CopyEvent::Failed(reason)) => {
                let message = path_message("create ", to.as_str(), reason.as_str());
                self.at(CopyAction::Fail(message))
            },
            (CopyAction::ReadDir { from, to }, CopyEvent::Entries(entries)) => {
                let ghost before = self@;
                let mut list = items_of(self.platform, &entries, from.as_str(), to.as_str());
                let ghost found = items(list@);
                let mut copy = self;
                list.append(&mut copy.later);
                assert(items(list@) == found + before.later);
                copy.later = list;
                copy.at_next_item()
            },
            (CopyAction::ReadDir { from, .. }, CopyEvent::Failed(reason)) => {
                let message = path_message("read ", from.as_str(), reason.as_str());
                self.at(CopyAction::Fail(message))
            },
            (CopyAction::CopyFile { .. }, CopyEvent::Succeeded) => self.at_next_item(),
            (CopyAction::CopyFile { from, .. }, CopyEvent::Failed(reason)) => {
                let message = path_message("copy ", from.as_str(), reason.as_str());
                self.at(CopyAction::Fail(message))
            },
            _ => self,
        }
    }
}

/// Whether two paths lie below `src` and `dst`, or are the two themselves.
pub open spec fn pair_stays_below(
    platform: Platform,
    from: Seq<char>,
    to: Seq<char>,
    src: Seq<char>,
    dst: Seq<char>,
) -> bool {
    platform::lies_below(platform, from, src) && platform::lies_below(platform, to, dst)
}

/// Whether an item lies below `src` and goes below `dst`, or to the two themselves.
pub open spec fn item_stays_below(
    platform: Platform,
    item: ItemView,
    src: Seq<char>,
    dst: Seq<char>,
) -> bool {
    match item {
        ItemView::Directory(from, to) => pair_stays_below(platform, from, to, src, dst),
        ItemView::File(from, to) => pair_stays_below(platform, from, to, src, dst),
        ItemView::Unreadable(_) => true,
    }
}

/// Whether a copy reads nothing but what lies below `src`, and writes nothing but what lies below
/// `dst`.
pub open spec fn stays_below(copy: CopyView, src: Seq<char>, dst: Seq<char>) -> bool {
    &&& forall|i: int|
        0 <= i < copy.later.len() ==> item_stays_below(
            copy.platform,
            #[trigger] copy.later[i],
            src,
            dst,
        )
    &&& match copy.action {
        CopyActionView::CreateDir(from, to) => pair_stays_below(copy.platform, from, to, src, dst),
        CopyActionView::ReadDir(from, to) => pair_stays_below(copy.platform, from, to, src, dst),
        CopyActionView::CopyFile(from, to) => pair_stays_below(copy.platform, from, to, src, dst),
        _ => true,
    }
}

/// A copy begins with nothing but the two directories that it was given.
pub proof fn law_copy_begins_with_its_directories(
    platform: Platform,
    src: Seq<char>,
    dst: Seq<char>,
)
    ensures
        stays_below(
            CopyView { platform, later: seq![], action: CopyActionView::CreateDir(src, dst) },
            src,
            dst,
        ),
{
    platform::lemma_lies_below_itself(platform, src);
    platform::lemma_lies_below_itself(platform, dst);
}

/// Whatever the directories hold, a copy reads only below the directory that it was given to read
/// and writes only below the one that it was given to write.
pub proof fn law_copy_stays_below_its_directories(
    copy: CopyView,
    event: CopyEvent,
    src: Seq<char>,
    dst: Seq<char>,
)
    requires
        stays_below(copy, src, dst),
    ensures
        stays_below(copy.after(event), src, dst),
{
    let listed = match (copy.action, event) {
        (CopyActionView::ReadDir(from, to), CopyEvent::Entries(entries)) => {
            let found = entry_items(copy.platform, entries@, from, to);
            assert forall|i: int| 0 <= i < found.len() implies item_stays_below(
                copy.platform,
                #[trigger] found[i],
                src,
                dst,
            ) by {
                match entries@[i] {
                    DirEntry::Directory(name) => {
                        platform::lemma_below_stays_below(copy.platform, from, src, name@);
                        platform::lemma_below_stays_below(copy.platform, to, dst, name@);
                    },
                    DirEntry::File(name) => {
                        platform::lemma_below_stays_below(copy.platform, from, src, name@);
                        platform::lemma_below_stays_below(copy.platform, to, dst, name@);
                    },
                    DirEntry::Unreadable(_) => {},
                }
            }
            CopyView { later: found + copy.later, ..copy }
        },
        _ => copy,
    };
    assert forall|i: int| 0 <= i < listed.later.len() implies item_stays_below(
                copy.platform,
                #[trigger] listed.later[i],
                src,
                dst,
            ) by {
        let added = listed.later.len() - copy.later.len();
        if i >= added {
            assert(listed.later[i] == copy.later[i - added]);
        }
    }
    if listed.later.len() > 0 {
        assert(item_stays_below(copy.platform, listed.later[0], src, dst));
    }
    let after = copy.after(event);
    assert forall|i: int| 0 <= i < after.later.len() implies item_stays_below(
                copy.platform,
                #[trigger] after.later[i],
                src,
                dst,
            ) by {
        assert(after.later[i] == listed.later[i] || after.later[i] == listed.later[i + 1]);
    }
}

/// What is still to be copied, where the next of it is the item of the action.
pub open spec fn remaining(copy: CopyView, work: Seq<ItemView>) -> bool {
    if work.len() == 0 {
        copy.action is Done && copy.later.len() == 0
    } else {
        copy.action == item_action(work[0]) && copy.later == work.drop_first()
    }
}

/// Everything that a directory holds is copied, in the order in which it was listed and before
/// what was still to be copied; a file that was copied is followed by what comes next. So a copy
/// is done only when nothing that it has listed is left.
pub proof fn law_nothing_listed_is_left_out(copy: CopyView, event: CopyEvent)
    ensures
        match (copy.action, event) {
            (CopyActionView::ReadDir(from, to), CopyEvent::Entries(entries)) => remaining(
                copy.after(event),
                entry_items(copy.platform, entries@, from, to) + copy.later,
            ),
            (CopyActionView::CopyFile(_, _), CopyEvent::Succeeded) => remaining(
                copy.after(event),
                copy.later,
            ),
            (CopyActionView::Done, _) => copy.after(event) == copy,
            _ => !(copy.after(event).action is Done),
        },
{
}

/// A directory is listed after it was created, and what it holds goes where it went.
pub proof fn law_created_dir_is_listed(copy: CopyView, from: Seq<char>, to: Seq<char>)
    requires
        copy.action == CopyActionView::CreateDir(from, to),
    ensures
        copy.after(CopyEvent::Succeeded) == (CopyView {
            action: CopyActionView::ReadDir(from, to),
            ..copy
        }),
{
}

/// An action that fails ends the copy, and the message holds what failed, the path and the reason.
pub proof fn law_failed_action_ends_the_copy(
    copy: CopyView,
    from: Seq<char>,
    to: Seq<char>,
    reason: String,
)
    ensures
        copy.action == CopyActionView::CreateDir(from, to) ==> copy.after(
            CopyEvent::Failed(reason),
        ).action == CopyActionView::Fail("create "@ + to + ": "@ + reason@),
        copy.action == CopyActionView::ReadDir(from, to) ==> copy.after(
            CopyEvent::Failed(reason),
        ).action == CopyActionView::Fail("read "@ + from + ": "@ + reason@),
        copy.action == CopyActionView::CopyFile(from, to) ==> copy.after(
            CopyEvent::Failed(reason),
        ).action == CopyActionView::Fail("copy "@ + from + ": "@ + reason@),
{
}

/// A copy that is done or has failed stays as it is.
pub proof fn law_copy_ends_for_good(copy: CopyView, event: CopyEvent)
    requires
        copy.action is Done || copy.action is Fail,
    ensures
        copy.after(event) == copy,
{
}

/// Each entry of a directory goes under its name to the same place below the other directory:
/// directories as directories and files as files. One that could not be read ends the copy when
/// its turn comes.
pub proof fn law_entries_keep_their_names(
    platform: Platform,
    entries: Seq<DirEntry>,
    from: Seq<char>,
    to: Seq<char>,
    i: int,
)
    requires
        0 <= i < entries.len(),
    ensures
        entry_items(platform, entries, from, to).len() == entries.len(),
        match entries[i] {
            DirEntry::Directory(name) => entry_items(platform, entries, from, to)[i]
                == ItemView::Directory(
                platform::path_below(platform, from, name@),
                platform::path_below(platform, to, name@),
            ),
            DirEntry::File(name) => entry_items(platform, entries, from, to)[i] == ItemView::File(
                platform::path_below(platform, from, name@),
                platform::path_below(platform, to, name@),
            ),
            DirEntry::Unreadable(reason) => entry_items(platform, entries, from, to)[i]
                == ItemView::Unreadable(reason@),
        },
{
}

/// A directory is copied by creating it, a file by copying it, and an entry that could not be read
/// fails the copy with the reason.
pub proof fn law_items_are_copied_as_what_they_are(from: Seq<char>, to: Seq<char>)
    ensures
        item_action(ItemView::Directory(from, to)) == CopyActionView::CreateDir(from, to),
        item_action(ItemView::File(from, to)) == CopyActionView::CopyFile(from, to),
        item_action(ItemView::Unreadable(from)) == CopyActionView::Fail("read entry: "@ + from),
{
}

/// A file that was copied is followed by the next item, and ends the copy where none is left; so
/// does a directory that holds nothing.
pub proof fn law_next_item_follows(copy: CopyView, entries: Vec<DirEntry>)
    requires
        copy.action is CopyFile || (copy.action is ReadDir && entries@.len() == 0),
    ensures
        ({
            let next = if copy.action is CopyFile {
                copy.after(CopyEvent::Succeeded)
            } else {
                copy.after(CopyEvent::Entries(entries))
            };
            &&& next.platform == copy.platform
            &&& copy.later.len() == 0 ==> next.action == CopyActionView::Done
            &&& copy.later.len() > 0 ==> next.later == copy.later.drop_first() && next.action
                == item_action(copy.later[0])
        }),
{
    if copy.action is ReadDir {
        let (from, to) = (copy.action->ReadDir_0, copy.action->ReadDir_1);
        assert(entry_items(copy.platform, entries@, from, to) + copy.later == copy.later);
    }
}

/// The models hold what the values hold.
pub proof fn law_models_of_a_copy_are_complete(item: CopyItem, action: CopyAction)
    ensures
        match item {
            CopyItem::Directory { from, to } => item@ == ItemView::Directory(from@, to@),
            CopyItem::File { from, to } => item@ == ItemView::File(from@, to@),
            CopyItem::Unreadable(reason) => item@ == ItemView::Unreadable(reason@),
        },
        match action {
            CopyAction::CreateDir { from, to } => action@ == CopyActionView::CreateDir(from@, to@),
            CopyAction::ReadDir { from, to } => action@ == CopyActionView::ReadDir(from@, to@),
            CopyAction::CopyFile { from, to } => action@ == CopyActionView::CopyFile(from@, to@),
            CopyAction::Done => action@ == CopyActionView::Done,
            CopyAction::Fail(reason) => action@ == CopyActionView::Fail(reason@),
        },
{
}

/// An event that is none of an action leaves a copy where it is.
pub proof fn law_foreign_event_changes_no_copy(copy: CopyView, event: CopyEvent)
    requires
        copy.action is CreateDir || copy.action is CopyFile ==> event is Entries,
        copy.action is ReadDir ==> event is Succeeded,
    ensures
        copy.after(event) == copy,
{
}

} // verus!
