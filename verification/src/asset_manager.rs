//! The asset manager tab: which rows it shows and in what order, what its
//! cells say, and what clicks do to its state.

use vstd::prelude::*;

use crate::assets::{AssetKind, Creator};
use crate::asset_view::View as Shown;
use crate::bridge::{CreationItem, GroupTarget, UniverseTarget};
use crate::lists::{first_where, first_where_is, first_where_none, TextSet};
use crate::models::{position_in, position_of, Account};
use crate::text::{decimal, decimal_of, join2, join3};

verus! {

// ---------------------------------------------------------------------------
// State
// ---------------------------------------------------------------------------

/// A node in the left tree.
#[derive(Debug, Clone, Copy, PartialEq, Eq, Structural)]
pub enum TreeNode {
    /// Everything that was uploaded from here. Needs no network.
    Uploads,
    /// A creator's inventory on Roblox.
    Inventory(Creator),
}

/// How the asset list is laid out.
#[derive(Debug, Clone, Copy, PartialEq, Eq, Structural)]
pub enum ViewMode {
    Details,
    List,
    SmallIcons,
    MediumIcons,
    LargeIcons,
}

impl ViewMode {
    pub open spec fn named(self) -> Seq<char> {
        match self {
            ViewMode::Details => "Details"@,
            ViewMode::List => "List"@,
            ViewMode::SmallIcons => "Small icons"@,
            ViewMode::MediumIcons => "Medium icons"@,
            ViewMode::LargeIcons => "Large icons"@,
        }
    }

    pub fn label(self) -> (s: &'static str)
        ensures
            s@ == self.named(),
    {
        match self {
            ViewMode::Details => "Details",
            ViewMode::List => "List",
            ViewMode::SmallIcons => "Small icons",
            ViewMode::MediumIcons => "Medium icons",
            ViewMode::LargeIcons => "Large icons",
        }
    }

    /// Every layout, in the order of the menu.
    pub fn all() -> (r: [ViewMode; 5])
        ensures
            r@ == seq![
                ViewMode::Details,
                ViewMode::List,
                ViewMode::SmallIcons,
                ViewMode::MediumIcons,
                ViewMode::LargeIcons,
            ],
    {
        [
            ViewMode::Details,
            ViewMode::List,
            ViewMode::SmallIcons,
            ViewMode::MediumIcons,
            ViewMode::LargeIcons,
        ]
    }

    /// The edge of an icon in points. `None` where no icon is drawn.
    pub fn icon_px(self) -> (r: Option<u32>)
        ensures
            r == (match self {
                ViewMode::Details => None,
                ViewMode::List => Some(16u32),
                ViewMode::SmallIcons => Some(48u32),
                ViewMode::MediumIcons => Some(96u32),
                ViewMode::LargeIcons => Some(144u32),
            }),
    {
        match self {
            ViewMode::Details => None,
            ViewMode::List => Some(16),
            ViewMode::SmallIcons => Some(48),
            ViewMode::MediumIcons => Some(96),
            ViewMode::LargeIcons => Some(144),
        }
    }

    /// Whether tiles stack the name under the icon.
    pub fn is_grid(self) -> (b: bool)
        ensures
            b == (self == ViewMode::SmallIcons || self == ViewMode::MediumIcons || self
                == ViewMode::LargeIcons),
    {
        match self {
            ViewMode::SmallIcons | ViewMode::MediumIcons | ViewMode::LargeIcons => true,
            _ => false,
        }
    }
}

/// Every layout is in the menu once.
pub proof fn every_layout_is_offered(mode: ViewMode)
    ensures
        seq![
            ViewMode::Details,
            ViewMode::List,
            ViewMode::SmallIcons,
            ViewMode::MediumIcons,
            ViewMode::LargeIcons,
        ].contains(mode),
{
    let all = seq![
        ViewMode::Details,
        ViewMode::List,
        ViewMode::SmallIcons,
        ViewMode::MediumIcons,
        ViewMode::LargeIcons,
    ];
    match mode {
        ViewMode::Details => assert(all[0] == mode),
        ViewMode::List => assert(all[1] == mode),
        ViewMode::SmallIcons => assert(all[2] == mode),
        ViewMode::MediumIcons => assert(all[3] == mode),
        ViewMode::LargeIcons => assert(all[4] == mode),
    }
}

/// Sortable columns.
#[derive(Debug, Clone, Copy, PartialEq, Eq, Structural)]
pub enum SortKey {
    Name,
    Id,
    Kind,
    Date,
    CreatorName,
}

/// How Roblox writes the kinds of assets.
#[derive(Debug)]
pub struct KindNames {
    pub decal: String,
    pub audio: String,
    pub model: String,
    pub animation: String,
    pub video: String,
    pub other: String,
}

impl KindNames {
    pub open spec fn written(self, kind: AssetKind) -> Seq<char> {
        match kind {
            AssetKind::Decal => self.decal@,
            AssetKind::Audio => self.audio@,
            AssetKind::Model => self.model@,
            AssetKind::Animation => self.animation@,
            AssetKind::Video => self.video@,
            AssetKind::Other => self.other@,
        }
    }

    pub fn of(&self, kind: AssetKind) -> (s: &str)
        ensures
            s@ == self.written(kind),
    {
        match kind {
            AssetKind::Decal => &self.decal,
            AssetKind::Audio => &self.audio,
            AssetKind::Model => &self.model,
            AssetKind::Animation => &self.animation,
            AssetKind::Video => &self.video,
            AssetKind::Other => &self.other,
        }
    }
}

/// One creator's inventory as fetched from Roblox.
///
/// The listing wants one kind at a time, so "all types" is a request per kind
/// and a cursor per kind.
#[derive(Debug)]
pub struct RemoteInventory {
    pub node: Option<TreeNode>,
    /// The filter this was fetched for. `None` is all types.
    pub filter: Option<AssetKind>,
    /// Set once something was asked for.
    pub requested: bool,
    pub items: Vec<CreationItem>,
    /// The next page of each kind that has one.
    pub cursors: Vec<(AssetKind, String)>,
    /// Requests that are not answered yet.
    pub inflight: usize,
    pub error: Option<String>,
}

impl RemoteInventory {
    /// Whether nothing was asked for yet.
    pub open spec fn unasked(self) -> bool {
        &&& self.node is None
        &&& self.filter is None
        &&& !self.requested
        &&& self.items@.len() == 0
        &&& self.cursors@.len() == 0
        &&& self.inflight == 0
        &&& self.error is None
    }

    /// Nothing asked for, nothing there.
    pub fn new() -> (r: RemoteInventory)
        ensures
            r.unasked(),
    {
        RemoteInventory {
            node: None,
            filter: None,
            requested: false,
            items: Vec::new(),
            cursors: Vec::new(),
            inflight: 0,
            error: None,
        }
    }

    pub fn loading(&self) -> (b: bool)
        ensures
            b == (self.inflight > 0),
    {
        self.inflight > 0
    }

    pub fn has_more(&self) -> (b: bool)
        ensures
            b == (self.cursors@.len() > 0),
    {
        self.cursors.len() > 0
    }

    /// Whether this answers the node and filter.
    pub open spec fn answers(self, node: TreeNode, filter: Option<AssetKind>) -> bool {
        self.requested && self.node == Some(node) && self.filter == filter
    }

    /// Whether this answers the node and filter.
    pub fn matches(&self, node: TreeNode, filter: Option<AssetKind>) -> (b: bool)
        ensures
            b == self.answers(node, filter),
    {
        let same_node: bool = match self.node {
            Some(n) => n == node,
            None => false,
        };
        let same_filter: bool = match (self.filter, filter) {
            (Some(a), Some(b)) => a == b,
            (None, None) => true,
            _ => false,
        };
        self.requested && same_node && same_filter
    }
}

/// What the tab remembers.
#[derive(Debug)]
pub struct AssetManagerState {
    pub view: Shown,
    /// The account whose cookie signs uploads.
    pub acting_user_id: Option<u64>,
    /// The creator of new rows. `None` is the acting account.
    pub batch_creator: Option<Creator>,
    pub search: String,
    pub type_filter: Option<AssetKind>,
    pub sort: SortKey,
    pub sort_ascending: bool,
    /// Queue rows ticked for upload.
    pub checked: TextSet,
    /// Rows selected for a bulk action: row identifiers of the library, asset
    /// numbers of the inventory.
    pub selected: TextSet,
    /// The confirmation is open for this many rows.
    pub confirm_upload: Option<usize>,
    pub grant_open: bool,
    pub grant_universe: Option<u64>,
    pub grant_manual: String,
    /// Applied to every row of the next batch.
    pub auto_grant_universe: Option<u64>,
    pub node: TreeNode,
    pub view_mode: ViewMode,
}

impl AssetManagerState {
    pub open spec fn wf(self) -> bool {
        self.checked.wf() && self.selected.wf()
    }
}

impl AssetManagerState {
    /// Whether nothing was done to the tab yet: the uploads are shown, newest
    /// first.
    pub open spec fn untouched(self) -> bool {
        &&& self.view == Shown::Library
        &&& self.acting_user_id is None
        &&& self.batch_creator is None
        &&& self.search@.len() == 0
        &&& self.type_filter is None
        &&& self.sort == SortKey::Date
        &&& !self.sort_ascending
        &&& self.checked@ == Set::<Seq<char>>::empty()
        &&& self.selected@ == Set::<Seq<char>>::empty()
        &&& self.confirm_upload is None
        &&& !self.grant_open
        &&& self.grant_universe is None
        &&& self.grant_manual@.len() == 0
        &&& self.auto_grant_universe is None
        &&& self.node == TreeNode::Uploads
        &&& self.view_mode == ViewMode::Details
    }
}

impl Default for AssetManagerState {
    fn default() -> (s: Self)
        ensures
            s.wf(),
            s.untouched(),
    {
        AssetManagerState {
            view: Shown::Library,
            acting_user_id: None,
            batch_creator: None,
            search: String::new(),
            type_filter: None,
            sort: SortKey::Date,
            sort_ascending: false,
            checked: TextSet::new(),
            selected: TextSet::new(),
            confirm_upload: None,
            grant_open: false,
            grant_universe: None,
            grant_manual: String::new(),
            auto_grant_universe: None,
            node: TreeNode::Uploads,
            view_mode: ViewMode::Details,
        }
    }
}

/// Something the tab wants done.
#[derive(Debug)]
pub enum AssetManagerAction {
    /// Pick files and stage them.
    PickFiles,
    RemoveRow(String),
    /// Drop every row that has finished.
    ClearFinished,
    /// Put a failed row back in the queue.
    RetryRow(String),
    /// Ask for confirmation before uploading these rows.
    RequestUpload(Vec<String>),
    OpenGrantDialog,
    /// Load an inventory. No filter is every kind.
    LoadInventory { node: TreeNode, filter: Option<AssetKind> },
    /// Show this file where it lies.
    RevealFile(String),
    /// Load the next page of the inventory.
    LoadMoreInventory,
}

// ---------------------------------------------------------------------------
// Clicks
// ---------------------------------------------------------------------------

/// The sorting after a click on a column's header: the same column turns
/// round, another starts where it is most useful, newest first for dates and
/// A to Z for everything else.
pub open spec fn sort_clicked(sort: SortKey, ascending: bool, key: SortKey) -> (SortKey, bool) {
    if sort == key {
        (key, !ascending)
    } else {
        (key, key != SortKey::Date)
    }
}

/// A click on a column's header.
pub fn apply_sort_click(state: &mut AssetManagerState, key: SortKey)
    ensures
        *final(state) == (AssetManagerState {
            sort: sort_clicked(old(state).sort, old(state).sort_ascending, key).0,
            sort_ascending: sort_clicked(old(state).sort, old(state).sort_ascending, key).1,
            ..*old(state)
        }),
{
    if state.sort == key {
        state.sort_ascending = !state.sort_ascending;
    } else {
        state.sort = key;
        state.sort_ascending = key != SortKey::Date;
    }
}

/// Two clicks on the column that is sorted by change nothing.
pub proof fn sorting_twice_turns_back(sort: SortKey, ascending: bool)
    ensures
        ({
            let once = sort_clicked(sort, ascending, sort);
            sort_clicked(once.0, once.1, sort) == (sort, ascending)
        }),
{
}

/// The caret behind a column's label.
pub fn sort_caret(key: SortKey, active: SortKey, ascending: bool) -> (s: &'static str)
    ensures
        s@ == (if active != key {
            ""@
        } else if ascending {
            " \u{2b06}"@
        } else {
            " \u{2b07}"@
        }),
{
    if active == key {
        if ascending {
            " \u{2b06}"
        } else {
            " \u{2b07}"
        }
    } else {
        ""
    }
}

/// The selection after a click on a row: a plain click selects the row alone,
/// or nothing where it was selected alone; a click that adds turns the row's
/// own selection round.
pub open spec fn clicked(selected: Set<Seq<char>>, key: Seq<char>, adding: bool) -> Set<Seq<char>> {
    if adding {
        if selected.contains(key) {
            selected.remove(key)
        } else {
            selected.insert(key)
        }
    } else if selected == set![key] {
        Set::empty()
    } else {
        set![key]
    }
}

/// A click on a row.
pub fn apply_icon_click(selected: &mut TextSet, key: String, adding: bool)
    requires
        old(selected).wf(),
    ensures
        final(selected).wf(),
        final(selected)@ == clicked(old(selected)@, key@, adding),
{
    let ghost before = selected@;
    if !adding {
        let only_this: bool = selected.len() == 1 && selected.contains(&key);
        proof {
            assert(before.finite());
            if only_this {
                assert(before =~= set![key@]) by {
                    assert(before.len() == 1);
                    assert(before.remove(key@).len() == 0);
                    assert(before.remove(key@) =~= Set::empty());
                    assert forall|x: Seq<char>| before.contains(x) implies x == key@ by {
                        if x != key@ {
                            assert(before.remove(key@).contains(x));
                        }
                    }
                }
            } else {
                if before == set![key@] {
                    assert(before.contains(key@));
                    assert(set![key@].remove(key@) =~= Set::empty());
                    assert(before.len() == 1);
                }
            }
        }
        selected.clear();
        if only_this {
            assert(selected@ =~= Set::<Seq<char>>::empty());
            return;
        }
        let ghost k = key@;
        selected.insert(key);
        assert(selected@ =~= set![k]);
    } else {
        if !selected.remove(&key) {
            assert(selected@ =~= before);
            selected.insert(key);
        }
    }
}

/// Adding twice changes nothing.
pub proof fn clicking_twice_turns_back(selected: Set<Seq<char>>, key: Seq<char>)
    ensures
        clicked(clicked(selected, key, true), key, true) == selected,
{
    if selected.contains(key) {
        assert(selected.remove(key).insert(key) =~= selected);
    } else {
        assert(selected.insert(key).remove(key) =~= selected);
    }
}

/// The selection after a secondary click on a row: a row outside the selection
/// is selected alone, so that the menu never acts on another; inside it, the
/// selection stays.
pub fn apply_context_click(selected: &mut TextSet, key: String)
    requires
        old(selected).wf(),
    ensures
        final(selected).wf(),
        final(selected)@ == (if old(selected)@.contains(key@) {
            old(selected)@
        } else {
            set![key@]
        }),
        final(selected)@.contains(key@),
{
    if !selected.contains(&key) {
        let ghost k = key@;
        selected.clear();
        selected.insert(key);
        assert(selected@ =~= set![k]);
    }
}

/// A click on a node of the tree: it is shown, nothing is selected, and an
/// inventory is loaded.
pub fn open_node(state: &mut AssetManagerState, node: TreeNode) -> (action: Option<AssetManagerAction>)
    ensures
        *final(state) == (AssetManagerState {
            node,
            selected: final(state).selected,
            ..*old(state)
        }),
        final(state).selected.wf(),
        final(state).selected@ == Set::<Seq<char>>::empty(),
        action == (match node {
            TreeNode::Uploads => None,
            TreeNode::Inventory(_) => Some(
                AssetManagerAction::LoadInventory { node, filter: old(state).type_filter },
            ),
        }),
{
    let filter: Option<AssetKind> = state.type_filter;
    state.node = node;
    state.selected.clear();
    match node {
        TreeNode::Uploads => None,
        TreeNode::Inventory(_) => Some(AssetManagerAction::LoadInventory { node, filter }),
    }
}

// ---------------------------------------------------------------------------
// Names
// ---------------------------------------------------------------------------

/// The name of the account at a position while names are hidden.
pub open spec fn numbered(accounts: Seq<Account>, user_id: u64) -> Seq<char> {
    "Account "@ + decimal(
        match position_in(accounts, user_id) {
            Some(i) => (i + 1) as nat,
            None => 0,
        },
    )
}

/// The name of an account in the tab.
pub open spec fn account_named(account: Account, accounts: Seq<Account>, anonymize: bool) -> Seq<
    char,
> {
    if anonymize {
        numbered(accounts, account.user_id)
    } else {
        account.shown_as()
    }
}

/// The name of an account in the tab. While names are hidden it is the
/// account's place in the list.
pub fn account_label(account: &Account, accounts: &Vec<Account>, anonymize: bool) -> (s: String)
    ensures
        s@ == account_named(*account, accounts@, anonymize),
{
    if !anonymize {
        return account.label().to_owned();
    }
    let size: usize = accounts.len();
    let number: u64 = match position_of(accounts, account.user_id) {
        Some(i) => {
            assert(i < size);
            (i as u64) + 1
        },
        None => 0,
    };
    join2("Account ", &decimal_of(number))
}

/// The name of a creator.
pub open spec fn creator_named(creator: Creator, accounts: Seq<Account>, anonymize: bool) -> Seq<
    char,
> {
    match creator {
        Creator::User(id) => match position_in(accounts, id) {
            Some(i) => account_named(accounts[i], accounts, anonymize),
            None => "User "@ + decimal(id as nat),
        },
        Creator::Group(id) => "Group "@ + decimal(id as nat),
    }
}

/// The name of a creator: an account by its label, anything else by its
/// number.
pub fn creator_label(creator: Creator, accounts: &Vec<Account>, anonymize: bool) -> (s: String)
    ensures
        s@ == creator_named(creator, accounts@, anonymize),
{
    match creator {
        Creator::User(id) => match position_of(accounts, id) {
            Some(i) => account_label(&accounts[i], accounts, anonymize),
            None => join2("User ", &decimal_of(id)),
        },
        Creator::Group(id) => join2("Group ", &decimal_of(id)),
    }
}

/// The name of the acting account among the creators.
pub open spec fn own_creator_named(user_id: u64, accounts: Seq<Account>, anonymize: bool) -> Seq<
    char,
> {
    match position_in(accounts, user_id) {
        Some(i) => "Me ("@ + account_named(accounts[i], accounts, anonymize) + ")"@,
        None => "Me"@,
    }
}

/// Whether `options` are the creators an account can publish as: itself, then
/// each of the groups.
pub open spec fn creators_offered(
    options: Seq<(Creator, String)>,
    acting: Option<u64>,
    accounts: Seq<Account>,
    groups: Seq<GroupTarget>,
    anonymize: bool,
) -> bool {
    match acting {
        None => options.len() == 0,
        Some(user_id) => {
            &&& options.len() == groups.len() + 1
            &&& options[0].0 == Creator::User(user_id)
            &&& options[0].1@ == own_creator_named(user_id, accounts, anonymize)
            &&& forall|i: int|
                0 <= i < groups.len() ==> (#[trigger] options[i + 1]).0 == Creator::Group(
                    groups[i].group_id,
                ) && options[i + 1].1 == groups[i].name
        },
    }
}

/// The creators an account can publish as.
pub fn creator_options(
    acting: Option<u64>,
    accounts: &Vec<Account>,
    groups: &Vec<GroupTarget>,
    anonymize: bool,
) -> (options: Vec<(Creator, String)>)
    ensures
        creators_offered(options@, acting, accounts@, groups@, anonymize),
{
    let mut options: Vec<(Creator, String)> = Vec::new();
    match acting {
        None => {},
        Some(user_id) => {
            let own: String = match position_of(accounts, user_id) {
                Some(i) => join3("Me (", &account_label(&accounts[i], accounts, anonymize), ")"),
                None => "Me".to_owned(),
            };
            options.push((Creator::User(user_id), own));
            let mut i: usize = 0;
            while i < groups.len()
                invariant
                    0 <= i <= groups@.len(),
                    options@.len() == i + 1,
                    options@[0].0 == Creator::User(user_id),
                    options@[0].1@ == own_creator_named(user_id, accounts@, anonymize),
                    forall|j: int|
                        0 <= j < i ==> (#[trigger] options@[j + 1]).0 == Creator::Group(
                            groups@[j].group_id,
                        ) && options@[j + 1].1 == groups@[j].name,
                decreases groups@.len() - i,
            {
                let ghost before = options@;
                options.push((Creator::Group(groups[i].group_id), groups[i].name.clone()));
                i += 1;
                assert forall|j: int| 0 <= j < i implies (#[trigger] options@[j + 1]).0
                    == Creator::Group(groups@[j].group_id) && options@[j + 1].1
                    == groups@[j].name by {
                    if j < i - 1 {
                        assert(options@[j + 1] == before[j + 1]);
                    }
                }
            }
        },
    }
    options
}

/// The options that stand for a creator.
pub open spec fn stands_for(creator: Creator) -> spec_fn((Creator, String)) -> bool {
    |o: (Creator, String)| o.0 == creator
}

/// The name of a creator among the options.
pub open spec fn option_named(options: Seq<(Creator, String)>, creator: Creator) -> Seq<char> {
    match first_where(options, stands_for(creator)) {
        Some(i) => options[i].1@,
        None => match creator {
            Creator::User(id) => "User "@ + decimal(id as nat),
            Creator::Group(id) => "Group "@ + decimal(id as nat),
        },
    }
}

/// The name of a creator among the options, or its number.
pub fn creator_label_from(options: &Vec<(Creator, String)>, creator: Creator) -> (s: String)
    ensures
        s@ == option_named(options@, creator),
{
    let ghost p = stands_for(creator);
    let mut i: usize = 0;
    while i < options.len()
        invariant
            0 <= i <= options@.len(),
            p == stands_for(creator),
            forall|j: int| 0 <= j < i ==> !p(#[trigger] options@[j]),
        decreases options@.len() - i,
    {
        if options[i].0 == creator {
            proof {
                first_where_is(options@, p, i as int);
            }
            return options[i].1.clone();
        }
        i += 1;
    }
    proof {
        first_where_none(options@, p);
    }
    match creator {
        Creator::User(id) => join2("User ", &decimal_of(id)),
        Creator::Group(id) => join2("Group ", &decimal_of(id)),
    }
}

/// The universes with this number.
pub open spec fn numbered_universe(id: u64) -> spec_fn(UniverseTarget) -> bool {
    |u: UniverseTarget| u.universe_id == id
}

/// What the picker of universes says.
pub open spec fn universe_named(universes: Seq<UniverseTarget>, selected: Option<u64>) -> Seq<char> {
    match selected {
        None => "None"@,
        Some(id) => match first_where(universes, numbered_universe(id)) {
            Some(i) => universes[i].name@,
            None => "Universe "@ + decimal(id as nat),
        },
    }
}

/// What the picker of universes says.
pub fn universe_label(universes: &Vec<UniverseTarget>, selected: Option<u64>) -> (s: String)
    ensures
        s@ == universe_named(universes@, selected),
{
    match selected {
        None => "None".to_owned(),
        Some(id) => {
            let ghost p = numbered_universe(id);
            let mut i: usize = 0;
            while i < universes.len()
                invariant
                    0 <= i <= universes@.len(),
                    selected == Some(id),
                    p == numbered_universe(id),
                    forall|j: int| 0 <= j < i ==> !p(#[trigger] universes@[j]),
                decreases universes@.len() - i,
            {
                if universes[i].universe_id == id {
                    proof {
                        first_where_is(universes@, p, i as int);
                    }
                    return universes[i].name.clone();
                }
                i += 1;
            }
            proof {
                first_where_none(universes@, p);
            }
            join2("Universe ", &decimal_of(id))
        },
    }
}

/// The short tag on a tile that has no picture yet.
pub fn kind_abbreviation(kind: AssetKind) -> (s: &'static str)
    ensures
        s@ == (match kind {
            AssetKind::Decal => "IMG"@,
            AssetKind::Audio => "AUD"@,
            AssetKind::Model => "MDL"@,
            AssetKind::Animation => "ANM"@,
            AssetKind::Video => "VID"@,
            AssetKind::Other => "?"@,
        }),
{
    match kind {
        AssetKind::Decal => "IMG",
        AssetKind::Audio => "AUD",
        AssetKind::Model => "MDL",
        AssetKind::Animation => "ANM",
        AssetKind::Video => "VID",
        AssetKind::Other => "?",
    }
}

/// The menu entry that grants assets.
pub fn grant_label(selected: usize) -> (s: String)
    ensures
        s@ == (if selected > 1 {
            "Grant access to... ("@ + decimal(selected as nat) + " selected)"@
        } else {
            "Grant access to..."@
        }),
{
    if selected > 1 {
        join3("Grant access to... (", &decimal_of(selected as u64), " selected)")
    } else {
        "Grant access to...".to_owned()
    }
}

/// The label of the queue's tab, with the number of rows that are not
/// finished.
pub fn queue_label(unfinished: usize) -> (s: String)
    ensures
        s@ == (if unfinished > 0 {
            "Import Queue ("@ + decimal(unfinished as nat) + ")"@
        } else {
            "Import Queue"@
        }),
{
    if unfinished > 0 {
        join3("Import Queue (", &decimal_of(unfinished as u64), ")")
    } else {
        "Import Queue".to_owned()
    }
}

/// The label of the upload button.
pub fn upload_label(rows: usize) -> (s: String)
    ensures
        s@ == (if rows > 0 {
            "Upload "@ + decimal(rows as nat)
        } else {
            "Upload"@
        }),
{
    if rows > 0 {
        join2("Upload ", &decimal_of(rows as u64))
    } else {
        "Upload".to_owned()
    }
}

/// An asset as scripts write it.
pub fn asset_uri(asset_id: u64) -> (s: String)
    ensures
        s@ == "rbxassetid://"@ + decimal(asset_id as nat),
{
    join2("rbxassetid://", &decimal_of(asset_id))
}

/// An asset's page.
pub fn asset_page(asset_id: u64) -> (s: String)
    ensures
        s@ == "https://www.roblox.com/library/"@ + decimal(asset_id as nat),
{
    join2("https://www.roblox.com/library/", &decimal_of(asset_id))
}

// ---------------------------------------------------------------------------
// Times
// ---------------------------------------------------------------------------

/// Whole seconds from one instant to another, none where they are out of
/// order.
pub open spec fn seconds_between(from: i64, to: i64) -> nat {
    if to > from {
        ((to - from) / 1000) as nat
    } else {
        0
    }
}

fn seconds_from(from: i64, to: i64) -> (s: u64)
    ensures
        s == seconds_between(from, to),
{
    if to > from {
        let span: i128 = (to as i128) - (from as i128);
        assert(0 < span < 0x1_0000_0000_0000_0000);
        (span as u64) / 1000
    } else {
        0
    }
}

/// How long something has been going on, coarsely.
pub open spec fn elapsed_text(seconds: nat) -> Seq<char> {
    if seconds < 60 {
        decimal(seconds) + "s"@
    } else if seconds < 3600 {
        decimal(seconds / 60) + "m"@
    } else {
        decimal(seconds / 3600) + "h"@
    }
}

/// How long something has been going on, coarsely.
pub fn format_elapsed(since: i64, now: i64) -> (s: String)
    ensures
        s@ == elapsed_text(seconds_between(since, now)),
{
    let seconds: u64 = seconds_from(since, now);
    if seconds < 60 {
        join2(&decimal_of(seconds), "s")
    } else if seconds < 3600 {
        join2(&decimal_of(seconds / 60), "m")
    } else {
        join2(&decimal_of(seconds / 3600), "h")
    }
}

/// How long until something happens, coarsely.
pub open spec fn countdown_text(seconds: nat) -> Seq<char> {
    if seconds < 60 {
        "in "@ + decimal(seconds) + "s"@
    } else {
        "in "@ + decimal(seconds / 60) + "m"@
    }
}

/// How long until `at`, never less than nothing.
pub fn format_countdown(at: i64, now: i64) -> (s: String)
    ensures
        s@ == countdown_text(seconds_between(now, at)),
{
    let seconds: u64 = seconds_from(now, at);
    if seconds < 60 {
        join3("in ", &decimal_of(seconds), "s")
    } else {
        join3("in ", &decimal_of(seconds / 60), "m")
    }
}

} // verus!
