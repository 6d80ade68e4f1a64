//! What the asset tab asks of Roblox, and what comes back: inventories,
//! experiences, groups and thumbnails.

use vstd::prelude::*;

use super::uploads::signing;
use super::{becomes, AppState, AssetDesk, Effect, Pictures};
use crate::asset_manager::{AssetManagerState, RemoteInventory, TreeNode};
use crate::assets::{AssetKind, Creator};
use crate::bridge::{
    BackendCommand, CreationItem, CreationPage, Credentials, GroupTarget, UniverseTarget,
};
use crate::lists::{filter_ends, filter_grows};
use crate::models::position_of;
use crate::text::{decimal, decimal_of, join2, join3};
use crate::toast::ToastLevel;

verus! {

/// The most thumbnails asked for at once.
pub const MAX_THUMBNAIL_BATCH: usize = 50;

// ---------------------------------------------------------------------------
// Asking
// ---------------------------------------------------------------------------

/// The credentials of the account that the tab acts as.
pub open spec fn acting(s: AppState) -> Option<Credentials> {
    match s.desk.panel.acting_user_id {
        Some(user_id) => signing(s).credentials(user_id),
        None => None,
    }
}

/// What asking for one page of an inventory adds to the things to do.
pub open spec fn fetching(
    s: AppState,
    node: TreeNode,
    kind: AssetKind,
    cursor: Option<String>,
) -> Seq<Effect> {
    match (node, acting(s)) {
        (TreeNode::Inventory(creator), Some(credentials)) => seq![
            Effect::Send(BackendCommand::FetchCreations { credentials, creator, kind, cursor }),
        ],
        _ => Seq::empty(),
    }
}

/// What asking for the first page of each kind adds to the things to do.
pub open spec fn fetching_kinds(s: AppState, node: TreeNode, kinds: Seq<AssetKind>) -> Seq<Effect>
    decreases kinds.len(),
{
    if kinds.len() == 0 {
        Seq::empty()
    } else {
        fetching_kinds(s, node, kinds.drop_last()) + fetching(s, node, kinds.last(), None)
    }
}

/// What asking for the next page of each kind adds to the things to do.
pub open spec fn fetching_pages(
    s: AppState,
    node: TreeNode,
    cursors: Seq<(AssetKind, String)>,
) -> Seq<Effect>
    decreases cursors.len(),
{
    if cursors.len() == 0 {
        Seq::empty()
    } else {
        fetching_pages(s, node, cursors.drop_last()) + fetching(
            s,
            node,
            cursors.last().0,
            Some(cursors.last().1),
        )
    }
}

/// What asking for an account's experiences adds to the things to do.
pub open spec fn fetching_targets(s: AppState, place_id: Option<u64>) -> Seq<Effect> {
    match acting(s) {
        Some(credentials) => seq![
            Effect::Send(BackendCommand::FetchUniverseTargets { credentials, place_id }),
        ],
        None => Seq::empty(),
    }
}

/// What asking for an account's groups adds to the things to do.
pub open spec fn fetching_groups(s: AppState) -> Seq<Effect> {
    match acting(s) {
        Some(credentials) => seq![Effect::Send(BackendCommand::FetchPublishGroups { credentials })],
        None => Seq::empty(),
    }
}

/// Whether `inventory` is one that was just asked for.
pub open spec fn just_asked(
    inventory: RemoteInventory,
    node: TreeNode,
    filter: Option<AssetKind>,
    requests: nat,
) -> bool {
    &&& inventory.node == Some(node)
    &&& inventory.filter == filter
    &&& inventory.requested
    &&& inventory.items@.len() == 0
    &&& inventory.cursors@.len() == 0
    &&& inventory.inflight == requests
    &&& inventory.error is None
}

/// The kinds that a filter stands for. No filter is every kind.
pub open spec fn kinds_for(s: AppState, filter: Option<AssetKind>) -> Seq<AssetKind> {
    match filter {
        Some(kind) => seq![kind],
        None => s.rules.selectable_kinds@,
    }
}

/// Whether `t` is the state after an inventory was asked for.
pub open spec fn inventory_asked(
    s: AppState,
    t: AppState,
    node: TreeNode,
    filter: Option<AssetKind>,
) -> bool {
    &&& just_asked(t.desk.remote, node, filter, kinds_for(s, filter).len())
    &&& t.out@ == s.out@ + fetching_kinds(s, node, kinds_for(s, filter))
    &&& t == (AppState {
        out: t.out,
        desk: AssetDesk { remote: t.desk.remote, ..s.desk },
        ..s
    })
}

/// Requests that are out, with some more, as far as counting goes.
pub open spec fn more_out(inflight: usize, more: nat) -> usize {
    if inflight + more > usize::MAX {
        usize::MAX
    } else {
        (inflight + more) as usize
    }
}

/// Whether `t` is the state after the next pages were asked for.
pub open spec fn pages_asked(s: AppState, t: AppState) -> bool {
    match s.desk.remote.node {
        None => t == s,
        Some(node) => {
            &&& t.desk.remote.cursors@.len() == 0
            &&& t.out@ == s.out@ + fetching_pages(s, node, s.desk.remote.cursors@)
            &&& t == (AppState {
                out: t.out,
                desk: AssetDesk {
                    remote: RemoteInventory {
                        cursors: t.desk.remote.cursors,
                        inflight: more_out(s.desk.remote.inflight, s.desk.remote.cursors@.len()),
                        ..s.desk.remote
                    },
                    ..s.desk
                },
                ..s
            })
        },
    }
}

impl AppState {
    fn acting_credentials(&self) -> (r: Option<Credentials>)
        ensures
            r == acting(*self),
    {
        match (self.session, self.desk.panel.acting_user_id) {
            (Some(session), Some(user_id)) => match position_of(&self.store.accounts, user_id) {
                Some(i) => Some(
                    super::credentials_for(
                        &self.store.accounts[i],
                        session,
                        self.config.use_credential_manager,
                    ),
                ),
                None => None,
            },
            _ => None,
        }
    }

    /// Asks for one page of an inventory.
    pub fn fetch_creations(&mut self, node: TreeNode, kind: AssetKind, cursor: Option<String>)
        requires
            old(self).inv(),
        ensures
            final(self).inv(),
            final(self).out@ == old(self).out@ + fetching(*old(self), node, kind, cursor),
            *final(self) == (AppState { out: final(self).out, ..*old(self) }),
    {
        match node {
            TreeNode::Inventory(creator) => match self.acting_credentials() {
                Some(credentials) => {
                    self.out.push(
                        Effect::Send(
                            BackendCommand::FetchCreations { credentials, creator, kind, cursor },
                        ),
                    );
                },
                None => {},
            },
            _ => {},
        }
        assert(self.out@ =~= old(self).out@ + fetching(*old(self), node, kind, cursor));
    }

    /// Asks for the experiences of the acting account, and for the one that a
    /// place belongs to.
    pub fn fetch_universe_targets(&mut self, place_id: Option<u64>)
        requires
            old(self).inv(),
        ensures
            final(self).inv(),
            final(self).out@ == old(self).out@ + fetching_targets(*old(self), place_id),
            *final(self) == (AppState { out: final(self).out, ..*old(self) }),
    {
        match self.acting_credentials() {
            Some(credentials) => {
                self.out.push(
                    Effect::Send(BackendCommand::FetchUniverseTargets { credentials, place_id }),
                );
            },
            None => {},
        }
        assert(self.out@ =~= old(self).out@ + fetching_targets(*old(self), place_id));
    }

    /// Loads an inventory. "All types" is a request per kind: the listing wants
    /// one kind at a time.
    pub fn load_inventory(&mut self, node: TreeNode, filter: Option<AssetKind>)
        requires
            old(self).inv(),
        ensures
            final(self).inv(),
            inventory_asked(*old(self), *final(self), node, filter),
    {
        let mut kinds: Vec<AssetKind> = Vec::new();
        match filter {
            Some(kind) => {
                kinds.push(kind);
            },
            None => {
                let mut i: usize = 0;
                while i < self.rules.selectable_kinds.len()
                    invariant
                        0 <= i <= self.rules.selectable_kinds@.len(),
                        *self == *old(self),
                        kinds@ == self.rules.selectable_kinds@.take(i as int),
                    decreases self.rules.selectable_kinds@.len() - i,
                {
                    kinds.push(self.rules.selectable_kinds[i]);
                    i += 1;
                    assert(kinds@ =~= self.rules.selectable_kinds@.take(i as int));
                }
                assert(kinds@ =~= self.rules.selectable_kinds@);
            },
        }
        assert(kinds@ =~= kinds_for(*old(self), filter));
        let mut remote: RemoteInventory = RemoteInventory::new();
        remote.node = Some(node);
        remote.filter = filter;
        remote.requested = true;
        remote.inflight = kinds.len();
        self.desk.remote = remote;
        let mut k: usize = 0;
        let ghost asked = self.desk.remote;
        assert(self.out@ =~= old(self).out@ + fetching_kinds(*old(self), node, kinds@.take(0)));
        while k < kinds.len()
            invariant
                0 <= k <= kinds@.len(),
                self.inv(),
                self.desk.remote == asked,
                acting(*self) == acting(*old(self)),
                self.out@ == old(self).out@ + fetching_kinds(
                    *old(self),
                    node,
                    kinds@.take(k as int),
                ),
                *self == (AppState {
                    out: self.out,
                    desk: AssetDesk { remote: self.desk.remote, ..old(self).desk },
                    ..*old(self)
                }),
            decreases kinds@.len() - k,
        {
            assert(kinds@.take(k + 1).drop_last() =~= kinds@.take(k as int));
            self.fetch_creations(node, kinds[k], None);
            k += 1;
            assert(self.out@ =~= old(self).out@ + fetching_kinds(
                *old(self),
                node,
                kinds@.take(k as int),
            ));
            assert(signing(*self) == signing(*old(self)));
        }
        assert(kinds@.take(k as int) =~= kinds@);
    }

    /// Loads the next page of every kind that has one.
    pub fn load_more_inventory(&mut self)
        requires
            old(self).inv(),
        ensures
            final(self).inv(),
            pages_asked(*old(self), *final(self)),
    {
        let node: TreeNode = match self.desk.remote.node {
            Some(node) => node,
            None => {
                return;
            },
        };
        let mut pages: Vec<(AssetKind, String)> = Vec::new();
        std::mem::swap(&mut pages, &mut self.desk.remote.cursors);
        self.desk.remote.inflight = self.desk.remote.inflight.saturating_add(pages.len());
        let mut k: usize = 0;
        let ghost asked = self.desk.remote;
        assert(self.out@ =~= old(self).out@ + fetching_pages(*old(self), node, pages@.take(0)));
        while k < pages.len()
            invariant
                0 <= k <= pages@.len(),
                self.inv(),
                self.desk.remote == asked,
                acting(*self) == acting(*old(self)),
                self.out@ == old(self).out@ + fetching_pages(
                    *old(self),
                    node,
                    pages@.take(k as int),
                ),
                *self == (AppState {
                    out: self.out,
                    desk: AssetDesk { remote: self.desk.remote, ..old(self).desk },
                    ..*old(self)
                }),
            decreases pages@.len() - k,
        {
            assert(pages@.take(k + 1).drop_last() =~= pages@.take(k as int));
            let cursor: String = pages[k].1.clone();
            self.fetch_creations(node, pages[k].0, Some(cursor));
            k += 1;
            assert(self.out@ =~= old(self).out@ + fetching_pages(
                *old(self),
                node,
                pages@.take(k as int),
            ));
            assert(signing(*self) == signing(*old(self)));
        }
        assert(pages@.take(k as int) =~= pages@);
    }

    /// The tab is open. The first time for an account, its experiences and
    /// groups are asked for.
    pub fn asset_tab_shown(&mut self)
        requires
            old(self).inv(),
        ensures
            final(self).inv(),
            if !old(self).lock.needs_unlock && old(self).desk.panel.acting_user_id is Some
                && old(self).desk.universe_targets_user != old(self).desk.panel.acting_user_id {
                &&& final(self).desk.universe_targets@.len() == 0
                &&& final(self).desk.publish_groups@.len() == 0
                &&& final(self).out@ == old(self).out@ + fetching_targets(*old(self), None)
                    + fetching_groups(*old(self))
                &&& *final(self) == (AppState {
                    out: final(self).out,
                    desk: AssetDesk {
                        universe_targets_user: old(self).desk.panel.acting_user_id,
                        universe_targets: final(self).desk.universe_targets,
                        publish_groups: final(self).desk.publish_groups,
                        ..old(self).desk
                    },
                    ..*old(self)
                })
            } else {
                *final(self) == *old(self)
            },
    {
        let user_id: u64 = match self.desk.panel.acting_user_id {
            Some(id) => id,
            None => {
                return;
            },
        };
        let known: bool = match self.desk.universe_targets_user {
            Some(id) => id == user_id,
            None => false,
        };
        if self.lock.needs_unlock || known {
            return;
        }
        self.desk.universe_targets_user = Some(user_id);
        self.desk.universe_targets = Vec::new();
        self.desk.publish_groups = Vec::new();
        assert(signing(*self) == signing(*old(self)));
        self.fetch_universe_targets(None);
        assert(signing(*self) == signing(*old(self)));
        match self.acting_credentials() {
            Some(credentials) => {
                self.out.push(Effect::Send(BackendCommand::FetchPublishGroups { credentials }));
            },
            None => {},
        }
        assert(self.out@ =~= old(self).out@ + fetching_targets(*old(self), None) + fetching_groups(
            *old(self),
        ));
    }
}

// ---------------------------------------------------------------------------
// Experiences and groups
// ---------------------------------------------------------------------------

/// Whether `t` is the state after an account's experiences came in.
pub open spec fn targets_kept(
    s: AppState,
    t: AppState,
    user_id: u64,
    universes: Vec<UniverseTarget>,
    resolved_place: Option<(u64, u64)>,
    now: u64,
) -> bool {
    let desk = AssetDesk {
        universe_targets: universes,
        universe_targets_user: Some(user_id),
        ..s.desk
    };
    match resolved_place {
        None => becomes(t, AppState { desk, ..s }, s.out@, s.toasts@),
        Some((place_id, universe_id)) => becomes(
            t,
            AppState {
                desk: AssetDesk {
                    panel: AssetManagerState {
                        grant_universe: Some(universe_id),
                        ..desk.panel
                    },
                    ..desk
                },
                ..s
            },
            s.out@,
            s.toasts@.said(
                "Place "@ + decimal(place_id as nat) + " is universe "@ + decimal(
                    universe_id as nat,
                ),
                ToastLevel::Info,
                now,
            ),
        ),
    }
}

impl AppState {
    /// An account's experiences came in, and the one that a place belongs to.
    pub fn universe_targets_fetched(
        &mut self,
        user_id: u64,
        universes: Vec<UniverseTarget>,
        resolved_place: Option<(u64, u64)>,
        now: u64,
    )
        requires
            old(self).inv(),
        ensures
            final(self).inv(),
            targets_kept(*old(self), *final(self), user_id, universes, resolved_place, now),
    {
        self.desk.universe_targets = universes;
        self.desk.universe_targets_user = Some(user_id);
        match resolved_place {
            Some((place_id, universe_id)) => {
                self.desk.panel.grant_universe = Some(universe_id);
                let text: String = join2(
                    &join3("Place ", &decimal_of(place_id), " is universe "),
                    &decimal_of(universe_id),
                );
                self.say(&text, ToastLevel::Info, now);
            },
            None => {},
        }
    }

    /// An account's groups came in. Those of an account that is no longer
    /// acted as are late, and are dropped.
    pub fn publish_groups_fetched(&mut self, user_id: u64, groups: Vec<GroupTarget>)
        requires
            old(self).inv(),
        ensures
            final(self).inv(),
            *final(self) == if old(self).desk.panel.acting_user_id == Some(user_id) {
                AppState { desk: AssetDesk { publish_groups: groups, ..old(self).desk }, ..*old(self) }
            } else {
                *old(self)
            },
    {
        let wanted: bool = match self.desk.panel.acting_user_id {
            Some(id) => id == user_id,
            None => false,
        };
        if wanted {
            self.desk.publish_groups = groups;
        }
    }
}

// ---------------------------------------------------------------------------
// Pages of an inventory
// ---------------------------------------------------------------------------

/// The cursors of other kinds.
pub open spec fn of_other_kinds(kind: AssetKind) -> spec_fn((AssetKind, String)) -> bool {
    |c: (AssetKind, String)| c.0 != kind
}

/// The cursors after a page of a kind came in.
pub open spec fn with_cursor(
    cursors: Seq<(AssetKind, String)>,
    kind: AssetKind,
    next: Option<String>,
) -> Seq<(AssetKind, String)> {
    match next {
        Some(cursor) => cursors.filter(of_other_kinds(kind)).push((kind, cursor)),
        None => cursors.filter(of_other_kinds(kind)),
    }
}

/// Whether the list holds an item of this asset.
pub open spec fn holds_asset(items: Seq<CreationItem>, asset_id: u64) -> bool {
    exists|i: int| 0 <= i < items.len() && (#[trigger] items[i]).asset_id == asset_id
}

/// The items with those of a page behind them that are not there yet.
pub open spec fn with_items(items: Seq<CreationItem>, page: Seq<CreationItem>) -> Seq<CreationItem>
    decreases page.len(),
{
    if page.len() == 0 {
        items
    } else {
        let rest = with_items(items, page.drop_last());
        if holds_asset(rest, page.last().asset_id) {
            rest
        } else {
            rest.push(page.last())
        }
    }
}

/// Whether an answer still belongs to the inventory that is shown.
pub open spec fn page_wanted(inventory: RemoteInventory, creator: Creator, kind: AssetKind) -> bool {
    inventory.node == Some(TreeNode::Inventory(creator)) && (inventory.filter is None
        || inventory.filter == Some(kind))
}

/// Whether `after` is the inventory once a page came in. One kind that fails
/// does not blank the others: an error is only kept once nothing is out and
/// nothing came back.
pub open spec fn page_kept(
    before: RemoteInventory,
    after: RemoteInventory,
    kind: AssetKind,
    page: CreationPage,
    error: Option<String>,
) -> bool {
    &&& after.cursors@ == with_cursor(before.cursors@, kind, page.next_cursor)
    &&& after.items@ == with_items(before.items@, page.items@)
    &&& after == (RemoteInventory {
        cursors: after.cursors,
        items: after.items,
        inflight: if before.inflight > 0 {
            (before.inflight - 1) as usize
        } else {
            0
        },
        error: if error is Some && before.inflight <= 1 && after.items@.len() == 0 {
            error
        } else {
            before.error
        },
        ..before
    })
}

fn holds_item(items: &Vec<CreationItem>, asset_id: u64) -> (b: bool)
    ensures
        b == holds_asset(items@, asset_id),
{
    let mut i: usize = 0;
    while i < items.len()
        invariant
            0 <= i <= items@.len(),
            forall|j: int| 0 <= j < i ==> (#[trigger] items@[j]).asset_id != asset_id,
        decreases items@.len() - i,
    {
        if items[i].asset_id == asset_id {
            return true;
        }
        i += 1;
    }
    false
}

fn put_cursor(cursors: &mut Vec<(AssetKind, String)>, kind: AssetKind, next: Option<String>)
    ensures
        final(cursors)@ == with_cursor(old(cursors)@, kind, next),
{
    let ghost all = cursors@;
    let ghost p = of_other_kinds(kind);
    let mut kept: Vec<(AssetKind, String)> = Vec::new();
    let mut i: usize = 0;
    proof {
        filter_ends(all, p);
        assert(kept@ =~= all.take(0).filter(p));
    }
    while i < cursors.len()
        invariant
            0 <= i <= cursors@.len(),
            all == cursors@,
            p == of_other_kinds(kind),
            kept@ == all.take(i as int).filter(p),
        decreases cursors@.len() - i,
    {
        proof {
            filter_grows(all, p, i as int);
        }
        if cursors[i].0 != kind {
            let cursor: (AssetKind, String) = (cursors[i].0, cursors[i].1.clone());
            kept.push(cursor);
        }
        i += 1;
    }
    proof {
        filter_ends(all, p);
    }
    match next {
        Some(cursor) => {
            kept.push((kind, cursor));
        },
        None => {},
    }
    *cursors = kept;
}

impl AppState {
    /// A page of an inventory came in. One for an inventory that is no longer
    /// shown, or for a kind that is filtered away by now, is dropped.
    pub fn creations_fetched(
        &mut self,
        creator: Creator,
        kind: AssetKind,
        page: CreationPage,
        error: Option<String>,
    )
        requires
            old(self).inv(),
        ensures
            final(self).inv(),
            if page_wanted(old(self).desk.remote, creator, kind) {
                &&& page_kept(old(self).desk.remote, final(self).desk.remote, kind, page, error)
                &&& *final(self) == (AppState {
                    desk: AssetDesk { remote: final(self).desk.remote, ..old(self).desk },
                    ..*old(self)
                })
            } else {
                *final(self) == *old(self)
            },
    {
        let right_node: bool = match self.desk.remote.node {
            Some(TreeNode::Inventory(c)) => c == creator,
            _ => false,
        };
        let right_kind: bool = match self.desk.remote.filter {
            Some(k) => k == kind,
            None => true,
        };
        if !right_node || !right_kind {
            return;
        }
        self.desk.remote.inflight = self.desk.remote.inflight.saturating_sub(1);
        let CreationPage { items, next_cursor } = page;
        put_cursor(&mut self.desk.remote.cursors, kind, next_cursor);
        let ghost before = self.desk.remote;
        let mut k: usize = 0;
        assert(items@.take(0) =~= Seq::<CreationItem>::empty());
        while k < items.len()
            invariant
                0 <= k <= items@.len(),
                self.inv(),
                self.desk.remote.items@ == with_items(
                    old(self).desk.remote.items@,
                    items@.take(k as int),
                ),
                self.desk.remote == (RemoteInventory { items: self.desk.remote.items, ..before }),
                *self == (AppState {
                    desk: AssetDesk { remote: self.desk.remote, ..old(self).desk },
                    ..*old(self)
                }),
            decreases items@.len() - k,
        {
            assert(items@.take(k + 1).drop_last() =~= items@.take(k as int));
            if !holds_item(&self.desk.remote.items, items[k].asset_id) {
                let item: CreationItem = items[k].clone();
                self.desk.remote.items.push(item);
            }
            k += 1;
        }
        assert(items@.take(k as int) =~= items@);
        if error.is_some() && self.desk.remote.inflight == 0 && self.desk.remote.items.len() == 0 {
            self.desk.remote.error = error;
        }
    }
}

/// No asset is listed twice, however pages overlap.
pub proof fn an_asset_is_listed_once(items: Seq<CreationItem>, page: Seq<CreationItem>)
    requires
        forall|i: int, j: int|
            0 <= i < j < items.len() ==> (#[trigger] items[i]).asset_id != (
            #[trigger] items[j]).asset_id,
    ensures
        ({
            let all = with_items(items, page);
            forall|i: int, j: int|
                0 <= i < j < all.len() ==> (#[trigger] all[i]).asset_id != (
                #[trigger] all[j]).asset_id
        }),
    decreases page.len(),
{
    if page.len() > 0 {
        an_asset_is_listed_once(items, page.drop_last());
    }
}

/// A page takes nothing away: what was listed stays, in its order.
pub proof fn a_page_takes_nothing_away(items: Seq<CreationItem>, page: Seq<CreationItem>)
    ensures
        with_items(items, page).len() >= items.len(),
        with_items(items, page).take(items.len() as int) == items,
    decreases page.len(),
{
    if page.len() == 0 {
        assert(items.take(items.len() as int) =~= items);
    } else {
        a_page_takes_nothing_away(items, page.drop_last());
        let rest = with_items(items, page.drop_last());
        assert(with_items(items, page).take(items.len() as int) =~= rest.take(items.len() as int));
    }
}

/// After a page of a kind, the kind has at most one cursor: the page's.
pub proof fn a_kind_has_one_cursor(
    cursors: Seq<(AssetKind, String)>,
    kind: AssetKind,
    next: Option<String>,
    i: int,
)
    requires
        0 <= i < with_cursor(cursors, kind, next).len(),
        with_cursor(cursors, kind, next)[i].0 == kind,
    ensures
        next is Some,
        with_cursor(cursors, kind, next)[i].1 == next->Some_0,
{
    let kept = cursors.filter(of_other_kinds(kind));
    if i < kept.len() {
        assert(with_cursor(cursors, kind, next)[i] == kept[i]);
        cursors.lemma_filter_pred(of_other_kinds(kind), i);
    }
}

// ---------------------------------------------------------------------------
// Thumbnails
// ---------------------------------------------------------------------------

/// The assets whose thumbnail is to be asked for: it is not there, not asked
/// for, and not to be left alone for a while.
pub open spec fn lacks_thumbnail(pictures: Pictures, now: u64) -> spec_fn(u64) -> bool {
    |id: u64|
        !pictures.thumbnails@.contains_key(id) && !pictures.inflight@.contains(id) && (
        pictures.retry_at@.contains_key(id) ==> now >= pictures.retry_at@[id])
}

/// The first of these, as many as are asked for at once.
pub open spec fn one_batch(ids: Seq<u64>) -> Seq<u64> {
    if ids.len() <= MAX_THUMBNAIL_BATCH {
        ids
    } else {
        ids.take(MAX_THUMBNAIL_BATCH as int)
    }
}

/// The members of `base` and those of the list.
pub open spec fn with_ids(base: Set<u64>, ids: Seq<u64>) -> Set<u64>
    decreases ids.len(),
{
    if ids.len() == 0 {
        base
    } else {
        with_ids(base, ids.drop_last()).insert(ids.last())
    }
}

impl AppState {
    /// Whether a thumbnail is to be asked for.
    fn thumbnail_missing(&self, id: u64, now: u64) -> (b: bool)
        ensures
            b == lacks_thumbnail(self.pictures, now)(id),
    {
        broadcast use vstd::std_specs::hash::group_hash_axioms;

        let due: bool = match self.pictures.retry_at.get(&id) {
            Some(at) => now >= *at,
            None => true,
        };
        !self.pictures.thumbnails.contains_key(&id) && !self.pictures.inflight.contains(id) && due
    }

    /// Asks for thumbnails of what is on screen. Requests are remembered, so
    /// that none is made twice while it is out.
    pub fn request_asset_thumbnails(&mut self, wanted: &Vec<u64>, now: u64)
        requires
            old(self).inv(),
        ensures
            final(self).inv(),
            ({
                let missing = one_batch(
                    wanted@.filter(lacks_thumbnail(old(self).pictures, now)),
                );
                if missing.len() == 0 {
                    *final(self) == *old(self)
                } else {
                    &&& final(self).pictures.inflight@ == with_ids(
                        old(self).pictures.inflight@,
                        missing,
                    )
                    &&& final(self).out@.len() == old(self).out@.len() + 1
                    &&& final(self).out@.drop_last() == old(self).out@
                    &&& (final(self).out@.last() matches Effect::Send(
                        BackendCommand::FetchAssetThumbnails { asset_ids },
                    ) && asset_ids@ == missing)
                    &&& *final(self) == (AppState {
                        out: final(self).out,
                        pictures: Pictures {
                            inflight: final(self).pictures.inflight,
                            ..old(self).pictures
                        },
                        ..*old(self)
                    })
                }
            }),
    {
        let ghost p = lacks_thumbnail(self.pictures, now);
        let mut missing: Vec<u64> = Vec::new();
        let mut i: usize = 0;
        proof {
            filter_ends(wanted@, p);
            assert(missing@ =~= one_batch(wanted@.take(0).filter(p)));
        }
        while i < wanted.len()
            invariant
                0 <= i <= wanted@.len(),
                *self == *old(self),
                p == lacks_thumbnail(self.pictures, now),
                missing@ == one_batch(wanted@.take(i as int).filter(p)),
            decreases wanted@.len() - i,
        {
            proof {
                filter_grows(wanted@, p, i as int);
            }
            let ghost so_far = wanted@.take(i as int).filter(p);
            if self.thumbnail_missing(wanted[i], now) {
                if missing.len() < MAX_THUMBNAIL_BATCH {
                    missing.push(wanted[i]);
                }
                assert(missing@ =~= one_batch(so_far.push(wanted@[i as int])));
            }
            i += 1;
        }
        proof {
            filter_ends(wanted@, p);
        }
        if missing.len() == 0 {
            return;
        }
        let mut k: usize = 0;
        assert(missing@.take(0) =~= Seq::<u64>::empty());
        while k < missing.len()
            invariant
                0 <= k <= missing@.len(),
                self.inv(),
                self.pictures.inflight@ == with_ids(
                    old(self).pictures.inflight@,
                    missing@.take(k as int),
                ),
                *self == (AppState {
                    pictures: Pictures {
                        inflight: self.pictures.inflight,
                        ..old(self).pictures
                    },
                    ..*old(self)
                }),
            decreases missing@.len() - k,
        {
            assert(missing@.take(k + 1).drop_last() =~= missing@.take(k as int));
            self.pictures.inflight.insert(missing[k]);
            k += 1;
        }
        assert(missing@.take(k as int) =~= missing@);
        self.out.push(Effect::Send(BackendCommand::FetchAssetThumbnails { asset_ids: missing }));
        assert(self.out@.drop_last() =~= old(self).out@);
    }
}

/// A thumbnail is never asked for while it is there or asked for already.
pub proof fn a_thumbnail_is_asked_for_once(pictures: Pictures, wanted: Seq<u64>, now: u64, i: int)
    requires
        0 <= i < one_batch(wanted.filter(lacks_thumbnail(pictures, now))).len(),
    ensures
        ({
            let id = one_batch(wanted.filter(lacks_thumbnail(pictures, now)))[i];
            !pictures.thumbnails@.contains_key(id) && !pictures.inflight@.contains(id)
        }),
{
    wanted.lemma_filter_pred(lacks_thumbnail(pictures, now), i);
}

} // verus!
