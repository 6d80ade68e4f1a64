//! What the asset tab's buttons do.

use vstd::prelude::*;

use super::asset_events::rows_written;
use super::inventory::{inventory_asked, pages_asked};
use super::results::row_changed;
use super::staging::{grant_opened, not_among, retried, row_removed, upload_asked};
use super::{becomes, AppState, AssetDesk, Clock, Effect};
use crate::asset_manager::{AssetManagerAction, AssetManagerState};
use crate::asset_panes::{all_edited, queue_done, ticked, QueueClicks, QueueResult};
use crate::text::opt_text;

verus! {

/// Whether `t` is the state after the tab asked for something. `finished` are
/// the rows that have finished.
pub open spec fn asset_action_done(
    s: AppState,
    t: AppState,
    action: AssetManagerAction,
    finished: Seq<String>,
    clock: Clock,
) -> bool {
    match action {
        AssetManagerAction::PickFiles => becomes(t, s, s.out@.push(Effect::PickFiles), s.toasts@),
        AssetManagerAction::RemoveRow(row_id) => row_removed(s, t, row_id@, clock.now),
        AssetManagerAction::ClearFinished => rows_written(
            s,
            t,
            s.desk.index.records@.filter(not_among(finished)),
            clock.now,
        ),
        AssetManagerAction::RetryRow(row_id) => row_changed(
            s,
            t,
            retried(s.desk.index.records@, row_id@),
            s.toasts@,
            clock,
        ),
        AssetManagerAction::RequestUpload(rows) => t == upload_asked(s, rows),
        AssetManagerAction::OpenGrantDialog => grant_opened(s, t),
        AssetManagerAction::LoadInventory { node, filter } => inventory_asked(s, t, node, filter),
        AssetManagerAction::RevealFile(path) => becomes(
            t,
            s,
            s.out@.push(Effect::RevealFile(path)),
            s.toasts@,
        ),
        AssetManagerAction::LoadMoreInventory => pages_asked(s, t),
    }
}

/// Whether `t` is the state after clicks in the queue: its rows are edited and
/// its boxes ticked, and rows that changed are to be written.
pub open spec fn queue_edited(s: AppState, t: AppState, clicks: QueueClicks) -> bool {
    let (records, changed) = all_edited(s.desk.index.records@, clicks.edits@);
    &&& t.desk.index.records@ == records
    &&& t.desk.panel.checked@ == ticked(s.desk.panel.checked@, opt_text(clicks.toggled))
    &&& t == (AppState {
        desk: AssetDesk {
            index: t.desk.index,
            dirty: s.desk.dirty || changed,
            panel: AssetManagerState { checked: t.desk.panel.checked, ..s.desk.panel },
            ..s.desk
        },
        ..s
    })
}

impl AppState {
    /// Does what the asset tab asks for.
    pub fn asset_action(&mut self, action: AssetManagerAction, finished: &Vec<String>, clock: Clock)
        requires
            old(self).inv(),
        ensures
            final(self).inv(),
            asset_action_done(*old(self), *final(self), action, finished@, clock),
    {
        match action {
            AssetManagerAction::PickFiles => self.emit(Effect::PickFiles),
            AssetManagerAction::RemoveRow(row_id) => self.remove_row(&row_id, clock.now),
            AssetManagerAction::ClearFinished => self.clear_finished(finished, clock.now),
            AssetManagerAction::RetryRow(row_id) => self.retry_row(&row_id, clock),
            AssetManagerAction::RequestUpload(rows) => self.request_upload(rows),
            AssetManagerAction::OpenGrantDialog => self.open_grant_dialog(),
            AssetManagerAction::LoadInventory { node, filter } => self.load_inventory(node, filter),
            AssetManagerAction::RevealFile(path) => self.emit(Effect::RevealFile(path)),
            AssetManagerAction::LoadMoreInventory => self.load_more_inventory(),
        }
    }

    /// Whether a cookie can be read, as an upload needs one: the store is open,
    /// or the system keeps the cookies.
    pub fn cookies_readable(&self) -> (b: bool)
        ensures
            b == (self.session is Some || self.config.use_credential_manager),
    {
        self.session.is_some() || self.config.use_credential_manager
    }

    /// Things were clicked in the queue. What it then asks for is handed back.
    pub fn queue_clicked(&mut self, clicks: QueueClicks) -> (action: Option<AssetManagerAction>)
        requires
            old(self).inv(),
        ensures
            final(self).inv(),
            queue_edited(*old(self), *final(self), clicks),
            action == match clicks.retried {
                Some(row) => Some(AssetManagerAction::RetryRow(row)),
                None => match clicks.removed {
                    Some(row) => Some(AssetManagerAction::RemoveRow(row)),
                    None => None,
                },
            },
    {
        let result: QueueResult = queue_done(&mut self.desk.index, &mut self.desk.panel, clicks);
        if result.index_changed {
            self.desk.dirty = true;
        }
        result.action
    }
}

} // verus!
