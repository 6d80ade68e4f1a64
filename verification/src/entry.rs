//! What the program does when it is started: which of its windows it is, and
//! where its files are.

use vstd::prelude::*;

use crate::browser_login::{BROWSE_AS_FLAG, FLAG};
use crate::models::LaunchPreset;
use crate::text::{opt_text, same};

verus! {

/// Which window this process is.
#[derive(Debug)]
pub enum Window {
    /// The window that waits for a login.
    Login { profile: String, outfile: String, status: Option<String> },
    /// A window of an account.
    BrowseAs { profile: String, cookie_in: String, label: String },
    /// The program itself.
    Main,
}

/// What [`Window`] holds.
pub enum WindowView {
    Login { profile: Seq<char>, outfile: Seq<char>, status: Option<Seq<char>> },
    BrowseAs { profile: Seq<char>, cookie_in: Seq<char>, label: Seq<char> },
    Main,
}

impl View for Window {
    type V = WindowView;

    open spec fn view(&self) -> WindowView {
        match self {
            Window::Login { profile, outfile, status } => WindowView::Login {
                profile: profile@,
                outfile: outfile@,
                status: opt_text(*status),
            },
            Window::BrowseAs { profile, cookie_in, label } => WindowView::BrowseAs {
                profile: profile@,
                cookie_in: cookie_in@,
                label: label@,
            },
            Window::Main => WindowView::Main,
        }
    }
}

/// Which window a process with some arguments is. The first argument is the
/// program's own name. A flag without its two paths is ignored.
pub open spec fn window_for(args: Seq<String>) -> WindowView {
    if args.len() >= 4 && args[1]@ == FLAG@ {
        WindowView::Login {
            profile: args[2]@,
            outfile: args[3]@,
            status: if args.len() > 4 {
                Some(args[4]@)
            } else {
                None
            },
        }
    } else if args.len() >= 4 && args[1]@ == BROWSE_AS_FLAG@ {
        WindowView::BrowseAs {
            profile: args[2]@,
            cookie_in: args[3]@,
            label: if args.len() > 4 {
                args[4]@
            } else {
                Seq::empty()
            },
        }
    } else {
        WindowView::Main
    }
}

/// Which window a process with some arguments is.
pub fn window_of(args: &Vec<String>) -> (w: Window)
    ensures
        w@ == window_for(args@),
{
    if args.len() < 4 {
        return Window::Main;
    }
    if same(&args[1], FLAG) {
        let status: Option<String> = if args.len() > 4 {
            Some(args[4].clone())
        } else {
            None
        };
        Window::Login { profile: args[2].clone(), outfile: args[3].clone(), status }
    } else if same(&args[1], BROWSE_AS_FLAG) {
        let label: String = if args.len() > 4 {
            args[4].clone()
        } else {
            String::new()
        };
        let w = Window::BrowseAs { profile: args[2].clone(), cookie_in: args[3].clone(), label };
        assert(w@->BrowseAs_label =~= window_for(args@)->BrowseAs_label);
        w
    } else {
        Window::Main
    }
}

// ---------------------------------------------------------------------------
// Files next to the program
// ---------------------------------------------------------------------------

/// Whether the user is asked to let their files be moved: there are some next
/// to the program, and none in their proper place.
pub fn offers_migration(
    config_here: bool,
    accounts_here: bool,
    config_in_place: bool,
) -> (b: bool)
    ensures
        b == ((config_here || accounts_here) && !config_in_place),
{
    (config_here || accounts_here) && !config_in_place
}

/// How far moving a file is.
#[derive(Clone, Copy, Debug, PartialEq, Eq, Structural)]
pub enum Move {
    /// Rename it.
    Rename,
    /// Copy it: a file cannot be renamed onto another volume.
    Copy,
    /// Remove the file that was copied.
    RemoveSource,
    /// It could neither be renamed nor copied.
    Failed,
    Done,
}

/// What comes after a step of moving a file, given whether the step worked.
/// The file is removed only once there is a copy of it.
pub fn after_move_step(step: Move, worked: bool) -> (next: Move)
    ensures
        next == match step {
            Move::Rename => if worked {
                Move::Done
            } else {
                Move::Copy
            },
            Move::Copy => if worked {
                Move::RemoveSource
            } else {
                Move::Failed
            },
            Move::RemoveSource => Move::Done,
            Move::Failed => Move::Failed,
            Move::Done => Move::Done,
        },
{
    match step {
        Move::Rename => if worked {
            Move::Done
        } else {
            Move::Copy
        },
        Move::Copy => if worked {
            Move::RemoveSource
        } else {
            Move::Failed
        },
        Move::RemoveSource => Move::Done,
        Move::Failed => Move::Failed,
        Move::Done => Move::Done,
    }
}

/// Whether the files next to the program are used: the user kept them there.
pub fn uses_local_files(config_here: bool, config_in_place: bool) -> (b: bool)
    ensures
        b == (config_here && !config_in_place),
{
    config_here && !config_in_place
}

/// The path of the store of accounts that the settings start with.
pub const DEFAULT_ACCOUNTS_PATH: &'static str = "accounts.dat";

/// Where the store of accounts lies. The path that the settings start with is
/// the one in the proper place; `is_default` says whether `path` is that one,
/// by the rules for paths of the system.
pub fn accounts_path(path: String, is_default: bool, in_place: String) -> (r: String)
    ensures
        r == if is_default {
            in_place
        } else {
            path
        },
{
    if is_default {
        in_place
    } else {
        path
    }
}

// ---------------------------------------------------------------------------
// Favourites
// ---------------------------------------------------------------------------

/// A place that an old version kept in the settings.
#[derive(Debug)]
pub struct FavoritePlace {
    pub name: String,
    pub place_id: u64,
}

/// The preset that a favourite becomes.
pub fn favorite_preset(favorite: FavoritePlace) -> (p: LaunchPreset)
    ensures
        p == (LaunchPreset { name: favorite.name, place_id: favorite.place_id, job_id: None }),
{
    LaunchPreset { name: favorite.name, place_id: favorite.place_id, job_id: None }
}

/// Whether the settings are written without the favourites: once one of them
/// is a preset.
pub fn forgets_favorites(saved: &Vec<bool>) -> (b: bool)
    ensures
        b == exists|i: int| 0 <= i < saved@.len() && #[trigger] saved@[i],
{
    let mut i: usize = 0;
    while i < saved.len()
        invariant
            0 <= i <= saved@.len(),
            forall|j: int| 0 <= j < i ==> !#[trigger] saved@[j],
        decreases saved@.len() - i,
    {
        if saved[i] {
            return true;
        }
        i += 1;
    }
    false
}

} // verus!
