//! Folder selection policy: which folders the host may hand to the
//! marketplace, and how default and relative paths are derived.
//!
//! The native folder dialog and the probing of the file system (existence,
//! writability, sizes) are host-side work; their outcomes arrive here as
//! plain values — a picked path and its probed facts — and every decision
//! about them is made and verified here.

use vstd::prelude::*;

use crate::textutil::{str_to_string, str_starts_with, seq_starts_with, to_lowercase, lower_of,
    is_absolute_path, spec_is_absolute_path};

verus! {

/// A folder-selection failure.
#[derive(Debug, Clone)]
pub enum FolderSelectorError {
    /// The dialog was cancelled: no folder picked.
    NoSelection,
    /// No usable path, as when the platform reports no home directory.
    InvalidPath,
    /// A path refused for want of permission, with the reason.
    PermissionDenied(String),
    /// The folder does not exist and was not to be created.
    FolderNotExists(String),
    /// A host-side I/O failure, with its message.
    Io(String),
}

/// Mathematical image of a [`FolderSelectorError`].
pub enum FolderErrorView {
    NoSelection,
    InvalidPath,
    PermissionDenied(Seq<char>),
    FolderNotExists(Seq<char>),
    Io(Seq<char>),
}

impl View for FolderSelectorError {
    type V = FolderErrorView;

    open spec fn view(&self) -> FolderErrorView {
        match self {
            FolderSelectorError::NoSelection => FolderErrorView::NoSelection,
            FolderSelectorError::InvalidPath => FolderErrorView::InvalidPath,
            FolderSelectorError::PermissionDenied(m) => FolderErrorView::PermissionDenied(m@),
            FolderSelectorError::FolderNotExists(m) => FolderErrorView::FolderNotExists(m@),
            FolderSelectorError::Io(m) => FolderErrorView::Io(m@),
        }
    }
}

/// The platform's default folders for this user.
pub struct FolderDefaults {
    pub apps_folder: String,
    pub data_folder: String,
    pub documents_folder: String,
    pub downloads_folder: String,
}

/// Mathematical image of [`FolderDefaults`].
pub struct FolderDefaultsView {
    pub apps_folder: Seq<char>,
    pub data_folder: Seq<char>,
    pub documents_folder: Seq<char>,
    pub downloads_folder: Seq<char>,
}

impl View for FolderDefaults {
    type V = FolderDefaultsView;

    open spec fn view(&self) -> FolderDefaultsView {
        FolderDefaultsView {
            apps_folder: self.apps_folder@,
            data_folder: self.data_folder@,
            documents_folder: self.documents_folder@,
            downloads_folder: self.downloads_folder@,
        }
    }
}

/// How one folder-selection dialog is posed.
pub struct FolderSelectionOptions {
    pub title: String,
    pub default_path: Option<String>,
    pub create_if_missing: bool,
    pub validate_permissions: bool,
}

impl Default for FolderSelectionOptions {
    fn default() -> (r: Self)
        ensures
            r.title@ == "Select Folder"@,
            r.default_path is None,
            r.create_if_missing,
            r.validate_permissions,
    {
        FolderSelectionOptions {
            title: str_to_string("Select Folder"),
            default_path: None,
            create_if_missing: true,
            validate_permissions: true,
        }
    }
}

/// What the host's folder dialog reported for one pick: the chosen path and
/// the facts probed about it — whether it exists, and whether it (or its
/// nearest existing ancestor) is writable.
pub struct FolderPick {
    pub path: String,
    pub exists: bool,
    pub writable: bool,
}

/// Mathematical image of a [`FolderPick`].
pub struct FolderPickView {
    pub path: Seq<char>,
    pub exists: bool,
    pub writable: bool,
}

impl View for FolderPick {
    type V = FolderPickView;

    open spec fn view(&self) -> FolderPickView {
        FolderPickView { path: self.path@, exists: self.exists, writable: self.writable }
    }
}

/// The image of an optional pick.
pub open spec fn opt_pick_view(pick: Option<FolderPick>) -> Option<FolderPickView> {
    match pick {
        Some(p) => Some(p@),
        None => None,
    }
}

/// The images of a row of optional picks.
pub open spec fn picks_view(picks: Seq<Option<FolderPick>>) -> Seq<Option<FolderPickView>> {
    picks.map(|i: int, p: Option<FolderPick>| opt_pick_view(p))
}

/// Whether a lowercased path sits under one of the system directories no
/// app folder may live in.
pub open spec fn forbidden_prefix(lowered: Seq<char>) -> bool {
    ||| seq_starts_with(lowered, "/system"@)
    ||| seq_starts_with(lowered, "/sys"@)
    ||| seq_starts_with(lowered, "/proc"@)
    ||| seq_starts_with(lowered, "/dev"@)
    ||| seq_starts_with(lowered, "c:\\windows"@)
    ||| seq_starts_with(lowered, "c:\\program files"@)
    ||| seq_starts_with(lowered, "c:\\system"@)
    ||| seq_starts_with(lowered, "/library/system"@)
    ||| seq_starts_with(lowered, "/usr/bin"@)
}

/// How one pick is judged: a missing folder that was not to be created is
/// refused, an unwritable one is refused when permissions are validated,
/// and a system directory is always refused.
pub open spec fn spec_validate(
    p: FolderPickView,
    create_if_missing: bool,
    validate_permissions: bool,
) -> Result<(), FolderErrorView> {
    if !create_if_missing && !p.exists {
        Err(FolderErrorView::FolderNotExists(p.path))
    } else if validate_permissions && !p.writable {
        Err(FolderErrorView::PermissionDenied("Cannot write to folder: "@ + p.path))
    } else if forbidden_prefix(lower_of(p.path)) {
        Err(
            FolderErrorView::PermissionDenied(
                "Cannot select system directory for security reasons"@,
            ),
        )
    } else {
        Ok(())
    }
}

/// How one dialog outcome is judged: a cancelled dialog is no selection; a
/// picked folder is validated and, when accepted, its path is the answer.
pub open spec fn spec_select(
    pick: Option<FolderPickView>,
    create_if_missing: bool,
    validate_permissions: bool,
) -> Result<Seq<char>, FolderErrorView> {
    match pick {
        None => Err(FolderErrorView::NoSelection),
        Some(p) => match spec_validate(p, create_if_missing, validate_permissions) {
            Ok(()) => Ok(p.path),
            Err(e) => Err(e),
        },
    }
}

/// How a row of dialog outcomes is collected: picks are taken in order
/// until the first cancel, each validated as a custom folder; any refusal
/// abandons the whole row.
pub open spec fn spec_collect(picks: Seq<Option<FolderPickView>>) -> Result<
    Seq<Seq<char>>,
    FolderErrorView,
>
    decreases picks.len(),
{
    if picks.len() == 0 {
        Ok(Seq::empty())
    } else {
        match picks[0] {
            None => Ok(Seq::empty()),
            Some(p) => match spec_validate(p, false, true) {
                Err(e) => Err(e),
                Ok(()) => match spec_collect(picks.drop_first()) {
                    Ok(rest) => Ok(seq![p.path] + rest),
                    Err(e) => Err(e),
                },
            },
        }
    }
}

/// A whole batch selection: the collected row, except that an empty row is
/// no selection.
pub open spec fn spec_select_multiple(picks: Seq<Option<FolderPickView>>) -> Result<
    Seq<Seq<char>>,
    FolderErrorView,
> {
    match spec_collect(picks) {
        Err(e) => Err(e),
        Ok(s) => if s.len() == 0 {
            Err(FolderErrorView::NoSelection)
        } else {
            Ok(s)
        },
    }
}

/// The default folders derived from what the platform reports: documents
/// and downloads as reported, or under the home directory when not, and
/// the two marketplace folders under documents.
pub open spec fn spec_default_paths(
    home: Seq<char>,
    documents: Option<Seq<char>>,
    downloads: Option<Seq<char>>,
) -> FolderDefaultsView {
    let docs = match documents {
        Some(d) => d,
        None => home + "/"@ + "Documents"@,
    };
    let downs = match downloads {
        Some(d) => d,
        None => home + "/"@ + "Downloads"@,
    };
    FolderDefaultsView {
        apps_folder: docs + "/"@ + "PWA-Apps"@,
        data_folder: docs + "/"@ + "PWA-Data"@,
        documents_folder: docs,
        downloads_folder: downs,
    }
}

/// How a path string resolves against the defaults: an absolute path
/// stands; `~/` resolves under the home directory when one is known;
/// `$DOCUMENTS/` and `$DOWNLOADS/` resolve under those folders; anything
/// else resolves under documents.
pub open spec fn spec_resolve(
    path: Seq<char>,
    home: Option<Seq<char>>,
    documents: Seq<char>,
    downloads: Seq<char>,
) -> Seq<char> {
    if spec_is_absolute_path(path) {
        path
    } else if seq_starts_with(path, "~/"@) && home is Some {
        home->0 + "/"@ + path.skip(2)
    } else if seq_starts_with(path, "$DOCUMENTS/"@) {
        documents + "/"@ + path.skip(11)
    } else if seq_starts_with(path, "$DOWNLOADS/"@) {
        downloads + "/"@ + path.skip(11)
    } else {
        documents + "/"@ + path
    }
}

/// Relies on `dirs::home_dir`: the user's home directory, when the platform
/// reports one.  The value depends on the environment; nothing is promised
/// of it.
#[verifier::external_body]
fn host_home_dir() -> (r: Option<String>) {
    dirs::home_dir().map(|p| p.to_string_lossy().to_string())
}

/// Relies on `dirs::document_dir`: the user's documents directory, when the
/// platform reports one.  Environment-dependent; nothing is promised.
#[verifier::external_body]
fn host_document_dir() -> (r: Option<String>) {
    dirs::document_dir().map(|p| p.to_string_lossy().to_string())
}

/// Relies on `dirs::download_dir`: the user's downloads directory, when the
/// platform reports one.  Environment-dependent; nothing is promised.
#[verifier::external_body]
fn host_download_dir() -> (r: Option<String>) {
    dirs::download_dir().map(|p| p.to_string_lossy().to_string())
}

/// `base` and `rel` joined with a separator.
fn join_path(base: &str, rel: &str) -> (r: String)
    ensures
        r@ == base@ + "/"@ + rel@,
{
    let mut s = str_to_string(base);
    s.append("/");
    s.append(rel);
    proof {
        assert(s@ =~= base@ + "/"@ + rel@);
    }
    s
}

/// What is known about one folder, for display.
#[derive(Debug, Clone)]
pub struct FolderInfo {
    pub path: String,
    pub exists: bool,
    pub readable: bool,
    pub writable: bool,
    pub size_mb: usize,
    pub file_count: usize,
    pub error: Option<String>,
}

/// The total of a row of file sizes.
pub open spec fn sum_sizes(sizes: Seq<u64>) -> int
    decreases sizes.len(),
{
    if sizes.len() == 0 {
        0
    } else {
        sum_sizes(sizes.drop_last()) + sizes.last()
    }
}

/// Judge of folder picks and keeper of the platform's default folders.
pub struct FolderSelector {
    default_paths: FolderDefaults,
}

impl FolderSelector {
    /// The default folders this selector was built around.
    pub closed spec fn defaults(self) -> FolderDefaultsView {
        self.default_paths@
    }

    /// Derives the default folders from what the platform reports.  Fails
    /// with `InvalidPath` exactly when the platform reports no home
    /// directory.
    pub fn get_default_paths() -> (r: Result<FolderDefaults, FolderSelectorError>)
        ensures
            r matches Ok(d) ==> exists|
                home: Seq<char>,
                documents: Option<Seq<char>>,
                downloads: Option<Seq<char>>,
            | d@ == spec_default_paths(home, documents, downloads),
            r matches Err(e) ==> e@ == FolderErrorView::InvalidPath,
    {
        let home = match host_home_dir() {
            Some(h) => h,
            None => {
                return Err(FolderSelectorError::InvalidPath);
            },
        };
        let documents_opt = host_document_dir();
        let downloads_opt = host_download_dir();
        let ghost documents_view: Option<Seq<char>> = match documents_opt {
            Some(ref d) => Some(d@),
            None => None,
        };
        let ghost downloads_view: Option<Seq<char>> = match downloads_opt {
            Some(ref d) => Some(d@),
            None => None,
        };
        let documents = match documents_opt {
            Some(d) => d,
            None => join_path(home.as_str(), "Documents"),
        };
        let downloads = match downloads_opt {
            Some(d) => d,
            None => join_path(home.as_str(), "Downloads"),
        };
        let defaults = FolderDefaults {
            apps_folder: join_path(documents.as_str(), "PWA-Apps"),
            data_folder: join_path(documents.as_str(), "PWA-Data"),
            documents_folder: documents,
            downloads_folder: downloads,
        };
        proof {
            assert(defaults@ == spec_default_paths(home@, documents_view, downloads_view));
        }
        Ok(defaults)
    }

    /// Builds a selector around the platform's default folders.  Fails with
    /// `InvalidPath` exactly when no home directory is reported.
    pub fn new() -> (r: Result<FolderSelector, FolderSelectorError>)
        ensures
            r matches Ok(sel) ==> exists|
                home: Seq<char>,
                documents: Option<Seq<char>>,
                downloads: Option<Seq<char>>,
            | sel.defaults() == spec_default_paths(home, documents, downloads),
            r matches Err(e) ==> e@ == FolderErrorView::InvalidPath,
    {
        let default_paths = Self::get_default_paths()?;
        Ok(FolderSelector { default_paths })
    }

    /// Refuses a path that sits, case-insensitively, under a system
    /// directory.
    pub fn check_security_restrictions(&self, path: &str) -> (r: Result<(), FolderSelectorError>)
        ensures
            r is Ok <==> !forbidden_prefix(lower_of(path@)),
            r matches Err(e) ==> e@ == FolderErrorView::PermissionDenied(
                "Cannot select system directory for security reasons"@,
            ),
    {
        let lowered = to_lowercase(path);
        let l = lowered.as_str();
        if str_starts_with(l, "/system") || str_starts_with(l, "/sys") || str_starts_with(
            l,
            "/proc",
        ) || str_starts_with(l, "/dev") || str_starts_with(l, "c:\\windows") || str_starts_with(
            l,
            "c:\\program files",
        ) || str_starts_with(l, "c:\\system") || str_starts_with(l, "/library/system")
            || str_starts_with(l, "/usr/bin") {
            return Err(
                FolderSelectorError::PermissionDenied(
                    str_to_string("Cannot select system directory for security reasons"),
                ),
            );
        }
        Ok(())
    }

    /// Judges one pick against the options: existence, writability, then
    /// the system-directory restrictions.
    pub fn validate_folder_selection(
        &self,
        pick: &FolderPick,
        options: &FolderSelectionOptions,
    ) -> (r: Result<(), FolderSelectorError>)
        ensures
            match r {
                Ok(()) => spec_validate(
                    pick@,
                    options.create_if_missing,
                    options.validate_permissions,
                ) is Ok,
                Err(e) => spec_validate(
                    pick@,
                    options.create_if_missing,
                    options.validate_permissions,
                ) == Result::<(), FolderErrorView>::Err(e@),
            },
    {
        if !options.create_if_missing && !pick.exists {
            return Err(FolderSelectorError::FolderNotExists(pick.path.clone()));
        }
        if options.validate_permissions && !pick.writable {
            let mut msg = str_to_string("Cannot write to folder: ");
            msg.append(pick.path.as_str());
            return Err(FolderSelectorError::PermissionDenied(msg));
        }
        self.check_security_restrictions(pick.path.as_str())?;
        Ok(())
    }

    /// Judges one dialog outcome: no pick is no selection; a pick is
    /// validated and its path returned when accepted.
    pub fn select_folder(&self, options: &FolderSelectionOptions, pick: Option<FolderPick>) -> (r:
        Result<String, FolderSelectorError>)
        ensures
            match r {
                Ok(path) => spec_select(
                    opt_pick_view(pick),
                    options.create_if_missing,
                    options.validate_permissions,
                ) == Result::<Seq<char>, FolderErrorView>::Ok(path@),
                Err(e) => spec_select(
                    opt_pick_view(pick),
                    options.create_if_missing,
                    options.validate_permissions,
                ) == Result::<Seq<char>, FolderErrorView>::Err(e@),
            },
    {
        let picked = match pick {
            Some(p) => p,
            None => {
                return Err(FolderSelectorError::NoSelection);
            },
        };
        self.validate_folder_selection(&picked, options)?;
        Ok(picked.path)
    }

    /// Judges a pick for the apps folder: the folder may be created if
    /// missing, and must be writable and outside system directories.
    pub fn select_apps_folder(&self, pick: Option<FolderPick>) -> (r: Result<
        String,
        FolderSelectorError,
    >)
        ensures
            match r {
                Ok(path) => spec_select(opt_pick_view(pick), true, true) == Result::<
                    Seq<char>,
                    FolderErrorView,
                >::Ok(path@),
                Err(e) => spec_select(opt_pick_view(pick), true, true) == Result::<
                    Seq<char>,
                    FolderErrorView,
                >::Err(e@),
            },
    {
        let options = FolderSelectionOptions {
            title: str_to_string("Select Apps Folder - Where PWA applications will be stored"),
            default_path: Some(self.default_paths.apps_folder.clone()),
            create_if_missing: true,
            validate_permissions: true,
        };
        self.select_folder(&options, pick)
    }

    /// Judges a pick for the data folder, under the same rules as the apps
    /// folder.
    pub fn select_data_folder(&self, pick: Option<FolderPick>) -> (r: Result<
        String,
        FolderSelectorError,
    >)
        ensures
            match r {
                Ok(path) => spec_select(opt_pick_view(pick), true, true) == Result::<
                    Seq<char>,
                    FolderErrorView,
                >::Ok(path@),
                Err(e) => spec_select(opt_pick_view(pick), true, true) == Result::<
                    Seq<char>,
                    FolderErrorView,
                >::Err(e@),
            },
    {
        let options = FolderSelectionOptions {
            title: str_to_string("Select Data Folder - Where application data will be stored"),
            default_path: Some(self.default_paths.data_folder.clone()),
            create_if_missing: true,
            validate_permissions: true,
        };
        self.select_folder(&options, pick)
    }

    /// Judges a pick of a custom folder for one app's access: the folder
    /// must already exist — nothing is auto-created for a custom grant —
    /// and be writable and outside system directories.
    pub fn select_custom_folder(&self, app_name: &str, pick: Option<FolderPick>) -> (r: Result<
        String,
        FolderSelectorError,
    >)
        ensures
            match r {
                Ok(path) => spec_select(opt_pick_view(pick), false, true) == Result::<
                    Seq<char>,
                    FolderErrorView,
                >::Ok(path@),
                Err(e) => spec_select(opt_pick_view(pick), false, true) == Result::<
                    Seq<char>,
                    FolderErrorView,
                >::Err(e@),
            },
    {
        let mut title = str_to_string("Select folder for ");
        title.append(app_name);
        title.append(" access");
        let options = FolderSelectionOptions {
            title,
            default_path: Some(self.default_paths.documents_folder.clone()),
            create_if_missing: false,
            validate_permissions: true,
        };
        self.select_folder(&options, pick)
    }

    /// Collects the row of picks from `i` on, as [`spec_collect`] says.
    fn collect_from(&self, picks: &Vec<Option<FolderPick>>, i: usize) -> (r: Result<
        Vec<String>,
        FolderSelectorError,
    >)
        requires
            i <= picks@.len(),
        ensures
            match r {
                Ok(v) => spec_collect(picks_view(picks@).skip(i as int)) == Result::<
                    Seq<Seq<char>>,
                    FolderErrorView,
                >::Ok(v.deep_view()),
                Err(e) => spec_collect(picks_view(picks@).skip(i as int)) == Result::<
                    Seq<Seq<char>>,
                    FolderErrorView,
                >::Err(e@),
            },
        decreases picks@.len() - i,
    {
        let ghost tail = picks_view(picks@).skip(i as int);
        if i == picks.len() {
            let empty: Vec<String> = Vec::new();
            proof {
                assert(tail =~= Seq::<Option<FolderPickView>>::empty());
                assert(empty.deep_view() =~= Seq::<Seq<char>>::empty());
            }
            return Ok(empty);
        }
        proof {
            assert(tail[0] == picks_view(picks@)[i as int]);
            assert(tail.drop_first() =~= picks_view(picks@).skip(i as int + 1));
        }
        let picked = match &picks[i] {
            None => {
                let empty: Vec<String> = Vec::new();
                proof {
                    assert(empty.deep_view() =~= Seq::<Seq<char>>::empty());
                }
                return Ok(empty);
            },
            Some(p) => p,
        };
        let options = FolderSelectionOptions {
            title: str_to_string("Select Folder"),
            default_path: Some(self.default_paths.documents_folder.clone()),
            create_if_missing: false,
            validate_permissions: true,
        };
        self.validate_folder_selection(picked, &options)?;
        let rest = self.collect_from(picks, i + 1);
        match rest {
            Err(e) => Err(e),
            Ok(mut rest_paths) => {
                let ghost rest_views = rest_paths.deep_view();
                let mut out: Vec<String> = Vec::new();
                out.push(picked.path.clone());
                out.append(&mut rest_paths);
                proof {
                    assert(out.deep_view() =~= seq![picked.path@] + rest_views);
                }
                Ok(out)
            },
        }
    }

    /// Collects a whole batch of picks: in order until the first cancel,
    /// each validated as a custom folder; a batch with nothing picked is no
    /// selection.
    pub fn select_multiple_folders(&self, picks: Vec<Option<FolderPick>>) -> (r: Result<
        Vec<String>,
        FolderSelectorError,
    >)
        ensures
            match r {
                Ok(v) => spec_select_multiple(picks_view(picks@)) == Result::<
                    Seq<Seq<char>>,
                    FolderErrorView,
                >::Ok(v.deep_view()) && v@.len() > 0,
                Err(e) => spec_select_multiple(picks_view(picks@)) == Result::<
                    Seq<Seq<char>>,
                    FolderErrorView,
                >::Err(e@),
            },
    {
        let collected = self.collect_from(&picks, 0);
        proof {
            assert(picks_view(picks@).skip(0) =~= picks_view(picks@));
        }
        match collected {
            Err(e) => Err(e),
            Ok(paths) => {
                if paths.len() == 0 {
                    Err(FolderSelectorError::NoSelection)
                } else {
                    Ok(paths)
                }
            },
        }
    }

    /// The four folders suggested to the user, labelled.
    pub fn get_suggested_folders(&self) -> (r: Vec<(String, String)>)
        ensures
            r@.len() == 4,
            r@[0].0@ == "Documents/PWA-Apps"@ && r@[0].1@ == self.defaults().apps_folder,
            r@[1].0@ == "Documents/PWA-Data"@ && r@[1].1@ == self.defaults().data_folder,
            r@[2].0@ == "Documents"@ && r@[2].1@ == self.defaults().documents_folder,
            r@[3].0@ == "Downloads"@ && r@[3].1@ == self.defaults().downloads_folder,
    {
        let mut r: Vec<(String, String)> = Vec::new();
        r.push((str_to_string("Documents/PWA-Apps"), self.default_paths.apps_folder.clone()));
        r.push((str_to_string("Documents/PWA-Data"), self.default_paths.data_folder.clone()));
        r.push((str_to_string("Documents"), self.default_paths.documents_folder.clone()));
        r.push((str_to_string("Downloads"), self.default_paths.downloads_folder.clone()));
        r
    }

    /// Whether a path is safe for app data: absolute, outside system
    /// directories, and writable as probed by the host.
    pub fn is_safe_app_folder(&self, path: &str, writable: bool) -> (r: bool)
        ensures
            r == (spec_is_absolute_path(path@) && !forbidden_prefix(lower_of(path@)) && writable),
    {
        if !is_absolute_path(path) {
            return false;
        }
        if self.check_security_restrictions(path).is_err() {
            return false;
        }
        writable
    }

    /// Summarizes a folder for display, from the facts the host probed:
    /// whether it exists, whether it could be read and written, and the
    /// sizes of its entries.  A missing folder counts as empty and neither
    /// readable nor writable.
    pub fn get_folder_info(
        &self,
        path: &str,
        exists: bool,
        readable: bool,
        writable: bool,
        entry_sizes: &Vec<u64>,
    ) -> (r: FolderInfo)
        ensures
            r.path@ == path@,
            r.error is None,
            r.exists == exists,
            !exists ==> !r.readable && !r.writable && r.size_mb == 0 && r.file_count == 0,
            exists ==> {
                &&& r.readable == readable
                &&& r.writable == writable
                &&& r.file_count == entry_sizes@.len()
                &&& r.size_mb == (if sum_sizes(entry_sizes@) / 1048576 <= usize::MAX {
                    sum_sizes(entry_sizes@) / 1048576
                } else {
                    usize::MAX as int
                })
            },
    {
        if !exists {
            return FolderInfo {
                path: str_to_string(path),
                exists: false,
                readable: false,
                writable: false,
                size_mb: 0,
                file_count: 0,
                error: None,
            };
        }
        let mut total: u128 = 0;
        let mut i: usize = 0;
        while i < entry_sizes.len()
            invariant
                0 <= i <= entry_sizes@.len(),
                total == sum_sizes(entry_sizes@.take(i as int)),
                total <= (i as int) * (u64::MAX as int),
            decreases entry_sizes@.len() - i,
        {
            proof {
                assert(entry_sizes@.take(i + 1).drop_last() =~= entry_sizes@.take(i as int));
                assert(entry_sizes@.take(i + 1).last() == entry_sizes@[i as int]);
                assert((i as int + 1) * (u64::MAX as int) == (i as int) * (u64::MAX as int) + (
                u64::MAX as int)) by (nonlinear_arith);
                assert((i as int) * (u64::MAX as int) < u128::MAX - u64::MAX) by (nonlinear_arith)
                    requires
                        0 <= i < usize::MAX,
                ;
            }
            total = total + entry_sizes[i] as u128;
            i += 1;
        }
        proof {
            assert(entry_sizes@.take(entry_sizes@.len() as int) =~= entry_sizes@);
        }
        let mb: u128 = total / 1048576;
        let size_mb: usize = if mb <= usize::MAX as u128 {
            mb as usize
        } else {
            usize::MAX
        };
        FolderInfo {
            path: str_to_string(path),
            exists: true,
            readable,
            writable,
            size_mb,
            file_count: entry_sizes.len(),
            error: None,
        }
    }

    /// Resolves a path string against the defaults, as [`spec_resolve`]
    /// says; the home directory is whatever the platform reports at the
    /// moment of the call.
    pub fn resolve_path(&self, path: &str) -> (r: Result<String, FolderSelectorError>)
        ensures
            r matches Ok(resolved) ==> exists|home: Option<Seq<char>>|
                resolved@ == spec_resolve(
                    path@,
                    home,
                    self.defaults().documents_folder,
                    self.defaults().downloads_folder,
                ),
            r is Ok,
    {
        if is_absolute_path(path) {
            let r = str_to_string(path);
            proof {
                let ghost home: Option<Seq<char>> = None;
                assert(r@ == spec_resolve(
                    path@,
                    home,
                    self.defaults().documents_folder,
                    self.defaults().downloads_folder,
                ));
            }
            return Ok(r);
        }
        let m = path.unicode_len();
        proof {
            reveal_strlit("~/");
            reveal_strlit("$DOCUMENTS/");
            reveal_strlit("$DOWNLOADS/");
        }
        if str_starts_with(path, "~/") {
            if let Some(home) = host_home_dir() {
                let rest = path.substring_char(2, m);
                let r = join_path(home.as_str(), rest);
                proof {
                    let ghost home_view: Option<Seq<char>> = Some(home@);
                    assert(path@.subrange(2, m as int) =~= path@.skip(2));
                    assert(r@ == spec_resolve(
                        path@,
                        home_view,
                        self.defaults().documents_folder,
                        self.defaults().downloads_folder,
                    ));
                }
                return Ok(r);
            }
        }
        let ghost no_home: Option<Seq<char>> = None;
        if str_starts_with(path, "$DOCUMENTS/") {
            let rest = path.substring_char(11, m);
            let r = join_path(self.default_paths.documents_folder.as_str(), rest);
            proof {
                assert(path@.subrange(11, m as int) =~= path@.skip(11));
                assert(r@ == spec_resolve(
                    path@,
                    no_home,
                    self.defaults().documents_folder,
                    self.defaults().downloads_folder,
                ));
            }
            return Ok(r);
        }
        if str_starts_with(path, "$DOWNLOADS/") {
            let rest = path.substring_char(11, m);
            let r = join_path(self.default_paths.downloads_folder.as_str(), rest);
            proof {
                assert(path@.subrange(11, m as int) =~= path@.skip(11));
                assert(r@ == spec_resolve(
                    path@,
                    no_home,
                    self.defaults().documents_folder,
                    self.defaults().downloads_folder,
                ));
            }
            return Ok(r);
        }
        let r = join_path(self.default_paths.documents_folder.as_str(), path);
        proof {
            assert(r@ == spec_resolve(
                path@,
                no_home,
                self.defaults().documents_folder,
                self.defaults().downloads_folder,
            ));
        }
        Ok(r)
    }
}

} // verus!
