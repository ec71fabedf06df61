use vstd::prelude::*;

use crate::object::{AppError, FileDetail};

verus! {

/// What the session asks of the loop that drives it.
#[derive(Debug, PartialEq, Eq)]
pub enum AppEventType {
    Quit,
    OpenHelp,
    CloseCurrentPage,
    BucketListMoveDown,
    BucketListOpenManagementConsole,
    ObjectListMoveDown,
    ObjectListMoveUp,
    BackToBucketList,
    ObjectListOpenManagementConsole,
    PreviewDownloadObject,
    PreviewSaveDownloadObjectAs,
    /// The listing under the current key must be fetched.
    LoadObjects,
    /// The details of the selected file must be fetched.
    LoadObject,
    DetailDownloadObject(FileDetail, Option<String>),
    DetailDownloadObjectAs(FileDetail, String, Option<String>),
    OpenPreview(FileDetail, Option<String>),
    ObjectDetailOpenManagementConsole(String),
    /// A (name, value) pair to put on the clipboard.
    CopyToClipboard(String, String),
    DownloadObject(FileDetail),
    DownloadObjectAs(FileDetail, String),
    PreviewObject(FileDetail),
    /// An error that is now shown and must be appended to the error log.
    LogError(AppError),
}

} // verus!
