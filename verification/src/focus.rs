//! Which pane has the focus, and how the keys move it.

use vstd::prelude::*;

verus! {

/// The panes that can have the focus.
#[derive(Clone, Copy, Debug, PartialEq, Eq, Structural)]
pub enum FocusedWidget {
    FileTable,
    DownloadTable,
    ArchiveTable,
    MessageList,
}

/// The keys that move the focus between panes.
#[derive(Clone, Copy, Debug, PartialEq, Eq, Structural)]
pub enum Move {
    Left,
    Right,
}

/// The pane that has the focus after a move from `focused`. The archive
/// table stands alone in its tab and keeps the focus.
pub open spec fn moved(focused: FocusedWidget, to: Move) -> FocusedWidget {
    match to {
        Move::Left => match focused {
            FocusedWidget::MessageList | FocusedWidget::DownloadTable => FocusedWidget::FileTable,
            FocusedWidget::FileTable => FocusedWidget::MessageList,
            FocusedWidget::ArchiveTable => FocusedWidget::ArchiveTable,
        },
        Move::Right => match focused {
            FocusedWidget::MessageList | FocusedWidget::FileTable => FocusedWidget::DownloadTable,
            FocusedWidget::DownloadTable => FocusedWidget::MessageList,
            FocusedWidget::ArchiveTable => FocusedWidget::ArchiveTable,
        },
    }
}

/// Moves the focus from `focused` as the key says.
pub fn move_focus(focused: FocusedWidget, to: Move) -> (r: FocusedWidget)
    ensures
        r == moved(focused, to),
{
    match to {
        Move::Left => match focused {
            FocusedWidget::MessageList | FocusedWidget::DownloadTable => FocusedWidget::FileTable,
            FocusedWidget::FileTable => FocusedWidget::MessageList,
            FocusedWidget::ArchiveTable => FocusedWidget::ArchiveTable,
        },
        Move::Right => match focused {
            FocusedWidget::MessageList | FocusedWidget::FileTable => FocusedWidget::DownloadTable,
            FocusedWidget::DownloadTable => FocusedWidget::MessageList,
            FocusedWidget::ArchiveTable => FocusedWidget::ArchiveTable,
        },
    }
}

/// The pane that has the focus after the tab `tab` was selected: the file
/// table in the first tab, the archive table in the second, and the pane
/// that had it in any other.
pub fn focus_for_tab(focused: FocusedWidget, tab: usize) -> (r: FocusedWidget)
    ensures
        tab == 0 ==> r == FocusedWidget::FileTable,
        tab == 1 ==> r == FocusedWidget::ArchiveTable,
        tab > 1 ==> r == focused,
{
    if tab == 0 {
        FocusedWidget::FileTable
    } else if tab == 1 {
        FocusedWidget::ArchiveTable
    } else {
        focused
    }
}

} // verus!
