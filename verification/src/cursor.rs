//! The native cursors that stand for each cursor icon.
use vstd::prelude::*;

verus! {

/// A cursor icon, following the CSS cursor names.
#[derive(Clone, Copy, Debug, PartialEq, Eq, Structural, Hash)]
pub enum CursorIcon {
    Default,
    Crosshair,
    Hand,
    Arrow,
    Move,
    Text,
    Wait,
    Help,
    Progress,
    NotAllowed,
    ContextMenu,
    Cell,
    VerticalText,
    Alias,
    Copy,
    NoDrop,
    Grab,
    Grabbing,
    AllScroll,
    ZoomIn,
    ZoomOut,
    EResize,
    NResize,
    NeResize,
    NwResize,
    SResize,
    SeResize,
    SwResize,
    WResize,
    EwResize,
    NsResize,
    NeswResize,
    NwseResize,
    ColResize,
    RowResize,
}

/// Where a native cursor comes from: a documented `NSCursor` class method, an
/// undocumented one, or WebKit's cursor resources.
#[derive(Clone, Copy, Debug, PartialEq, Eq, Hash)]
pub enum Cursor {
    Native(&'static str),
    Undocumented(&'static str),
    WebKit(&'static str),
}

/// Whether two native cursors are the same cursor: the same source and the same name.
pub open spec fn same_cursor(a: Cursor, b: Cursor) -> bool {
    match (a, b) {
        (Cursor::Native(x), Cursor::Native(y)) => x@ == y@,
        (Cursor::Undocumented(x), Cursor::Undocumented(y)) => x@ == y@,
        (Cursor::WebKit(x), Cursor::WebKit(y)) => x@ == y@,
        _ => false,
    }
}

/// Whether two names hold the same characters.
fn same_name(a: &str, b: &str) -> (r: bool)
    ensures
        r == (a@ == b@),
{
    let n = a.unicode_len();
    if n != b.unicode_len() {
        return false;
    }
    let mut i: usize = 0;
    while i < n
        invariant
            n == a@.len(),
            n == b@.len(),
            i <= n,
            forall|j: int| 0 <= j < i ==> a@[j] == b@[j],
        decreases n - i,
    {
        if a.get_char(i) != b.get_char(i) {
            return false;
        }
        i = i + 1;
    }
    proof {
        assert(a@ =~= b@);
    }
    true
}

impl Cursor {
    /// Whether this is the same native cursor as `other`.
    pub fn same_as(&self, other: &Cursor) -> (r: bool)
        ensures
            r == same_cursor(*self, *other),
    {
        match (self, other) {
            (Cursor::Native(x), Cursor::Native(y)) => same_name(x, y),
            (Cursor::Undocumented(x), Cursor::Undocumented(y)) => same_name(x, y),
            (Cursor::WebKit(x), Cursor::WebKit(y)) => same_name(x, y),
            _ => false,
        }
    }
}

/// The native cursor that stands for a cursor icon.
pub open spec fn cursor_of_icon(icon: CursorIcon) -> Cursor {
    match icon {
        CursorIcon::Arrow | CursorIcon::Default => Cursor::Native("arrowCursor"),
        CursorIcon::Hand => Cursor::Native("pointingHandCursor"),
        CursorIcon::Grabbing | CursorIcon::Grab => Cursor::Native("closedHandCursor"),
        CursorIcon::Text => Cursor::Native("IBeamCursor"),
        CursorIcon::VerticalText => Cursor::Native("IBeamCursorForVerticalLayout"),
        CursorIcon::Copy => Cursor::Native("dragCopyCursor"),
        CursorIcon::Alias => Cursor::Native("dragLinkCursor"),
        CursorIcon::NotAllowed | CursorIcon::NoDrop => Cursor::Native("operationNotAllowedCursor"),
        CursorIcon::ContextMenu => Cursor::Native("contextualMenuCursor"),
        CursorIcon::Crosshair => Cursor::Native("crosshairCursor"),
        CursorIcon::EResize => Cursor::Native("resizeRightCursor"),
        CursorIcon::NResize => Cursor::Native("resizeUpCursor"),
        CursorIcon::WResize => Cursor::Native("resizeLeftCursor"),
        CursorIcon::SResize => Cursor::Native("resizeDownCursor"),
        CursorIcon::EwResize | CursorIcon::ColResize => Cursor::Native("resizeLeftRightCursor"),
        CursorIcon::NsResize | CursorIcon::RowResize => Cursor::Native("resizeUpDownCursor"),
        CursorIcon::Help => Cursor::Undocumented("_helpCursor"),
        CursorIcon::ZoomIn => Cursor::Undocumented("_zoomInCursor"),
        CursorIcon::ZoomOut => Cursor::Undocumented("_zoomOutCursor"),
        CursorIcon::NeResize => Cursor::Undocumented("_windowResizeNorthEastCursor"),
        CursorIcon::NwResize => Cursor::Undocumented("_windowResizeNorthWestCursor"),
        CursorIcon::SeResize => Cursor::Undocumented("_windowResizeSouthEastCursor"),
        CursorIcon::SwResize => Cursor::Undocumented("_windowResizeSouthWestCursor"),
        CursorIcon::NeswResize => Cursor::Undocumented("_windowResizeNorthEastSouthWestCursor"),
        CursorIcon::NwseResize => Cursor::Undocumented("_windowResizeNorthWestSouthEastCursor"),
        CursorIcon::Wait | CursorIcon::Progress => Cursor::Undocumented("busyButClickableCursor"),
        CursorIcon::Move | CursorIcon::AllScroll => Cursor::WebKit("move"),
        CursorIcon::Cell => Cursor::WebKit("cell"),
    }
}

impl From<CursorIcon> for Cursor {
    /// The native cursor for an icon: most are `NSCursor` class methods; help, zoom,
    /// diagonal resizes and busy come from undocumented ones, and move and cell from
    /// WebKit's resources.
    fn from(cursor: CursorIcon) -> (r: Self) {
        match cursor {
            CursorIcon::Arrow | CursorIcon::Default => Cursor::Native("arrowCursor"),
            CursorIcon::Hand => Cursor::Native("pointingHandCursor"),
            CursorIcon::Grabbing | CursorIcon::Grab => Cursor::Native("closedHandCursor"),
            CursorIcon::Text => Cursor::Native("IBeamCursor"),
            CursorIcon::VerticalText => Cursor::Native("IBeamCursorForVerticalLayout"),
            CursorIcon::Copy => Cursor::Native("dragCopyCursor"),
            CursorIcon::Alias => Cursor::Native("dragLinkCursor"),
            CursorIcon::NotAllowed | CursorIcon::NoDrop => Cursor::Native("operationNotAllowedCursor"),
            CursorIcon::ContextMenu => Cursor::Native("contextualMenuCursor"),
            CursorIcon::Crosshair => Cursor::Native("crosshairCursor"),
            CursorIcon::EResize => Cursor::Native("resizeRightCursor"),
            CursorIcon::NResize => Cursor::Native("resizeUpCursor"),
            CursorIcon::WResize => Cursor::Native("resizeLeftCursor"),
            CursorIcon::SResize => Cursor::Native("resizeDownCursor"),
            CursorIcon::EwResize | CursorIcon::ColResize => Cursor::Native("resizeLeftRightCursor"),
            CursorIcon::NsResize | CursorIcon::RowResize => Cursor::Native("resizeUpDownCursor"),
            CursorIcon::Help => Cursor::Undocumented("_helpCursor"),
            CursorIcon::ZoomIn => Cursor::Undocumented("_zoomInCursor"),
            CursorIcon::ZoomOut => Cursor::Undocumented("_zoomOutCursor"),
            CursorIcon::NeResize => Cursor::Undocumented("_windowResizeNorthEastCursor"),
            CursorIcon::NwResize => Cursor::Undocumented("_windowResizeNorthWestCursor"),
            CursorIcon::SeResize => Cursor::Undocumented("_windowResizeSouthEastCursor"),
            CursorIcon::SwResize => Cursor::Undocumented("_windowResizeSouthWestCursor"),
            CursorIcon::NeswResize => Cursor::Undocumented("_windowResizeNorthEastSouthWestCursor"),
            CursorIcon::NwseResize => Cursor::Undocumented("_windowResizeNorthWestSouthEastCursor"),
            CursorIcon::Wait | CursorIcon::Progress => Cursor::Undocumented("busyButClickableCursor"),
            CursorIcon::Move | CursorIcon::AllScroll => Cursor::WebKit("move"),
            CursorIcon::Cell => Cursor::WebKit("cell"),
        }
    }
}

impl vstd::std_specs::convert::FromSpecImpl<CursorIcon> for Cursor {
    open spec fn obeys_from_spec() -> bool {
        true
    }

    open spec fn from_spec(v: CursorIcon) -> Self {
        cursor_of_icon(v)
    }
}

impl Default for Cursor {
    /// The arrow cursor.
    fn default() -> (r: Self)
        ensures
            r == Cursor::Native("arrowCursor"),
    {
        Cursor::Native("arrowCursor")
    }
}

} // verus!
