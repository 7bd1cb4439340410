use vstd::prelude::*;

verus! {

/// A side or a corner of a window that can be dragged to resize it.
#[derive(Clone, Copy, Debug, PartialEq, Eq, Structural)]
pub enum ResizeEdge {
    Top,
    Right,
    Bottom,
    Left,
    TopLeft,
    TopRight,
    BottomRight,
    BottomLeft,
}

/// Which sides of the window the window manager has tiled against a neighbour.
#[derive(Clone, Copy, Debug, PartialEq, Eq, Structural)]
pub struct Tiling {
    pub top: bool,
    pub left: bool,
    pub right: bool,
    pub bottom: bool,
}

/// The mouse cursor over a resize handle.
#[derive(Clone, Copy, Debug, PartialEq, Eq, Structural)]
pub enum CursorStyle {
    ResizeUpDown,
    ResizeLeftRight,
    ResizeUpLeftDownRight,
    ResizeUpRightDownLeft,
}

/// How long a handle is along one axis: the thin edge size, the corner size,
/// or stretched between the sides it is anchored to.
#[derive(Clone, Copy, Debug, PartialEq, Eq, Structural)]
pub enum HandleExtent {
    Stretched,
    Edge,
    Corner,
}

/// Where a handle sits: the sides of the window it is anchored to, and its
/// extent across and down.
#[derive(Clone, Copy, Debug, PartialEq, Eq, Structural)]
pub struct HandlePlacement {
    pub top: bool,
    pub right: bool,
    pub bottom: bool,
    pub left: bool,
    pub width: HandleExtent,
    pub height: HandleExtent,
}

/// A side can be dragged unless it is tiled; a corner only when neither of
/// its sides is tiled.
pub open spec fn edge_enabled(edge: ResizeEdge, tiling: Tiling) -> bool {
    match edge {
        ResizeEdge::Top => !tiling.top,
        ResizeEdge::Right => !tiling.right,
        ResizeEdge::Bottom => !tiling.bottom,
        ResizeEdge::Left => !tiling.left,
        ResizeEdge::TopLeft => !tiling.top && !tiling.left,
        ResizeEdge::TopRight => !tiling.top && !tiling.right,
        ResizeEdge::BottomRight => !tiling.bottom && !tiling.right,
        ResizeEdge::BottomLeft => !tiling.bottom && !tiling.left,
    }
}

/// The cursor of a handle: up-down on the top and bottom, left-right on the
/// sides, and the matching diagonal on the corners.
pub open spec fn edge_cursor(edge: ResizeEdge) -> CursorStyle {
    match edge {
        ResizeEdge::Top | ResizeEdge::Bottom => CursorStyle::ResizeUpDown,
        ResizeEdge::Left | ResizeEdge::Right => CursorStyle::ResizeLeftRight,
        ResizeEdge::TopLeft | ResizeEdge::BottomRight => CursorStyle::ResizeUpLeftDownRight,
        ResizeEdge::TopRight | ResizeEdge::BottomLeft => CursorStyle::ResizeUpRightDownLeft,
    }
}

/// A side handle runs along its side, as thick as the edge size; a corner
/// handle is a square of the corner size in its corner.
pub open spec fn edge_placement(edge: ResizeEdge) -> HandlePlacement {
    match edge {
        ResizeEdge::Top => HandlePlacement {
            top: true,
            right: true,
            bottom: false,
            left: true,
            width: HandleExtent::Stretched,
            height: HandleExtent::Edge,
        },
        ResizeEdge::Right => HandlePlacement {
            top: true,
            right: true,
            bottom: true,
            left: false,
            width: HandleExtent::Edge,
            height: HandleExtent::Stretched,
        },
        ResizeEdge::Bottom => HandlePlacement {
            top: false,
            right: true,
            bottom: true,
            left: true,
            width: HandleExtent::Stretched,
            height: HandleExtent::Edge,
        },
        ResizeEdge::Left => HandlePlacement {
            top: true,
            right: false,
            bottom: true,
            left: true,
            width: HandleExtent::Edge,
            height: HandleExtent::Stretched,
        },
        ResizeEdge::TopLeft => HandlePlacement {
            top: true,
            right: false,
            bottom: false,
            left: true,
            width: HandleExtent::Corner,
            height: HandleExtent::Corner,
        },
        ResizeEdge::TopRight => HandlePlacement {
            top: true,
            right: true,
            bottom: false,
            left: false,
            width: HandleExtent::Corner,
            height: HandleExtent::Corner,
        },
        ResizeEdge::BottomRight => HandlePlacement {
            top: false,
            right: true,
            bottom: true,
            left: false,
            width: HandleExtent::Corner,
            height: HandleExtent::Corner,
        },
        ResizeEdge::BottomLeft => HandlePlacement {
            top: false,
            right: false,
            bottom: true,
            left: true,
            width: HandleExtent::Corner,
            height: HandleExtent::Corner,
        },
    }
}

/// The edges in the order the window lays out their handles.
pub open spec fn edges_in_order() -> Seq<ResizeEdge> {
    seq![
        ResizeEdge::Top,
        ResizeEdge::Right,
        ResizeEdge::Bottom,
        ResizeEdge::Left,
        ResizeEdge::TopLeft,
        ResizeEdge::TopRight,
        ResizeEdge::BottomRight,
        ResizeEdge::BottomLeft,
    ]
}

/// Whether `edge` can be dragged under `tiling`.
pub fn resize_edge_enabled(edge: ResizeEdge, tiling: Tiling) -> (enabled: bool)
    ensures
        enabled == edge_enabled(edge, tiling),
{
    match edge {
        ResizeEdge::Top => !tiling.top,
        ResizeEdge::Right => !tiling.right,
        ResizeEdge::Bottom => !tiling.bottom,
        ResizeEdge::Left => !tiling.left,
        ResizeEdge::TopLeft => !tiling.top && !tiling.left,
        ResizeEdge::TopRight => !tiling.top && !tiling.right,
        ResizeEdge::BottomRight => !tiling.bottom && !tiling.right,
        ResizeEdge::BottomLeft => !tiling.bottom && !tiling.left,
    }
}

/// The cursor over the handle of `edge`.
pub fn cursor_style_for_resize_edge(edge: ResizeEdge) -> (cursor: CursorStyle)
    ensures
        cursor == edge_cursor(edge),
{
    match edge {
        ResizeEdge::Top | ResizeEdge::Bottom => CursorStyle::ResizeUpDown,
        ResizeEdge::Left | ResizeEdge::Right => CursorStyle::ResizeLeftRight,
        ResizeEdge::TopLeft | ResizeEdge::BottomRight => CursorStyle::ResizeUpLeftDownRight,
        ResizeEdge::TopRight | ResizeEdge::BottomLeft => CursorStyle::ResizeUpRightDownLeft,
    }
}

/// Where the handle of `edge` sits.
pub fn handle_placement(edge: ResizeEdge) -> (placement: HandlePlacement)
    ensures
        placement == edge_placement(edge),
{
    match edge {
        ResizeEdge::Top => HandlePlacement {
            top: true,
            right: true,
            bottom: false,
            left: true,
            width: HandleExtent::Stretched,
            height: HandleExtent::Edge,
        },
        ResizeEdge::Right => HandlePlacement {
            top: true,
            right: true,
            bottom: true,
            left: false,
            width: HandleExtent::Edge,
            height: HandleExtent::Stretched,
        },
        ResizeEdge::Bottom => HandlePlacement {
            top: false,
            right: true,
            bottom: true,
            left: true,
            width: HandleExtent::Stretched,
            height: HandleExtent::Edge,
        },
        ResizeEdge::Left => HandlePlacement {
            top: true,
            right: false,
            bottom: true,
            left: true,
            width: HandleExtent::Edge,
            height: HandleExtent::Stretched,
        },
        ResizeEdge::TopLeft => HandlePlacement {
            top: true,
            right: false,
            bottom: false,
            left: true,
            width: HandleExtent::Corner,
            height: HandleExtent::Corner,
        },
        ResizeEdge::TopRight => HandlePlacement {
            top: true,
            right: true,
            bottom: false,
            left: false,
            width: HandleExtent::Corner,
            height: HandleExtent::Corner,
        },
        ResizeEdge::BottomRight => HandlePlacement {
            top: false,
            right: true,
            bottom: true,
            left: false,
            width: HandleExtent::Corner,
            height: HandleExtent::Corner,
        },
        ResizeEdge::BottomLeft => HandlePlacement {
            top: false,
            right: false,
            bottom: true,
            left: true,
            width: HandleExtent::Corner,
            height: HandleExtent::Corner,
        },
    }
}

/// A resize handle to draw: its edge, its cursor and where it sits.
#[derive(Clone, Copy, Debug, PartialEq, Eq, Structural)]
pub struct ResizeHandle {
    pub edge: ResizeEdge,
    pub cursor: CursorStyle,
    pub placement: HandlePlacement,
}

/// The handle of `edge`, or none when the edge cannot be dragged.
pub open spec fn handle_of(edge: ResizeEdge, tiling: Tiling) -> Option<ResizeHandle> {
    if edge_enabled(edge, tiling) {
        Some(ResizeHandle { edge, cursor: edge_cursor(edge), placement: edge_placement(edge) })
    } else {
        None
    }
}

/// The handle of `edge`: none when tiling keeps the edge from being dragged.
pub fn resize_handle(edge: ResizeEdge, tiling: Tiling) -> (handle: Option<ResizeHandle>)
    ensures
        handle == handle_of(edge, tiling),
{
    if !resize_edge_enabled(edge, tiling) {
        return None;
    }
    Some(ResizeHandle {
        edge,
        cursor: cursor_style_for_resize_edge(edge),
        placement: handle_placement(edge),
    })
}

/// How the window is decorated: by the window manager, or by the window
/// itself, which then draws its own resize handles.
#[derive(Clone, Copy, Debug, PartialEq, Eq, Structural)]
pub enum Decorations {
    Server,
    Client { tiling: Tiling },
}

/// The handles of a window decorated as `decorations`: none at all unless the
/// window draws its own decorations; then one entry for each of the eight
/// edges, in layout order, none for an edge that cannot be dragged.
pub open spec fn handles_of(decorations: Decorations) -> Option<Seq<Option<ResizeHandle>>> {
    match decorations {
        Decorations::Server => None,
        Decorations::Client { tiling } => Some(
            edges_in_order().map_values(|edge: ResizeEdge| handle_of(edge, tiling)),
        ),
    }
}

/// The resize handles the window draws: `None` when the window manager
/// decorates it, else the handles of all eight edges in layout order.
pub fn window_resize_handles(decorations: Decorations) -> (handles: Option<Vec<Option<ResizeHandle>>>)
    ensures
        match handles {
            None => handles_of(decorations) is None,
            Some(v) => handles_of(decorations) == Some(v@),
        },
{
    let tiling = match decorations {
        Decorations::Server => {
            return None;
        },
        Decorations::Client { tiling } => tiling,
    };
    let mut handles = Vec::new();
    handles.push(resize_handle(ResizeEdge::Top, tiling));
    handles.push(resize_handle(ResizeEdge::Right, tiling));
    handles.push(resize_handle(ResizeEdge::Bottom, tiling));
    handles.push(resize_handle(ResizeEdge::Left, tiling));
    handles.push(resize_handle(ResizeEdge::TopLeft, tiling));
    handles.push(resize_handle(ResizeEdge::TopRight, tiling));
    handles.push(resize_handle(ResizeEdge::BottomRight, tiling));
    handles.push(resize_handle(ResizeEdge::BottomLeft, tiling));
    assert(handles@ =~= edges_in_order().map_values(|edge: ResizeEdge| handle_of(edge, tiling)));
    Some(handles)
}

// ---------------------------------------------------------------------------------------------- //
// Laws of the handles.

/// A corner can be dragged exactly when both of its sides can.
pub proof fn lemma_corner_needs_both_sides(tiling: Tiling)
    ensures
        edge_enabled(ResizeEdge::TopLeft, tiling) == (edge_enabled(ResizeEdge::Top, tiling)
            && edge_enabled(ResizeEdge::Left, tiling)),
        edge_enabled(ResizeEdge::TopRight, tiling) == (edge_enabled(ResizeEdge::Top, tiling)
            && edge_enabled(ResizeEdge::Right, tiling)),
        edge_enabled(ResizeEdge::BottomRight, tiling) == (edge_enabled(ResizeEdge::Bottom, tiling)
            && edge_enabled(ResizeEdge::Right, tiling)),
        edge_enabled(ResizeEdge::BottomLeft, tiling) == (edge_enabled(ResizeEdge::Bottom, tiling)
            && edge_enabled(ResizeEdge::Left, tiling)),
{
}

/// Opposite edges and opposite corners share a cursor.
pub proof fn lemma_opposites_share_cursor()
    ensures
        edge_cursor(ResizeEdge::Top) == edge_cursor(ResizeEdge::Bottom),
        edge_cursor(ResizeEdge::Left) == edge_cursor(ResizeEdge::Right),
        edge_cursor(ResizeEdge::TopLeft) == edge_cursor(ResizeEdge::BottomRight),
        edge_cursor(ResizeEdge::TopRight) == edge_cursor(ResizeEdge::BottomLeft),
{
}

/// An untiled window can be resized from every edge; a window tiled on all
/// sides from none.
pub proof fn lemma_tiling_extremes(edge: ResizeEdge)
    ensures
        edge_enabled(edge, Tiling { top: false, left: false, right: false, bottom: false }),
        !edge_enabled(edge, Tiling { top: true, left: true, right: true, bottom: true }),
{
}

/// A handle is anchored to the sides its edge names, and a corner handle is a
/// square of the corner size.
pub proof fn lemma_handles_sit_on_their_edge(edge: ResizeEdge)
    ensures
        (edge == ResizeEdge::Top || edge == ResizeEdge::TopLeft || edge == ResizeEdge::TopRight)
            ==> edge_placement(edge).top,
        (edge == ResizeEdge::Bottom || edge == ResizeEdge::BottomLeft || edge == ResizeEdge::BottomRight)
            ==> edge_placement(edge).bottom,
        (edge == ResizeEdge::Left || edge == ResizeEdge::TopLeft || edge == ResizeEdge::BottomLeft)
            ==> edge_placement(edge).left,
        (edge == ResizeEdge::Right || edge == ResizeEdge::TopRight || edge == ResizeEdge::BottomRight)
            ==> edge_placement(edge).right,
        (edge == ResizeEdge::TopLeft || edge == ResizeEdge::TopRight || edge == ResizeEdge::BottomLeft
            || edge == ResizeEdge::BottomRight) ==> edge_placement(edge).width == HandleExtent::Corner
            && edge_placement(edge).height == HandleExtent::Corner,
{
}

/// A side handle is a strip along its side: thin across the side and
/// stretched along it, anchored to that side and to both neighbouring sides
/// but not to the opposite one.  A corner handle is a corner-sized square
/// anchored to exactly the two sides that meet there.
pub proof fn lemma_handle_shapes(edge: ResizeEdge)
    ensures
        (edge == ResizeEdge::Left || edge == ResizeEdge::Right) ==> {
            let p = edge_placement(edge);
            &&& p.width == HandleExtent::Edge
            &&& p.height == HandleExtent::Stretched
            &&& p.top && p.bottom
            &&& p.left == (edge == ResizeEdge::Left)
            &&& p.right == (edge == ResizeEdge::Right)
        },
        (edge == ResizeEdge::Top || edge == ResizeEdge::Bottom) ==> {
            let p = edge_placement(edge);
            &&& p.width == HandleExtent::Stretched
            &&& p.height == HandleExtent::Edge
            &&& p.left && p.right
            &&& p.top == (edge == ResizeEdge::Top)
            &&& p.bottom == (edge == ResizeEdge::Bottom)
        },
        (edge == ResizeEdge::TopLeft || edge == ResizeEdge::TopRight || edge == ResizeEdge::BottomLeft
            || edge == ResizeEdge::BottomRight) ==> {
            let p = edge_placement(edge);
            &&& p.width == HandleExtent::Corner
            &&& p.height == HandleExtent::Corner
            &&& p.top == (edge == ResizeEdge::TopLeft || edge == ResizeEdge::TopRight)
            &&& p.bottom == (edge == ResizeEdge::BottomLeft || edge == ResizeEdge::BottomRight)
            &&& p.left == (edge == ResizeEdge::TopLeft || edge == ResizeEdge::BottomLeft)
            &&& p.right == (edge == ResizeEdge::TopRight || edge == ResizeEdge::BottomRight)
        },
        (edge == ResizeEdge::Top || edge == ResizeEdge::Bottom) ==> edge_cursor(edge)
            == CursorStyle::ResizeUpDown,
        (edge == ResizeEdge::Left || edge == ResizeEdge::Right) ==> edge_cursor(edge)
            == CursorStyle::ResizeLeftRight,
        (edge == ResizeEdge::TopLeft || edge == ResizeEdge::BottomRight) ==> edge_cursor(edge)
            == CursorStyle::ResizeUpLeftDownRight,
        (edge == ResizeEdge::TopRight || edge == ResizeEdge::BottomLeft) ==> edge_cursor(edge)
            == CursorStyle::ResizeUpRightDownLeft,
{
}

/// A client-decorated window lays out one entry per edge, in the order top,
/// right, bottom, left, then the corners clockwise from the top left; each
/// entry is the handle of its edge exactly when tiling leaves that edge free.
pub proof fn lemma_window_handles(tiling: Tiling)
    ensures
        handles_of(Decorations::Client { tiling }) matches Some(hs) && {
            &&& hs.len() == 8
            &&& forall|i: int| 0 <= i < 8 ==> (#[trigger] hs[i] is Some) == edge_enabled(edges_in_order()[i], tiling)
            &&& forall|i: int|
                0 <= i < 8 && (#[trigger] hs[i]) is Some ==> hs[i]->0.edge == edges_in_order()[i]
                    && hs[i]->0.placement == edge_placement(edges_in_order()[i]) && hs[i]->0.cursor
                    == edge_cursor(edges_in_order()[i])
        },
        edges_in_order() == seq![
            ResizeEdge::Top,
            ResizeEdge::Right,
            ResizeEdge::Bottom,
            ResizeEdge::Left,
            ResizeEdge::TopLeft,
            ResizeEdge::TopRight,
            ResizeEdge::BottomRight,
            ResizeEdge::BottomLeft,
        ],
        handles_of(Decorations::Server) is None,
{
}

} // verus!
