use gpui_template::resize::{
    cursor_style_for_resize_edge, handle_placement, resize_edge_enabled, resize_handle,
    window_resize_handles, CursorStyle, Decorations, HandleExtent, ResizeEdge, Tiling,
};

const NONE: Tiling = Tiling { top: false, left: false, right: false, bottom: false };

#[test]
fn tiled_sides_disable_edges_and_corners() {
    let tiling = Tiling { top: true, left: false, right: false, bottom: false };
    assert!(!resize_edge_enabled(ResizeEdge::Top, tiling));
    assert!(!resize_edge_enabled(ResizeEdge::TopLeft, tiling));
    assert!(!resize_edge_enabled(ResizeEdge::TopRight, tiling));
    assert!(resize_edge_enabled(ResizeEdge::Bottom, tiling));
    assert!(resize_edge_enabled(ResizeEdge::BottomLeft, tiling));
    assert!(resize_edge_enabled(ResizeEdge::Left, tiling));
}

#[test]
fn cursors() {
    assert_eq!(cursor_style_for_resize_edge(ResizeEdge::Top), CursorStyle::ResizeUpDown);
    assert_eq!(cursor_style_for_resize_edge(ResizeEdge::Left), CursorStyle::ResizeLeftRight);
    assert_eq!(cursor_style_for_resize_edge(ResizeEdge::BottomRight), CursorStyle::ResizeUpLeftDownRight);
    assert_eq!(cursor_style_for_resize_edge(ResizeEdge::BottomLeft), CursorStyle::ResizeUpRightDownLeft);
}

#[test]
fn placements() {
    let top = handle_placement(ResizeEdge::Top);
    assert!(top.top && top.left && top.right && !top.bottom);
    assert_eq!((top.width, top.height), (HandleExtent::Stretched, HandleExtent::Edge));
    let corner = handle_placement(ResizeEdge::BottomLeft);
    assert!(corner.bottom && corner.left && !corner.top && !corner.right);
    assert_eq!((corner.width, corner.height), (HandleExtent::Corner, HandleExtent::Corner));
}

#[test]
fn handles_in_layout_order() {
    let handles = window_resize_handles(Decorations::Client { tiling: NONE }).unwrap();
    let edges: Vec<ResizeEdge> = handles.iter().map(|h| h.unwrap().edge).collect();
    assert_eq!(
        edges,
        vec![
            ResizeEdge::Top,
            ResizeEdge::Right,
            ResizeEdge::Bottom,
            ResizeEdge::Left,
            ResizeEdge::TopLeft,
            ResizeEdge::TopRight,
            ResizeEdge::BottomRight,
            ResizeEdge::BottomLeft,
        ]
    );
    let all = Tiling { top: true, left: true, right: true, bottom: true };
    let tiled = window_resize_handles(Decorations::Client { tiling: all }).unwrap();
    assert_eq!(tiled.len(), 8);
    assert!(tiled.iter().all(|h| h.is_none()));
    assert!(resize_handle(ResizeEdge::Right, Tiling { right: true, ..NONE }).is_none());
    assert_eq!(
        resize_handle(ResizeEdge::Right, NONE).unwrap().cursor,
        CursorStyle::ResizeLeftRight
    );
}

#[test]
fn server_decorated_window_has_no_handles() {
    assert!(window_resize_handles(Decorations::Server).is_none());
}
