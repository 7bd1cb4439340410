# gpui_template

The verified logic of a small GPUI desktop template, written in Verus.

- `tree`, `tree_view`, `id_set`: a tree of files and folders and the view
  that shows it as rows. The rows are always the depth-first flattening of the
  expanded branches; expanding, collapsing, toggling and selecting are stated
  over that model.
- `hotkey`: the controller of the hotkey overlay as a state machine. Each
  event gives the next state and an effect that the program performs (show,
  hide or open the overlay window, redraw), and the program reports back how
  the effect went. Also the backend labels, the event mapping of both
  backends, the portal session as a step function (the program performs each
  stage's outside work and the library decides the next stage and what the
  controller is told), and the joining of error chains.
- `icon`: the window icon drawn pixel by pixel into an `image` buffer, with
  the painted regions stated exactly, and its PNG encoding for the desktop.
- `desktop`, `text`: the directories of the XDG data home, the escaped
  `Exec` value, the rewritten desktop entry and whether an installed file
  needs writing.
- `resize`: which resize handles a window shows (none unless it draws its own
  decorations), where they sit and which cursor they use.
- `error`, `hotkey::error`: the error values of the two programs.
- `demo`: the numbered files of the tree view demo.

`app/` holds the GPUI programs around the library: windows, rendering, the
hotkey backends, file and environment access, and the floating-point
gradient of the icon.
