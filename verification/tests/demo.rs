use gpui_template::demo::{format_zero_padded, generated_files, sample_tree};
use gpui_template::tree::nesting_depth;
use gpui_template::tree_view::TreeView;
use gpui_template::error::app_error::AppError as FirstAppError;
use gpui_template::error::error::AppError;
use error_location::ErrorLocation;

#[test]
fn zero_padding() {
    assert_eq!(format_zero_padded(0, 3), "000");
    assert_eq!(format_zero_padded(7, 3), "007");
    assert_eq!(format_zero_padded(42, 3), "042");
    assert_eq!(format_zero_padded(299, 3), "299");
    assert_eq!(format_zero_padded(1234, 3), "1234");
    assert_eq!(format_zero_padded(5, 0), "5");
    assert_eq!(format_zero_padded(u32::MAX, 3), format!("{:03}", u32::MAX));
}

#[test]
fn generated_files_are_numbered() {
    let files = generated_files("gpui-template/generated", 300);
    assert_eq!(files.len(), 300);
    assert_eq!(files[0].id(), "gpui-template/generated/item_000.rs");
    assert_eq!(files[0].label(), "item_000.rs");
    assert_eq!(files[299].id(), "gpui-template/generated/item_299.rs");
    assert!(files.iter().all(|f| f.children_ref().is_empty() && !f.is_expanded_by_default()));
}

#[test]
fn template_app_errors() {
    let at = ErrorLocation { file: "main.rs", line: 1, column: 2 };
    let error = AppError::main_window(&anyhow::Error::msg("no gpu"), at);
    assert_eq!(error.message(), "Main Window Error");
    match &error {
        AppError::MainWindow { message, .. } => assert_eq!(message, "Failed to open main window no gpu"),
        _ => panic!("wrong variant"),
    }
    let error = AppError::theme_directory("./themes", &anyhow::Error::msg("missing"), at);
    assert_eq!(error.message(), "Theme Directory Error");
    assert_eq!(error.location().column, 2);
    match &error {
        AppError::ThemeDirectory { path, message, .. } => {
            assert_eq!(path, "./themes");
            assert_eq!(message, "Failed to access theme directory: missing");
        }
        _ => panic!("wrong variant"),
    }
    let first = FirstAppError::unexpected("boom", at);
    assert_eq!(first.message(), "Unexpected Error");
    let first = FirstAppError::theme_directory("./t", "bad", at);
    assert_eq!(first.message(), "Theme Directory Error");
    assert_eq!(first.location().line, 1);
}

#[test]
fn sample_tree_shows_its_expanded_folders() {
    let roots = sample_tree();
    assert_eq!(roots.len(), 1);
    assert_eq!(nesting_depth(&roots), Some(6));
    let tree = TreeView::new(roots);
    assert_eq!(tree.visible_len(), 326);
    assert_eq!(tree.row(0).unwrap().id, "gpui-template");
    assert_eq!(tree.row(25).unwrap().id, "gpui-template/generated");
    assert_eq!(tree.row(26).unwrap().id, "gpui-template/generated/item_000.rs");
    assert_eq!(tree.row(325).unwrap().id, "gpui-template/generated/item_299.rs");
    assert_eq!(tree.row(325).unwrap().depth, 2);
}

#[test]
fn template_app_errors_from_reasons() {
    let at = ErrorLocation { file: "main.rs", line: 4, column: 1 };
    match AppError::main_window_because("no gpu", at) {
        AppError::MainWindow { message, location } => {
            assert_eq!(message, "Failed to open main window no gpu");
            assert_eq!(location.line, 4);
        }
        _ => panic!("wrong variant"),
    }
    match AppError::theme_directory_because("./themes", "missing", at) {
        AppError::ThemeDirectory { path, message, .. } => {
            assert_eq!(path, "./themes");
            assert_eq!(message, "Failed to access theme directory: missing");
        }
        _ => panic!("wrong variant"),
    }
}
