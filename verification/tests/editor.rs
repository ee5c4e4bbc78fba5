use notion::error::Error;
use notion::error::IoErrorKind;
use notion::file_access::default_path;
use notion::file_access::load_outcome;
use notion::file_access::pick_outcome;
use notion::state::display_position;
use notion::state::EditorState;
use notion::state::Effect;
use notion::state::Intent;

fn state(path: Option<&str>, content: &str, error: Option<Error>) -> EditorState {
    EditorState {
        path: path.map(|p| p.to_string()),
        content: content.to_string(),
        error,
    }
}

#[test]
fn fresh_editor_is_untitled_and_schedules_startup_load() {
    let (editor, effect) = EditorState::new();
    assert_eq!(editor.path, None);
    assert_eq!(editor.content, "");
    assert_eq!(editor.error, None);
    assert_eq!(effect, Effect::StartLoad(default_path()));
}

#[test]
fn title_is_fixed() {
    let (editor, _) = EditorState::new();
    assert_eq!(editor.title(), "notion");
}

#[test]
fn edit_replaces_content_and_keeps_identity_and_error() {
    let mut editor = state(Some("/tmp/a.txt"), "old", Some(Error::DialogClosed));
    let effect = editor.update(Intent::Edit("new text".to_string()));
    assert_eq!(effect, Effect::Idle);
    assert_eq!(editor.path, Some("/tmp/a.txt".to_string()));
    assert_eq!(editor.content, "new text");
    assert_eq!(editor.error, Some(Error::DialogClosed));
}

#[test]
fn new_file_resets_any_state() {
    let mut editor = state(
        Some("/tmp/a.txt"),
        "hello",
        Some(Error::IoFailure(IoErrorKind::Other)),
    );
    let effect = editor.update(Intent::NewFile);
    assert_eq!(effect, Effect::Idle);
    assert_eq!(editor.path, None);
    assert_eq!(editor.content, "");
    assert_eq!(editor.error, Some(Error::IoFailure(IoErrorKind::Other)));
}

#[test]
fn new_file_twice_equals_once() {
    let mut once = state(Some("/x"), "text", None);
    once.update(Intent::NewFile);
    let mut twice = state(Some("/x"), "text", None);
    twice.update(Intent::NewFile);
    twice.update(Intent::NewFile);
    assert_eq!(once, twice);
}

#[test]
fn second_successful_load_wins() {
    let a = ("/tmp/a.txt".to_string(), "aaa".to_string());
    let b = ("/tmp/b.txt".to_string(), "bbb".to_string());

    let mut both = state(None, "", None);
    both.update(Intent::LoadCompleted(Ok(a)));
    both.update(Intent::LoadCompleted(Ok(b.clone())));

    let mut only_b = state(None, "", None);
    only_b.update(Intent::LoadCompleted(Ok(b)));

    assert_eq!(both, only_b);
}

#[test]
fn load_new_file_then_failure_scenario() {
    let mut editor = state(None, "", None);

    let effect = editor.update(Intent::LoadCompleted(Ok((
        "/tmp/a.txt".to_string(),
        "hello".to_string(),
    ))));
    assert_eq!(effect, Effect::Idle);
    assert_eq!(editor.path, Some("/tmp/a.txt".to_string()));
    assert_eq!(editor.content, "hello");
    assert_eq!(editor.error, None);

    editor.update(Intent::NewFile);
    assert_eq!(editor.path, None);
    assert_eq!(editor.content, "");

    editor.update(Intent::LoadCompleted(Err(Error::IoFailure(
        IoErrorKind::NotFound,
    ))));
    assert_eq!(editor.error, Some(Error::IoFailure(IoErrorKind::NotFound)));
    assert_eq!(editor.path, None);
    assert_eq!(editor.content, "");
}

#[test]
fn open_file_requests_picker_and_changes_nothing() {
    let mut editor = state(Some("/tmp/a.txt"), "hello", None);
    let effect = editor.update(Intent::OpenFile);
    assert_eq!(effect, Effect::StartPickAndLoad);
    assert_eq!(editor.path, Some("/tmp/a.txt".to_string()));
    assert_eq!(editor.content, "hello");
    assert_eq!(editor.error, None);
}

#[test]
fn successful_read_passes_path_and_content_through() {
    let r = load_outcome("/tmp/a.txt".to_string(), Ok("hello".to_string()));
    assert_eq!(r, Ok(("/tmp/a.txt".to_string(), "hello".to_string())));
}

#[test]
fn missing_file_becomes_io_failure_not_found() {
    let r = load_outcome("/no/such/file".to_string(), Err(IoErrorKind::NotFound));
    assert_eq!(r, Err(Error::IoFailure(IoErrorKind::NotFound)));
}

#[test]
fn forbidden_file_becomes_io_failure_permission_denied() {
    let r = load_outcome("/root/x".to_string(), Err(IoErrorKind::PermissionDenied));
    assert_eq!(r, Err(Error::IoFailure(IoErrorKind::PermissionDenied)));
}

#[test]
fn dismissed_picker_is_dialog_closed() {
    assert_eq!(pick_outcome(None), Err(Error::DialogClosed));
}

#[test]
fn chosen_path_is_handed_on_unchanged() {
    assert_eq!(
        pick_outcome(Some("/tmp/pick.txt".to_string())),
        Ok("/tmp/pick.txt".to_string())
    );
}

#[test]
fn io_failure_text_replaces_path_in_status() {
    let editor = state(
        Some("/tmp/a.txt"),
        "hello",
        Some(Error::IoFailure(IoErrorKind::NotFound)),
    );
    assert_eq!(editor.status_text(), "file not found");
}

#[test]
fn dialog_closed_leaves_status_on_the_path() {
    let editor = state(Some("/tmp/a.txt"), "hello", Some(Error::DialogClosed));
    assert_eq!(editor.status_text(), "/tmp/a.txt");
}

#[test]
fn untitled_document_status_is_new_file() {
    let editor = state(None, "", None);
    assert_eq!(editor.status_text(), "New File");
}

#[test]
fn each_failure_kind_has_its_text() {
    assert_eq!(IoErrorKind::NotFound.describe(), "file not found");
    assert_eq!(IoErrorKind::PermissionDenied.describe(), "permission denied");
    assert_eq!(IoErrorKind::Other.describe(), "input/output error");
}

#[test]
fn displayed_cursor_position_is_one_based() {
    assert_eq!(display_position(0, 0), (1, 1));
    assert_eq!(display_position(41, 6), (42, 7));
}
