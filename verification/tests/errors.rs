use leo::errors::{main_file_message, ManifestError, RunError};

fn text(s: &str) -> String {
    s.to_string()
}

fn load_manifest(found: bool) -> Result<u32, ManifestError> {
    if found {
        Ok(1)
    } else {
        Err(ManifestError { message: text("`Leo.toml` does not exist") })
    }
}

fn run(manifest_found: bool) -> Result<u32, RunError> {
    let manifest = load_manifest(manifest_found)?;
    Ok(manifest)
}

#[test]
fn missing_main_file_carries_the_path_that_was_tried() {
    let error = RunError::MainFileDoesNotExist(text("/home/user/project/src/main.leo"));
    match error {
        RunError::MainFileDoesNotExist(path) => assert_eq!(path, "/home/user/project/src/main.leo"),
        RunError::ManifestError(_) => panic!("a missing main file is no manifest failure"),
    }
}

#[test]
fn missing_main_file_message_quotes_the_path() {
    let error = RunError::MainFileDoesNotExist(text("/home/user/project/src/main.leo"));
    assert_eq!(error.to_string(), "main file \"/home/user/project/src/main.leo\" does not exist");
}

#[test]
fn missing_main_file_message_escapes_the_path() {
    let error = RunError::MainFileDoesNotExist(text("dir\\my \"main\".leo"));
    assert_eq!(error.to_string(), "main file \"dir\\\\my \\\"main\\\".leo\" does not exist");
    let error = RunError::MainFileDoesNotExist(text("a\nb"));
    assert_eq!(error.to_string(), "main file \"a\\nb\" does not exist");
}

#[test]
fn missing_main_file_message_of_an_empty_path() {
    let error = RunError::MainFileDoesNotExist(text(""));
    assert_eq!(error.to_string(), "main file \"\" does not exist");
}

#[test]
fn main_file_message_wraps_the_quoted_path() {
    assert_eq!(main_file_message(text("\"main.leo\"")), "main file \"main.leo\" does not exist");
    assert_eq!(main_file_message(text("")), "main file  does not exist");
    assert_eq!(main_file_message(text("x")), "main file x does not exist");
}

#[test]
fn manifest_error_message_is_the_loaders_word_for_word() {
    let error = RunError::ManifestError(ManifestError { message: text("`Leo.toml` parsing: expected an equals") });
    assert_eq!(error.to_string(), "`Leo.toml` parsing: expected an equals");
    let empty = RunError::ManifestError(ManifestError { message: text("") });
    assert_eq!(empty.to_string(), "");
}

#[test]
fn manifest_error_becomes_a_run_error() {
    let error = RunError::from(ManifestError { message: text("unreadable") });
    assert_eq!(error, RunError::ManifestError(ManifestError { message: text("unreadable") }));
    assert_eq!(error.to_string(), "unreadable");
}

#[test]
fn manifest_error_is_handed_on_by_the_question_mark() {
    assert_eq!(run(true), Ok(1));
    assert_eq!(
        run(false),
        Err(RunError::ManifestError(ManifestError { message: text("`Leo.toml` does not exist") }))
    );
}

#[test]
fn the_two_failures_are_distinct() {
    let missing = RunError::MainFileDoesNotExist(text("main.leo"));
    let manifest = RunError::ManifestError(ManifestError { message: text("main.leo") });
    assert_ne!(missing, manifest);
    assert_ne!(missing.to_string(), manifest.to_string());
}
