use cues_mantle::conduction::runtime::{MantleError, MantleRuntime};

#[test]
fn plain_script_passes_unchanged() {
    let src = "let x = 1; hop.value = x * 2;";
    assert_eq!(MantleRuntime::prepare_source(src), Ok(src.to_string()));
    assert_eq!(MantleRuntime::prepare_source(""), Ok(String::new()));
}

#[test]
fn every_tag_is_removed_left_to_right() {
    assert_eq!(
        MantleRuntime::prepare_source("a@experience modeb@experience modec"),
        Ok("abc".to_string())
    );
    assert_eq!(
        MantleRuntime::prepare_source("@experience @experience mode mode"),
        Ok("@experience  mode".to_string())
    );
    assert_eq!(
        MantleRuntime::prepare_source("@experience mod"),
        Ok("@experience mod".to_string())
    );
}

#[test]
fn undefined_name_is_refused_only_after_stripping() {
    assert_eq!(
        MantleRuntime::prepare_source("non_existent_variable"),
        Err(MantleError::UndefinedReference)
    );
    assert_eq!(
        MantleRuntime::prepare_source("non_existent_@experience modevariable"),
        Err(MantleError::UndefinedReference)
    );
    assert_eq!(
        MantleRuntime::prepare_source("non_existent_variabl"),
        Ok("non_existent_variabl".to_string())
    );
}

#[test]
fn non_ascii_text_is_kept() {
    assert_eq!(
        MantleRuntime::prepare_source("° ü @experience mode→"),
        Ok("° ü →".to_string())
    );
}
