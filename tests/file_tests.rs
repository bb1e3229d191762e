use jadl::finalize::{after_copy, first_op, CopyError, FileOp};
use jadl::workflow::{
    audio_filename, audio_url, check_overwrite, config_path, default_config, dest_dir, sound_tag,
    plan, Cli, JadlConfig, SetupError,
};

#[test]
fn keep_starts_with_copy() {
    assert_eq!(first_op(true), Some(FileOp::Copy));
    assert_eq!(first_op(false), None);
}

#[test]
fn copy_success_removes_temp() {
    assert_eq!(after_copy(true), (FileOp::RemoveTemp, Ok(())));
}

#[test]
fn copy_failure_removes_partial_dest() {
    assert_eq!(after_copy(false), (FileOp::RemoveDest, Err(CopyError)));
}

#[test]
fn config_path_prefers_xdg() {
    let p = config_path(Some("/x/cfg.toml".to_string()), Some("/home/u".to_string()));
    assert_eq!(p, Some("/x/cfg.toml".to_string()));
}

#[test]
fn config_path_under_home() {
    let p = config_path(None, Some("/home/u".to_string()));
    assert_eq!(p, Some("/home/u/.config/jadl/config.toml".to_string()));
    assert_eq!(config_path(None, None), None);
}

#[test]
fn default_config_uses_home() {
    let c = default_config("/home/u".to_string());
    assert_eq!(c.anki_dir, None);
    assert_eq!(c.dest_dir, "/home/u");
}

#[test]
fn url_for_word() {
    assert_eq!(
        audio_url("猫", "ねこ"),
        "https://assets.languagepod101.com/dictionary/japanese/audiomp3.php?kana=ねこ&kanji=猫"
    );
}

#[test]
fn filename_and_tag() {
    let f = audio_filename("猫", "ねこ");
    assert_eq!(f, "猫(ねこ).mp3");
    assert_eq!(sound_tag(&f), "[sound:猫(ねこ).mp3]");
}

#[test]
fn dest_dir_choices() {
    let with = JadlConfig { anki_dir: Some("/anki/media".to_string()), dest_dir: "/d".to_string() };
    let without = JadlConfig { anki_dir: None, dest_dir: "/d".to_string() };
    assert_eq!(dest_dir(true, &with), Ok("/anki/media".to_string()));
    assert_eq!(dest_dir(false, &with), Ok("/d".to_string()));
    assert_eq!(dest_dir(true, &without), Err(SetupError::MissingAnkiDir));
    assert_eq!(dest_dir(false, &without), Ok("/d".to_string()));
}

#[test]
fn overwrite_only_when_forced() {
    assert_eq!(check_overwrite(true, false), Err(SetupError::AlreadyExists));
    assert_eq!(check_overwrite(true, true), Ok(()));
    assert_eq!(check_overwrite(false, false), Ok(()));
}

fn cli(anki: bool, copy: bool) -> Cli {
    Cli { kanji: "猫".to_string(), kana: "ねこ".to_string(), force: false, anki, copy }
}

#[test]
fn plan_for_dest_dir_with_tag() {
    let config = JadlConfig { anki_dir: None, dest_dir: "/home/u".to_string() };
    let p = plan(&cli(false, true), &config).unwrap();
    assert_eq!(
        p.url,
        "https://assets.languagepod101.com/dictionary/japanese/audiomp3.php?kana=ねこ&kanji=猫"
    );
    assert_eq!(p.filename, "猫(ねこ).mp3");
    assert_eq!(p.dest_dir, "/home/u");
    assert_eq!(p.clipboard, Some("[sound:猫(ねこ).mp3]".to_string()));
}

#[test]
fn plan_for_anki_dir() {
    let config = JadlConfig { anki_dir: Some("/anki".to_string()), dest_dir: "/home/u".to_string() };
    let p = plan(&cli(true, false), &config).unwrap();
    assert_eq!(p.dest_dir, "/anki");
    assert_eq!(p.clipboard, None);
}

#[test]
fn plan_without_anki_dir_fails() {
    let config = JadlConfig { anki_dir: None, dest_dir: "/home/u".to_string() };
    assert!(matches!(plan(&cli(true, true), &config), Err(SetupError::MissingAnkiDir)));
}
