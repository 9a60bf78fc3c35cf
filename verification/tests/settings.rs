use sapphire_launcher::config::{
    config_text, detect_git_branch, head_command, load_branch, load_install_path, path_in_config,
};
use sapphire_launcher::host::{Host, Platform};
use sapphire_launcher::output::output_from;
use sapphire_launcher::parts::Branch;

fn host() -> Host {
    Host {
        platform: Platform::Linux,
        home: Some("/home/ada".into()),
        user_profile: None,
        app_data: None,
        xdg_config_home: None,
        user_domain: "".into(),
        user_name: "".into(),
        temp_dir: "/tmp".into(),
    }
}

#[test]
fn the_settings_file_has_its_layout() {
    assert_eq!(
        config_text("C:\\Users\\Ada", Branch::Development),
        "{\n  \"install_path\": \"C:\\\\Users\\\\Ada\",\n  \"branch\": \"Development\"\n}\n"
    );
}

#[test]
fn a_saved_path_is_loaded() {
    let paths = [
        "/home/ada/sapphire",
        "C:\\a\\b",
        "C:\\a\\",
        "\\\\srv\\x\\\\y",
        "",
        "branch",
        "a, b: {c}",
        "install_path",
        "a\"b",
        "\"install_path\": \"x\"",
        "\", \"branch\": \"Development",
        "\\\"",
    ];
    for path in paths {
        for b in [Branch::Stable, Branch::Development] {
            let text = Some(config_text(path, b));
            assert_eq!(load_install_path(&host(), text.clone()), path);
            assert_eq!(load_branch(&text, false, &None), b);
        }
    }
}

#[test]
fn a_lone_backslash_is_kept() {
    assert_eq!(path_in_config("{\"install_path\": \"C:\\new\"}"), Some("C:\\new".into()));
    assert_eq!(path_in_config("\"install_path\" \"C:\\"), Some("C:\\".into()));
}

#[test]
fn without_settings_the_default_counts() {
    assert_eq!(load_install_path(&host(), None), "/home/ada/sapphire");
    assert_eq!(load_install_path(&host(), Some("{}".into())), "/home/ada/sapphire");
    assert_eq!(path_in_config("{\"install_path\" : \"/x\"}"), Some("/x".into()));
    assert_eq!(path_in_config("\"install_path\""), None);
}

#[test]
fn a_saved_branch_is_loaded_where_there_is_no_repository() {
    for b in [Branch::Stable, Branch::Development] {
        let text = Some(config_text("/x/branch", b));
        assert_eq!(load_branch(&text, false, &None), b);
    }
    assert_eq!(load_branch(&None, false, &None), Branch::Stable);
}

#[test]
fn the_repository_decides_where_there_is_one() {
    let dev = Some(output_from(true, Some(0), b"dev\n", b""));
    let main = Some(output_from(true, Some(0), b"main\n", b""));
    let bad = Some(output_from(false, Some(128), b"dev\n", b"fatal"));
    let saved = Some(config_text("/x", Branch::Development));
    assert_eq!(load_branch(&saved, true, &main), Branch::Stable);
    assert_eq!(load_branch(&None, true, &dev), Branch::Development);
    assert_eq!(detect_git_branch(true, &dev), Branch::Development);
    assert_eq!(detect_git_branch(false, &dev), Branch::Stable);
    assert_eq!(detect_git_branch(true, &bad), Branch::Stable);
    assert_eq!(detect_git_branch(true, &None), Branch::Stable);
}

#[test]
fn git_is_asked_in_the_folder() {
    let c = head_command("/x");
    assert_eq!(c.args, vec!["-C", "/x", "rev-parse", "--abbrev-ref", "HEAD"]);
}
