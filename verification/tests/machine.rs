use sapphire_launcher::host::{
    app_config_dir, autostart_log_path, autostart_marker_path, autostart_shim_path, config_path,
    default_install_path, first_existing, health_command, join_path, kill_process_tree, null_device,
    open_file, open_url, sapphire_env_python, sapphire_python_cmd, sapphire_pythonw, start_command,
    Host, Platform,
};
use sapphire_launcher::parts::{Cmd, Program};

fn linux() -> Host {
    Host {
        platform: Platform::Linux,
        home: Some("/home/ada".into()),
        user_profile: None,
        app_data: None,
        xdg_config_home: None,
        user_domain: "".into(),
        user_name: "".into(),
        temp_dir: "/tmp".into(),
    }
}

fn windows() -> Host {
    Host {
        platform: Platform::Windows,
        home: None,
        user_profile: Some("C:\\Users\\Ada".into()),
        app_data: Some("C:\\Users\\Ada\\AppData\\Roaming".into()),
        xdg_config_home: None,
        user_domain: "HOME-PC".into(),
        user_name: "Ada".into(),
        temp_dir: "C:\\Temp".into(),
    }
}

fn shown(c: &Cmd) -> String {
    let name = match &c.program {
        Program::Named(s) => s.clone(),
        other => format!("{other:?}"),
    };
    format!("{} {}", name, c.args.join(" ")).trim_end().to_string()
}

#[test]
fn paths_are_joined_as_the_platform_does() {
    assert_eq!(join_path(Platform::Linux, "/a", "b"), "/a/b");
    assert_eq!(join_path(Platform::Linux, "/a/", "b"), "/a/b");
    assert_eq!(join_path(Platform::Windows, "C:\\a", "b"), "C:\\a\\b");
    assert_eq!(join_path(Platform::Windows, "C:\\", "b"), "C:\\b");
    for base in ["/a", "/a/", "", "x"] {
        let there = std::path::Path::new(base).join("main.py");
        assert_eq!(join_path(Platform::Linux, base, "main.py"), there.to_string_lossy());
    }
}

#[test]
fn the_settings_are_beside_those_of_sapphire() {
    let mut h = linux();
    assert_eq!(config_path(&h), "/home/ada/.config/sapphire/launcher.json");
    h.xdg_config_home = Some("/cfg".into());
    assert_eq!(app_config_dir(&h), "/cfg/sapphire");
    h.xdg_config_home = Some("".into());
    assert_eq!(app_config_dir(&h), "/home/ada/.config/sapphire");
    h.home = None;
    assert_eq!(app_config_dir(&h), "./.config/sapphire");
    let mut w = windows();
    assert_eq!(config_path(&w), "C:\\Users\\Ada\\AppData\\Roaming\\Sapphire\\launcher.json");
    w.app_data = None;
    assert_eq!(app_config_dir(&w), "C:\\Users\\Ada\\AppData\\Roaming\\Sapphire");
}

#[test]
fn the_autostart_files_are_in_the_settings() {
    let w = windows();
    let dir = "C:\\Users\\Ada\\AppData\\Roaming\\Sapphire";
    assert_eq!(autostart_marker_path(&w), format!("{dir}\\autostart.on"));
    assert_eq!(autostart_shim_path(&w), format!("{dir}\\autostart.pyw"));
    assert_eq!(autostart_log_path(&w), format!("{dir}\\autostart.log"));
}

#[test]
fn sapphire_goes_into_the_home_folder() {
    assert_eq!(default_install_path(&linux()), "/home/ada/sapphire");
    assert_eq!(default_install_path(&windows()), "C:\\Users\\Ada\\sapphire");
    let mut w = windows();
    w.user_profile = None;
    assert_eq!(default_install_path(&w), "C:\\\\sapphire");
    w.home = Some("D:\\h".into());
    assert_eq!(default_install_path(&w), "D:\\h\\sapphire");
}

#[test]
fn the_first_place_that_exists_is_taken() {
    let places = vec!["a".to_string(), "b".to_string(), "c".to_string()];
    assert_eq!(first_existing(&places, &vec![false, true, true]), Some("b".into()));
    assert_eq!(first_existing(&places, &vec![false, false, false]), None);
    assert_eq!(first_existing(&places, &vec![]), None);
}

#[test]
fn the_python_of_the_environment_is_preferred() {
    let h = linux();
    let yes = vec![true, false];
    let no = vec![false, false];
    assert_eq!(
        sapphire_env_python(&h, &yes),
        Some("/home/ada/miniconda3/envs/sapphire/bin/python".into())
    );
    assert_eq!(sapphire_env_python(&windows(), &vec![true, true, true, true]), None);
    assert_eq!(
        sapphire_pythonw(&windows(), &vec![false, false, true, false]),
        Some("C:\\Users\\Ada\\anaconda3\\envs\\sapphire\\pythonw.exe".into())
    );
    assert_eq!(
        shown(&start_command(sapphire_python_cmd(&h, &yes))),
        "/home/ada/miniconda3/envs/sapphire/bin/python -u main.py"
    );
    assert_eq!(
        shown(&start_command(sapphire_python_cmd(&h, &no))),
        "conda run -n sapphire python -u main.py"
    );
}

#[test]
fn opening_depends_on_the_platform() {
    assert_eq!(shown(&open_url(Platform::Linux, "https://x")), "xdg-open https://x");
    assert_eq!(shown(&open_url(Platform::Windows, "https://x")), "cmd /c start https://x");
    assert_eq!(shown(&open_file(Platform::Linux, "/t")), "xdg-open /t");
    assert_eq!(shown(&open_file(Platform::Windows, "t")), "notepad t");
    assert_eq!(null_device(Platform::Linux), "/dev/null");
    assert_eq!(null_device(Platform::Windows), "NUL");
}

#[test]
fn killing_takes_the_group_and_the_strays() {
    let with: Vec<String> = kill_process_tree(Platform::Linux, 42).iter().map(shown).collect();
    assert_eq!(with, vec!["kill -TERM -42", "pkill -TERM -f envs/sapphire/bin/python"]);
    let without: Vec<String> = kill_process_tree(Platform::Linux, 0).iter().map(shown).collect();
    assert_eq!(without, vec!["pkill -TERM -f envs/sapphire/bin/python"]);
    let win = kill_process_tree(Platform::Windows, 7);
    assert_eq!(shown(&win[0]), "taskkill /F /T /PID 7");
    assert_eq!(win.len(), 2);
    assert_eq!(kill_process_tree(Platform::Windows, 0).len(), 1);
}

#[test]
fn health_is_asked_for_with_a_limit() {
    assert_eq!(
        shown(&health_command("3")),
        "curl -sk --max-time 3 https://localhost:8073/api/health"
    );
}

#[test]
fn the_places_are_those_of_the_platform() {
    let h = linux();
    assert_eq!(h.conda_places()[0], "/home/ada/miniconda3/bin/conda");
    assert_eq!(h.conda_places()[2], "/opt/miniconda3/bin/conda");
    assert_eq!(h.pip_places()[1], "/home/ada/anaconda3/envs/sapphire/bin/pip");
    let w = windows();
    assert_eq!(w.git_places()[4], "C:\\Users\\Ada\\scoop\\shims\\git.exe");
    assert_eq!(w.conda_places()[1], "C:\\Users\\Ada\\Miniconda3\\Scripts\\conda.exe");
    assert_eq!(w.conda_scan_places()[1], "C:\\Users\\Ada\\anaconda3\\Scripts\\conda.exe");
    assert_eq!(w.pip_places().len(), 3);
}
