use pam_keepassxc::config::{config_path, database_path, module_name, UserConfig, UserIdentity};

fn user_at(home: &str) -> UserIdentity {
    UserIdentity { uid: 1000, gid: 1000, home: home.to_string(), name: "alice".to_string() }
}

fn resolve(home: &str, template: &str) -> String {
    database_path(&user_at(home), &UserConfig::new(template.to_string()))
}

#[test]
fn home_token_is_replaced() {
    let config = UserConfig::new("$HOME/Databases/main.kdbx".to_string());
    assert_eq!(database_path(&user_at("/home/alice"), &config), "/home/alice/Databases/main.kdbx");
}

#[test]
fn every_home_token_is_replaced() {
    assert_eq!(resolve("/h", "$HOME/a$HOME"), "/h/a/h");
}

#[test]
fn leading_tilde_is_replaced() {
    assert_eq!(resolve("/home/alice", "~/db.kdbx"), "/home/alice/db.kdbx");
    assert_eq!(resolve("/home/alice", "~"), "/home/alice");
}

#[test]
fn tilde_elsewhere_stays() {
    assert_eq!(resolve("/home/alice", "/data/~alice/db.kdbx"), "/data/~alice/db.kdbx");
}

#[test]
fn doubled_separators_collapse() {
    assert_eq!(resolve("/home/alice/", "$HOME/db.kdbx"), "/home/alice/db.kdbx");
    assert_eq!(resolve("/home/alice", "/srv//kp//db.kdbx"), "/srv/kp/db.kdbx");
}

#[test]
fn plain_path_names_itself() {
    assert_eq!(resolve("/home/alice", "/srv/kp/db.kdbx"), "/srv/kp/db.kdbx");
    assert_eq!(resolve("/home/alice", ""), "");
}

#[test]
fn resolving_again_changes_nothing() {
    for template in ["$HOME/Databases/main.kdbx", "~/db.kdbx", "/srv//kp/db.kdbx", "db.kdbx"] {
        let once = resolve("/home/alice", template);
        assert_eq!(resolve("/home/alice", &once), once);
    }
}

#[test]
fn odd_templates_do_not_fail() {
    assert_eq!(resolve("", "$HO$HOMEME"), "$HOME");
    assert_eq!(resolve("", "~~"), "~");
    assert_eq!(resolve("~x", "~"), "~x");
}

#[test]
fn config_path_is_below_home() {
    assert_eq!(
        config_path(&user_at("/home/alice")),
        "/home/alice/.config/security/pam_keepassxc.toml"
    );
}

#[test]
fn config_path_adds_no_second_separator() {
    assert_eq!(
        config_path(&user_at("/home/alice/")),
        "/home/alice/.config/security/pam_keepassxc.toml"
    );
    assert_eq!(config_path(&user_at("/")), "/.config/security/pam_keepassxc.toml");
}

#[test]
fn config_path_of_empty_home_is_relative() {
    assert_eq!(config_path(&user_at("")), ".config/security/pam_keepassxc.toml");
}

#[test]
fn config_keeps_the_template() {
    let config = UserConfig::new("~/db.kdbx".to_string());
    assert_eq!(config.template(), "~/db.kdbx");
}

#[test]
fn module_is_named() {
    assert_eq!(module_name(), "pam_keepassxc");
}

#[test]
fn plain_home_leaves_no_token_and_no_leading_tilde() {
    let templates = [
        "$HOME/db.kdbx",
        "$HO$HOMEME",
        "$$HOMEHOME",
        "$H$HOME",
        "~$HOME",
        "~~",
        "~/$HOME/~",
        "/$HOME",
        "",
    ];
    for home in ["/home/alice", "/", "/OME", "/~"] {
        for template in templates {
            let path = resolve(home, template);
            assert!(!path.contains("$HOME"), "{home} {template} {path}");
            assert!(!path.starts_with('~'), "{home} {template} {path}");
        }
    }
}

#[test]
fn home_that_is_not_plain_may_leave_a_token() {
    assert_eq!(resolve("OME", "$H$HOME"), "$HOME");
    assert_eq!(resolve("$HOME", "$HOME"), "$HOME");
}

#[test]
fn resolved_path_of_a_plain_home_is_not_resolved_further() {
    for template in ["$HOME/db.kdbx", "~/x//y", "$HO$HOMEME", "/srv/$HOME/~"] {
        let once = resolve("/home/alice", template);
        assert_eq!(resolve("/home/alice", &once), once);
        assert_eq!(resolve("/elsewhere", &once), once);
    }
}

fn resolved_by_std(home: &str, template: &str) -> String {
    let mut result = template.replace("$HOME", home);
    if result.starts_with('~') {
        result.replace_range(0..1, home);
    }
    while result.contains("//") {
        result = result.replace("//", "/");
    }
    result
}

#[test]
fn database_path_agrees_with_the_standard_library() {
    let homes = ["/home/alice", "/", "", "~", "$HOME", "/home//bob/", "OME", "/hö me", "//"];
    let pieces = ["", "~", "$HOME", "$HO", "ME", "/", "//", "///", "a", "$", "ö", "~/", "/$HOME/"];
    for home in homes {
        for first in pieces {
            for second in pieces {
                for third in pieces {
                    let template = format!("{first}{second}{third}");
                    assert_eq!(
                        resolve(home, &template),
                        resolved_by_std(home, &template),
                        "{home} {template}"
                    );
                }
            }
        }
    }
}

#[test]
fn config_path_agrees_with_the_standard_library() {
    for home in ["/home/alice", "/home/alice/", "/", "", "relative", "/a//b", "/hö me"] {
        let joined = std::path::Path::new(home)
            .join(".config")
            .join("security")
            .join(module_name())
            .with_extension("toml");
        assert_eq!(Some(config_path(&user_at(home)).as_str()), joined.to_str(), "{home}");
    }
}

#[test]
fn runs_of_separators_become_one() {
    assert_eq!(resolve("/home/alice", "//"), "/");
    assert_eq!(resolve("/home/alice", "///"), "/");
    assert_eq!(resolve("/h", "a///b"), "a/b");
    assert_eq!(resolve("/h", "a////b/////"), "a/b/");
    assert_eq!(resolve("/h//", "//$HOME///x"), "/h/x");
}

#[test]
fn no_doubled_separator_is_left() {
    let pieces = ["", "/", "//", "///", "////", "a", "$HOME", "~", "/a/"];
    for home in ["/home/alice", "/", "", "//", "/h//", "~", "$HOME///"] {
        for first in pieces {
            for second in pieces {
                for third in pieces {
                    let path = resolve(home, &format!("{first}{second}{third}"));
                    assert!(!path.contains("//"), "{home} {first}{second}{third} {path}");
                }
            }
        }
    }
}

#[test]
fn resolving_twice_is_resolving_once_for_a_plain_home() {
    let pieces = ["", "/", "//", "///", "a", "$HOME", "$HO", "ME", "~", "$", "/$HOME/", "~/"];
    for home in ["/home/alice", "/", "/OME", "/~", "/h//", "///"] {
        for first in pieces {
            for second in pieces {
                for third in pieces {
                    let template = format!("{first}{second}{third}");
                    let once = resolve(home, &template);
                    assert_eq!(resolve(home, &once), once, "{home} {template}");
                }
            }
        }
    }
}
