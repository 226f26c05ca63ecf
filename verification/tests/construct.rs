//! Literal-style construction of each instruction kind through the
//! constructors, covering the shapes a short-hand builder would produce.

use dockerfile_rs::Add;
use dockerfile_rs::Arg;
use dockerfile_rs::Cmd;
use dockerfile_rs::Comment;
use dockerfile_rs::EntryPoint;
use dockerfile_rs::Env;
use dockerfile_rs::Expose;
use dockerfile_rs::From;
use dockerfile_rs::HealthCheck;
use dockerfile_rs::Instruction;
use dockerfile_rs::Label;
use dockerfile_rs::Maintainer;
use dockerfile_rs::OnBuild;
use dockerfile_rs::Run;
use dockerfile_rs::Shell;
use dockerfile_rs::StopSignal;
use dockerfile_rs::TagOrDigest;
use dockerfile_rs::User;
use dockerfile_rs::Volume;
use dockerfile_rs::WorkDir;

fn strings(items: &[&str]) -> Vec<String> {
    items.iter().map(|s| s.to_string()).collect()
}

#[test]
fn macros_from() {
    let _ = From {
        image: "rust".to_string(),
        tag_or_digest: None,
        name: None,
    };
    let _ = From {
        image: "rust".to_string(),
        tag_or_digest: None,
        name: Some("crab".to_string()),
    };
    let _ = From {
        image: "rust".to_string(),
        tag_or_digest: Some(TagOrDigest::Tag("latest".to_string())),
        name: None,
    };
    let _ = From {
        image: "rust".to_string(),
        tag_or_digest: Some(TagOrDigest::Tag("latest".to_string())),
        name: Some("crab".to_string()),
    };
    let _ = From {
        image: "rust".to_string(),
        tag_or_digest: Some(TagOrDigest::Digest("digest".to_string())),
        name: None,
    };
    let _ = From {
        image: "rust".to_string(),
        tag_or_digest: Some(TagOrDigest::Digest("digest".to_string())),
        name: Some("crab".to_string()),
    };
}

#[test]
fn macros_run() {
    let _ = Run::from(strings(&["/bin/bash", "-c", "echo"]));
}

#[test]
fn macros_cmd() {
    let _ = Cmd::from(strings(&["echo", "Hello, world!"]));
}

#[test]
fn macros_label() {
    let _ = Label::from_pair("key", "value");
    let mut label = Label::from_pair("key", "value");
    label.insert("hello", "world");
}

#[test]
fn macros_maintainer() {
    let _ = Maintainer::from("Funny Rustacean");
}

#[test]
fn macros_expose() {
    let _ = Expose {
        port: 80,
        proto: Some("tcp".to_string()),
    };
    let _ = Expose::from(443);
}

#[test]
fn macros_env() {
    let _ = Env::from_pair("key", "value");
    let mut env = Env::from_pair("key", "value");
    env.insert("hello", "world");
}

#[test]
fn macros_add() {
    let _ = Add {
        src: "/var/run".to_string(),
        dst: "/home".to_string(),
        chown: Some(User {
            user: "rustacean".to_string(),
            group: Some("root".to_string()),
        }),
    };
    let _ = Add {
        src: "/var/run".to_string(),
        dst: "/home".to_string(),
        chown: Some(User {
            user: "rustacean".to_string(),
            group: None,
        }),
    };
    let _ = Add::from("/var/run", "/home");
}

#[test]
fn macros_copy() {
    let _ = dockerfile_rs::instructions::Copy {
        src: "/var/run".to_string(),
        dst: "/home".to_string(),
        from: Some("crab".to_string()),
        chown: Some(User {
            user: "rustacean".to_string(),
            group: Some("root".to_string()),
        }),
    };
    let _ = dockerfile_rs::instructions::Copy {
        src: "/var/run".to_string(),
        dst: "/home".to_string(),
        from: Some("crab".to_string()),
        chown: Some(User {
            user: "rustacean".to_string(),
            group: None,
        }),
    };
    let _ = dockerfile_rs::instructions::Copy {
        src: "/var/run".to_string(),
        dst: "/home".to_string(),
        from: None,
        chown: Some(User {
            user: "rustacean".to_string(),
            group: Some("root".to_string()),
        }),
    };
    let _ = dockerfile_rs::instructions::Copy {
        src: "/var/run".to_string(),
        dst: "/home".to_string(),
        from: None,
        chown: Some(User {
            user: "rustacean".to_string(),
            group: None,
        }),
    };
    let _ = dockerfile_rs::instructions::Copy::from("/var/run", "/home");
}

#[test]
fn entry_point() {
    let _ = EntryPoint::from(strings(&["echo", "Hello, world!"]));
}

#[test]
fn macros_volume() {
    let _ = Volume::from(strings(&["/var/run", "/home"]));
}

#[test]
fn macros_user() {
    let _ = User {
        user: "rustacean".to_string(),
        group: Some("root".to_string()),
    };
    let _ = User {
        user: "rustacean".to_string(),
        group: None,
    };
}

#[test]
fn work_dir() {
    let _ = WorkDir::from("/home/rustacean");
}

#[test]
fn macros_arg() {
    let _ = Arg::from("key", "value");
}

#[test]
fn stop_signal() {
    let _ = StopSignal::from("SIGKILL");
}

#[test]
fn health_check() {
    let _ = HealthCheck::Disabled;
    let _ = HealthCheck::Check {
        cmd: Cmd::from(strings(&["curl", "-v", "https://rust-lang.org"])),
        interval: None,
        timeout: None,
        start_period: None,
        retries: None,
    };
}

#[test]
fn macros_shell() {
    let _ = Shell::from(strings(&["/bin/bash", "-c"]));
}

#[test]
fn on_build() {
    let on_build = OnBuild::from(Instruction::Cmd(Cmd::from(strings(&[
        "echo",
        "Hello, world!",
    ]))));
    assert_eq!(
        on_build.render(),
        r#"ONBUILD CMD ["echo", "Hello, world!"]"#
    );
}

#[test]
fn macros_comment() {
    let _ = Comment::from("Hello, world!");
}
