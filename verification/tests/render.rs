use dockerfile_rs::Add;
use dockerfile_rs::Arg;
use dockerfile_rs::Cmd;
use dockerfile_rs::Comment;
use dockerfile_rs::DockerFile;
use dockerfile_rs::EntryPoint;
use dockerfile_rs::Env;
use dockerfile_rs::Expose;
use dockerfile_rs::From;
use dockerfile_rs::HealthCheck;
use dockerfile_rs::Instruction;
use dockerfile_rs::Label;
use dockerfile_rs::Maintainer;
use dockerfile_rs::OnBuild;
use dockerfile_rs::Run;
use dockerfile_rs::Shell;
use dockerfile_rs::StopSignal;
use dockerfile_rs::TagOrDigest;
use dockerfile_rs::User;
use dockerfile_rs::Volume;
use dockerfile_rs::WorkDir;

fn strings(items: &[&str]) -> Vec<String> {
    items.iter().map(|s| s.to_string()).collect()
}

#[test]
fn builder() {
    let content = DockerFile::from(From {
        image: String::from("rust"),
        tag_or_digest: Some(TagOrDigest::Tag("latest".to_string())),
        name: None,
    })
    .maintainer(Maintainer::from("lead rustacean"))
    .comment(Comment::from("Hello, world!"))
    .run(Run::from(strings(&["/bin/bash", "-c", "echo"])))
    .label(Label::from_pair("key", "value"))
    .expose(Expose::from(80))
    .env(Env::from_pair("RUST", "1.0.0"))
    .add(Add::from("/var/run", "/home"))
    .copy(dockerfile_rs::instructions::Copy::from("/var/run", "/home"))
    .volume(Volume::from(strings(&["/var/run", "/var/www"])))
    .user(User {
        user: "rustacean".to_string(),
        group: None,
    })
    .work_dir(WorkDir::from("/home/rustacean"))
    .arg(Arg::from("build", "yes"))
    .stop_signal(StopSignal::from("SIGKILL"))
    .health_check(HealthCheck::Disabled)
    .shell(Shell::from(strings(&["/bin/bash", "-c"])))
    .on_build(OnBuild::from(Instruction::Cmd(Cmd::from(strings(&[
        "echo",
        "This is the ONBUILD command",
    ])))))
    .entry_point(EntryPoint::from(strings(&["cargo", "check"])))
    .cmd(Cmd::from(strings(&["echo", "Hi!"])))
    .render();
    assert_eq!(
        content,
        r#"FROM rust:latest

MAINTAINER lead rustacean

# Hello, world!
RUN ["/bin/bash", "-c", "echo"]
LABEL key="value"
EXPOSE 80
ENV RUST="1.0.0"
ADD "/var/run" "/home"
COPY "/var/run" "/home"
VOLUME ["/var/run", "/var/www"]
USER rustacean
WORKDIR "/home/rustacean"
ARG build="yes"
STOPSIGNAL SIGKILL
HEALTHCHECK NONE
SHELL ["/bin/bash", "-c"]

ONBUILD CMD ["echo", "This is the ONBUILD command"]

ENTRYPOINT ["cargo", "check"]
CMD ["echo", "Hi!"]
"#
    );
}

#[test]
fn lib_from() {
    let image = String::from("rust");
    let tag = Some(TagOrDigest::Tag("latest".into()));
    let digest = Some(TagOrDigest::Digest("digest".into()));
    let name = Some(String::from("crab"));

    // tag and no name
    let from = From {
        image: image.clone(),
        tag_or_digest: tag.clone(),
        name: None,
    };
    assert_eq!(from.render(), "FROM rust:latest");

    // tag and name
    let from = From {
        image: image.clone(),
        tag_or_digest: tag.clone(),
        name: name.clone(),
    };
    assert_eq!(from.render(), "FROM rust:latest AS crab");

    // digest and no name
    let from = From {
        image: image.clone(),
        tag_or_digest: digest.clone(),
        name: None,
    };
    assert_eq!(from.render(), "FROM rust@digest");

    // digest and name
    let from = From {
        image: image.clone(),
        tag_or_digest: digest.clone(),
        name: name.clone(),
    };
    assert_eq!(from.render(), "FROM rust@digest AS crab");

    // no tag or digest and no name
    let from = From {
        image: image.clone(),
        tag_or_digest: None,
        name: None,
    };
    assert_eq!(from.render(), "FROM rust");

    // no tag or digest and name
    let from = From {
        image: image.clone(),
        tag_or_digest: None,
        name: name.clone(),
    };
    assert_eq!(from.render(), "FROM rust AS crab");
}

#[test]
fn lib_run() {
    let curl = strings(&["curl", "-v", "https://rust-lang.org"]);
    let run = Run::from(curl);
    assert_eq!(run.params, ["curl", "-v", "https://rust-lang.org"]);
    assert_eq!(run.render(), r#"RUN ["curl", "-v", "https://rust-lang.org"]"#)
}

#[test]
fn lib_cmd() {
    let curl = strings(&["curl", "-v", "https://rust-lang.org"]);
    let cmd = Cmd::from(curl);
    assert_eq!(cmd.params, ["curl", "-v", "https://rust-lang.org"]);
    assert_eq!(cmd.render(), r#"CMD ["curl", "-v", "https://rust-lang.org"]"#)
}

#[test]
fn lib_label() {
    let label = Label::from_pair("key", "value");
    assert_eq!(label.render(), r#"LABEL key="value""#);

    let label = Label::from_pair("key", "1\n2\n3");
    assert_eq!(
        label.render(),
        r#"LABEL key="1\
2\
3""#
    );

    let mut label = Label::from_pair("key", "value");
    label.insert("hello", "world");
    let label = label.render();
    assert!(
        label
            == r#"LABEL hello="world" \
      key="value""#
            || label
                == r#"LABEL key="value" \
      hello="world""#
    );
}

#[test]
fn lib_maintainer() {
    let name = String::from("Someone Rustacean");
    let maintainer = Maintainer::from(&name);
    assert_eq!(maintainer.render(), "MAINTAINER Someone Rustacean");
    assert!(maintainer.matches_label(&Label::from_pair("maintainer", &name)))
}

#[test]
fn lib_expose() {
    let port = 80;
    let proto = Some(String::from("tcp"));

    // without proto
    let expose = Expose { port, proto: None };
    assert_eq!(expose.render(), "EXPOSE 80");

    // with proto
    let expose = Expose { port, proto };
    assert_eq!(expose.render(), "EXPOSE 80/tcp")
}

#[test]
fn lib_env() {
    let env = Env::from_pair("key", "value");
    assert_eq!(env.render(), r#"ENV key="value""#);
}

#[test]
fn lib_add() {
    let chown = User {
        user: "rustacean".to_string(),
        group: None,
    };
    let src = "/home/container001".to_string();
    let dst = "/".to_string();

    // with chown
    let add = Add {
        src: src.clone(),
        dst: dst.clone(),
        chown: Some(chown),
    };
    assert_eq!(
        add.render(),
        r#"ADD --chown=rustacean "/home/container001" "/""#
    );

    // without chown
    let add = Add::from(&src, &dst);
    assert_eq!(add.render(), r#"ADD "/home/container001" "/""#);
}

#[test]
fn lib_copy() {
    let from = Some("crab".to_string());
    let chown = Some(User {
        user: "rustacean".to_string(),
        group: Some("root".to_string()),
    });
    let src = "/home/container001".to_string();
    let dst = "/".to_string();

    // with from and with chown
    let copy = dockerfile_rs::instructions::Copy {
        src: src.clone(),
        dst: dst.clone(),
        from: from.clone(),
        chown: chown.clone(),
    };
    assert_eq!(
        copy.render(),
        r#"COPY --from=crab --chown=rustacean:root "/home/container001" "/""#
    );

    // with from
    let copy = dockerfile_rs::instructions::Copy {
        src: src.clone(),
        dst: dst.clone(),
        from: from.clone(),
        chown: None,
    };
    assert_eq!(copy.render(), r#"COPY --from=crab "/home/container001" "/""#);

    // with chown
    let copy = dockerfile_rs::instructions::Copy {
        src: src.clone(),
        dst: dst.clone(),
        from: None,
        chown: chown.clone(),
    };
    assert_eq!(
        copy.render(),
        r#"COPY --chown=rustacean:root "/home/container001" "/""#
    );

    // without from and without chown
    let copy = dockerfile_rs::instructions::Copy::from(&src, &dst);
    assert_eq!(copy.render(), r#"COPY "/home/container001" "/""#);
}

#[test]
fn entrypoint() {
    let curl = strings(&["curl", "-v", "https://rust-lang.org"]);
    let point = EntryPoint::from(curl);
    assert_eq!(point.params, ["curl", "-v", "https://rust-lang.org"]);
    assert_eq!(
        point.render(),
        r#"ENTRYPOINT ["curl", "-v", "https://rust-lang.org"]"#
    )
}

#[test]
fn lib_volume() {
    let paths = strings(&["/var/run"]);
    let volume = Volume::from(paths);
    assert_eq!(volume.render(), r#"VOLUME ["/var/run"]"#);
}

#[test]
fn lib_user() {
    let user = "rustacean".to_string();
    let group = Some("root".to_string());

    // with group
    let usr = User {
        user: user.clone(),
        group,
    };
    assert_eq!(usr.render(), "USER rustacean:root");

    // without group
    let usr = User { user, group: None };
    assert_eq!(usr.render(), "USER rustacean");
}

#[test]
fn workdir() {
    let path = "/var/run";
    let dir = WorkDir::from(path);
    assert_eq!(dir.render(), r#"WORKDIR "/var/run""#)
}

#[test]
fn lib_arg() {
    let name = "name".to_string();
    let value = Some("value".to_string());

    // with value
    let arg = Arg {
        name: name.clone(),
        value,
    };
    assert_eq!(arg.render(), r#"ARG name="value""#);

    // without value
    let arg = Arg { name, value: None };
    assert_eq!(arg.render(), r#"ARG name"#);
}

#[test]
fn stopsignal() {
    let signal = "SIGKILL".to_string();
    let signal = StopSignal::from(&signal);
    assert_eq!(signal.render(), "STOPSIGNAL SIGKILL");
}

#[test]
fn healthcheck() {
    // with params
    let cmd = Cmd::from(strings(&["curl", "-v", "https://rust-lang.org"]));
    let check = HealthCheck::Check {
        cmd,
        interval: Some(0),
        timeout: Some(3600),
        start_period: Some(123),
        retries: Some(2),
    };
    assert_eq!(
        check.render(),
        r#"HEALTHCHECK --interval=0 --timeout=3600 --start-period=123 --retries=2 CMD ["curl", "-v", "https://rust-lang.org"]"#
    );

    // without params
    let check = HealthCheck::Disabled;
    assert_eq!(check.render(), "HEALTHCHECK NONE");
}

#[test]
fn lib_shell() {
    let bash = strings(&["bash", "-c"]);
    let shell = Shell::from(bash);
    assert_eq!(shell.params, ["bash", "-c"]);
    assert_eq!(shell.render(), r#"SHELL ["bash", "-c"]"#)
}

#[test]
fn onbuild() {
    let cmd = Cmd::from(strings(&["curl", "-v", "https://rust-lang.org"]));
    let onbuild = OnBuild::from(Instruction::Cmd(cmd));
    assert_eq!(
        onbuild.render(),
        r#"ONBUILD CMD ["curl", "-v", "https://rust-lang.org"]"#
    );
}

#[test]
fn lib_comment() {
    let comment = "This is an example comment";
    let comment = Comment::from(comment);
    assert_eq!(comment.render(), "# This is an example comment");
}
