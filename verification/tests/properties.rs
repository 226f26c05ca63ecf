//! Behavioral checks for the guarantees the library states: deterministic
//! rendering, element counts and order in lists, key uniqueness and newline
//! escaping in mappings, singleton-slot overwriting, section adjacency, and
//! the formatting edge cases.

use dockerfile_rs::Arg;
use dockerfile_rs::Cmd;
use dockerfile_rs::DockerFile;
use dockerfile_rs::EntryPoint;
use dockerfile_rs::Env;
use dockerfile_rs::Expose;
use dockerfile_rs::From;
use dockerfile_rs::HealthCheck;
use dockerfile_rs::Label;
use dockerfile_rs::Maintainer;
use dockerfile_rs::Run;
use dockerfile_rs::Volume;

fn strings(items: &[&str]) -> Vec<String> {
    items.iter().map(|s| s.to_string()).collect()
}

#[test]
fn render_twice_is_identical() {
    let doc = DockerFile::from(From {
        image: "alpine".to_string(),
        tag_or_digest: None,
        name: None,
    })
    .expose(Expose::from(8080))
    .env(Env::from_pair("MODE", "fast"))
    .cmd(Cmd::from(strings(&["sh"])));
    assert_eq!(doc.render(), doc.render());
}

#[test]
fn list_keeps_count_and_order() {
    let run = Run::from(strings(&["first", "second", "third"]));
    let text = run.render();
    assert_eq!(text, r#"RUN ["first", "second", "third"]"#);
    assert_eq!(text.chars().filter(|c| *c == '"').count(), 6);
    let a = text.find("first").unwrap();
    let b = text.find("second").unwrap();
    let c = text.find("third").unwrap();
    assert!(a < b && b < c);
}

#[test]
fn empty_list_renders_bare_brackets() {
    let run = Run::from(Vec::new());
    assert_eq!(run.render(), "RUN []");
}

#[test]
fn volume_keeps_every_path() {
    let volume = Volume::from(strings(&["/a", "/b", "/c", "/d"]));
    assert_eq!(volume.render(), r#"VOLUME ["/a", "/b", "/c", "/d"]"#);
}

#[test]
fn map_keys_appear_exactly_once() {
    let mut env = Env::from_pair("ONE", "1");
    env.insert("TWO", "2");
    env.insert("THREE", "3");
    let text = env.render();
    assert_eq!(text, r#"ENV ONE="1" TWO="2" THREE="3""#);
    assert_eq!(text.matches("ONE=").count(), 1);
    assert_eq!(text.matches("TWO=").count(), 1);
    assert_eq!(text.matches("THREE=").count(), 1);
}

#[test]
fn map_insert_overwrites_in_place() {
    let mut env = Env::from_pair("KEY", "old");
    env.insert("OTHER", "kept");
    env.insert("KEY", "new");
    assert_eq!(env.render(), r#"ENV KEY="new" OTHER="kept""#);
}

#[test]
fn label_newline_value_is_escaped() {
    let label = Label::from_pair("note", "line one\nline two");
    let text = label.render();
    assert_eq!(text, "LABEL note=\"line one\\\nline two\"");
    for (i, c) in text.char_indices() {
        if c == '\n' {
            assert_eq!(&text[i - 1..i], "\\");
        }
    }
}

#[test]
fn env_newline_value_is_escaped() {
    let env = Env::from_pair("note", "a\nb");
    assert_eq!(env.render(), "ENV note=\"a\\\nb\"");
}

#[test]
fn entry_point_and_cmd_are_adjacent() {
    let doc = DockerFile::from(From {
        image: "alpine".to_string(),
        tag_or_digest: None,
        name: None,
    })
    .entry_point(EntryPoint::from(strings(&["a", "b"])))
    .cmd(Cmd::from(strings(&["c"])));
    let text = doc.render();
    assert!(text.contains("ENTRYPOINT [\"a\", \"b\"]\nCMD [\"c\"]\n"));
    assert_eq!(
        text,
        "FROM alpine\n\nENTRYPOINT [\"a\", \"b\"]\nCMD [\"c\"]\n"
    );
}

#[test]
fn health_check_retries_only() {
    let check = HealthCheck::Check {
        cmd: Cmd::from(strings(&["probe"])),
        interval: None,
        timeout: None,
        start_period: None,
        retries: Some(3),
    };
    assert_eq!(check.render(), r#"HEALTHCHECK --retries=3 CMD ["probe"]"#);
}

#[test]
fn health_check_negative_numbers() {
    let check = HealthCheck::Check {
        cmd: Cmd::from(strings(&["probe"])),
        interval: Some(-5),
        timeout: Some(i32::MIN),
        start_period: None,
        retries: None,
    };
    assert_eq!(
        check.render(),
        r#"HEALTHCHECK --interval=-5 --timeout=-2147483648 CMD ["probe"]"#
    );
}

#[test]
fn maintainer_set_twice_keeps_second() {
    let text = DockerFile::from(From {
        image: "alpine".to_string(),
        tag_or_digest: None,
        name: None,
    })
    .maintainer(Maintainer::from("first author"))
    .maintainer(Maintainer::from("second author"))
    .render();
    assert!(text.contains("MAINTAINER second author"));
    assert!(!text.contains("first author"));
}

#[test]
fn expose_port_bounds() {
    assert_eq!(Expose::from(0).render(), "EXPOSE 0");
    assert_eq!(Expose::from(65535).render(), "EXPOSE 65535");
    assert_eq!(Expose::from(12345).render(), "EXPOSE 12345");
}

#[test]
fn arg_without_value() {
    let arg = Arg {
        name: "FLAG".to_string(),
        value: None,
    };
    assert_eq!(arg.render(), "ARG FLAG");
}

#[test]
fn maintainer_does_not_match_other_label() {
    let maintainer = Maintainer::from("someone");
    assert!(!maintainer.matches_label(&Label::from_pair("author", "someone")));
    assert!(!maintainer.matches_label(&Label::from_pair("maintainer", "someone else")));
    assert!(maintainer.matches_label(&Label::from_pair("maintainer", "someone")));
}

#[test]
fn document_sections_blank_line_rules() {
    // no body, no maintainer: no blank line appears at all
    let text = DockerFile::from(From {
        image: "alpine".to_string(),
        tag_or_digest: None,
        name: None,
    })
    .render();
    assert_eq!(text, "FROM alpine\n");

    // a body section is separated from the base image by one blank line
    let text = DockerFile::from(From {
        image: "alpine".to_string(),
        tag_or_digest: None,
        name: None,
    })
    .expose(Expose::from(80))
    .render();
    assert_eq!(text, "FROM alpine\n\nEXPOSE 80\n");
}
