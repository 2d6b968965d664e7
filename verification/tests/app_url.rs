use fluxer_desktop_dev::app_url::app_url;
use fluxer_desktop_dev::app_url::base_url_is_reachable;
use fluxer_desktop_dev::app_url::is_local;
use fluxer_desktop_dev::app_url::is_local_app_url;
use fluxer_desktop_dev::app_url::normalize_desktop_app_url;
use fluxer_desktop_dev::app_url::probe_target;
use fluxer_desktop_dev::app_url::public_app_url_is_reachable;
use fluxer_desktop_dev::app_url::resolve_desktop_canary_app_url;
use fluxer_desktop_dev::app_url::UrlParts;
use fluxer_desktop_dev::app_url::HEALTH_TIMEOUT_SECS;
use fluxer_desktop_dev::app_url::LOCAL_APP_URL;
use fluxer_desktop_dev::app_url::LOOPBACK_APP_URL;
use fluxer_desktop_dev::error::DesktopError;
use fluxer_desktop_dev::replay::Effect;
use fluxer_desktop_dev::replay::Progress;
use fluxer_desktop_dev::replay::Reply;

fn drive<T: std::fmt::Debug + PartialEq>(
    workflow: impl Fn(&[Reply]) -> Progress<T>,
    script: Vec<(Effect, Reply)>,
) -> Progress<T> {
    let mut log: Vec<Reply> = Vec::new();
    for (effect, reply) in script {
        assert_eq!(workflow(&log), Progress::Pending(effect));
        log.push(reply);
    }
    workflow(&log)
}

fn variable(name: &str, value: Option<&str>) -> (Effect, Reply) {
    (
        Effect::ReadVariable(name.to_owned()),
        Reply::Text(value.map(str::to_owned)),
    )
}

fn tunnel(url: Option<&str>) -> (Effect, Reply) {
    (Effect::FindTunnelUrl, Reply::Text(url.map(str::to_owned)))
}

fn fetch(url: &str, status: Option<u16>) -> (Effect, Reply) {
    (
        Effect::Fetch { url: url.to_owned(), timeout_secs: 3 },
        Reply::Status(status),
    )
}

const CANARY: &str = "FLUXER_DESKTOP_CANARY_APP_URL";
const DESKTOP: &str = "FLUXER_DESKTOP_APP_URL";
const PUBLIC: &str = "FLUXER_PUBLIC_URL";

fn ready(url: &str, next: usize) -> Progress<String> {
    Progress::Ready { value: url.to_owned(), next }
}

fn resolve(script: Vec<(Effect, Reply)>) -> Progress<String> {
    drive(|log| resolve_desktop_canary_app_url(None, log, 0), script)
}

fn parts(scheme: &str, href: &str) -> Result<UrlParts, String> {
    Ok(UrlParts { scheme: scheme.to_owned(), href: href.to_owned() })
}

#[test]
fn urls_are_brought_into_normal_form() {
    let cases = [
        ("  HTTP://LocalHost:8088/ \n", "http://localhost:8088"),
        ("https://Dev.Example.TEST:443/a/../b//", "https://dev.example.test/b"),
        ("http://127.1:8088", "http://127.0.0.1:8088"),
        ("http://h/a b", "http://h/a%20b"),
        ("http:h", "http://h"),
        ("https://h?q=/", "https://h/?q="),
        ("https://h///", "https://h"),
        ("https://user@h:8443/#/", "https://user@h:8443/#"),
    ];
    for (raw, want) in cases {
        assert_eq!(normalize_desktop_app_url(raw), Ok(want.to_owned()));
    }
}

fn stays(url: &str) {
    for slashes in ["", "/", "//", "/////////"] {
        assert_eq!(
            normalize_desktop_app_url(&format!("{url}{slashes}")),
            Ok(url.to_owned())
        );
    }
}

#[test]
fn normal_forms_stay_as_they_are_with_any_slashes_behind_them() {
    for url in [
        "http://localhost:8088",
        "http://127.0.0.1:8088",
        "https://dev.example.test",
        "https://dev.example.test/b",
        "https://dev.example.test/a//b",
        "http://h/C:",
        "http://h/a%20b/...",
        "https://h/?q=",
        "https://h/?",
        "https://h/?a=/b?c",
        "https://user@h:8443/#",
        "https://user:p%40ss@h/x?y#z",
        "https://:pw@h",
        "http://[::1]:8088",
        "http://[2001:db8::1:0:0:2]/x",
        "http://xn--bcher-kva.example",
    ] {
        stays(url);
    }
}

#[test]
fn every_character_leads_to_a_normal_form_or_is_refused() {
    for code in 0..0x3100u32 {
        if let Some(c) = char::from_u32(code) {
            for raw in [
                format!("http://a{c}b"),
                format!("http://h/{c}?{c}#{c}"),
                format!("http://{c}:{c}@h/"),
            ] {
                if let Ok(url) = normalize_desktop_app_url(&raw) {
                    assert!(url.chars().all(|c| ('!'..='~').contains(&c)));
                    stays(&url);
                }
            }
        }
    }
}

#[test]
fn names_in_other_scripts_become_punycode() {
    assert_eq!(
        normalize_desktop_app_url("http://B\u{fc}cher.example/"),
        Ok("http://xn--bcher-kva.example".to_owned())
    );
}

#[test]
fn punycode_can_get_too_long_to_be_read_again() {
    let label: String = (0..1000u32)
        .filter_map(|i| char::from_u32(0x4e00 + (i * 7919 % 1000) * 20))
        .collect();
    let url = normalize_desktop_app_url(&format!("http://{label}")).unwrap();
    assert!(url.starts_with("http://xn--"));
    assert!(url.len() > "http://xn--".len() + 2000);
    assert_eq!(
        normalize_desktop_app_url(&url),
        Err(DesktopError::InvalidAppUrl {
            raw: url,
            cause: "invalid international domain name".to_owned(),
        })
    );
}

#[test]
fn a_plain_host_with_a_port_is_a_normal_form() {
    for raw in ["http://localhost:8088", "https://app:1", "http://h:65535", "http://h:443"] {
        assert_eq!(normalize_desktop_app_url(raw), Ok(raw.to_owned()));
    }
    assert_eq!(normalize_desktop_app_url("http://h:80"), Ok("http://h".to_owned()));
    assert_eq!(normalize_desktop_app_url("https://h:443"), Ok("https://h".to_owned()));
}

#[test]
fn a_url_that_is_settled_on_is_a_normal_form() {
    let found = [
        resolve_desktop_canary_app_url(Some(" HTTPS://Dev.Example.test:443//a/./b// "), &[], 0),
        resolve(vec![
            variable(CANARY, Some("http://H/x/")),
            fetch("http://h/x/gateway/_health", Some(200)),
        ]),
        resolve(vec![
            variable(CANARY, None),
            variable(DESKTOP, None),
            variable(PUBLIC, None),
            tunnel(None),
        ]),
    ];
    for progress in found {
        match progress {
            Progress::Ready { value, .. } => stays(&value),
            other => panic!("{other:?}"),
        }
    }
}

#[test]
fn text_that_is_no_url_is_refused_with_the_reason() {
    assert_eq!(
        normalize_desktop_app_url(" dev.example.test "),
        Err(DesktopError::InvalidAppUrl {
            raw: " dev.example.test ".to_owned(),
            cause: "relative URL without a base".to_owned(),
        })
    );
    assert_eq!(
        normalize_desktop_app_url("http://"),
        Err(DesktopError::InvalidAppUrl {
            raw: "http://".to_owned(),
            cause: "empty host".to_owned(),
        })
    );
    assert_eq!(
        normalize_desktop_app_url("http://h:70000"),
        Err(DesktopError::InvalidAppUrl {
            raw: "http://h:70000".to_owned(),
            cause: "invalid port number".to_owned(),
        })
    );
}

#[test]
fn other_schemes_are_refused_by_name() {
    for (raw, scheme) in [
        ("WSS://dev.example.test", "wss"),
        ("file:///etc/hosts", "file"),
        ("localhost:8088", "localhost"),
        ("httpss://h", "httpss"),
    ] {
        assert_eq!(
            normalize_desktop_app_url(raw),
            Err(DesktopError::UnsupportedScheme { scheme: scheme.to_owned() })
        );
    }
}

#[test]
fn a_parsed_url_is_judged_by_its_scheme() {
    assert_eq!(app_url("r", parts("http", "http://h//")), Ok("http://h".to_owned()));
    assert_eq!(app_url("r", parts("https", "https://h/a")), Ok("https://h/a".to_owned()));
    assert_eq!(
        app_url("r", parts("ftp", "ftp://h/")),
        Err(DesktopError::UnsupportedScheme { scheme: "ftp".to_owned() })
    );
    assert_eq!(
        app_url(" r", Err("bad".to_owned())),
        Err(DesktopError::InvalidAppUrl { raw: " r".to_owned(), cause: "bad".to_owned() })
    );
}

#[test]
fn the_local_stack_has_two_urls() {
    assert_eq!(LOOPBACK_APP_URL, "http://127.0.0.1:8088");
    for raw in [
        "http://localhost:8088",
        " http://LOCALHOST:8088// ",
        "http://127.0.0.1:8088/",
        "http://127.1:8088",
    ] {
        assert!(is_local_app_url(raw));
    }
    for raw in [
        "https://localhost:8088",
        "http://localhost",
        "http://localhost:8088/app",
        "http://127.0.0.2:8088",
        "localhost:8088",
        "",
    ] {
        assert!(!is_local_app_url(raw));
    }
    assert!(is_local(&Ok(LOCAL_APP_URL.to_owned())));
    assert!(is_local(&Ok(LOOPBACK_APP_URL.to_owned())));
    assert!(!is_local(&Ok("http://localhost:8088/".to_owned())));
    assert!(!is_local(&Err(DesktopError::HostNotMacos)));
}

#[test]
fn only_a_public_app_url_has_to_answer() {
    let base = || Ok("https://h".to_owned());
    assert_eq!(probe_target("https://h/", base()), Some("https://h".to_owned()));
    assert_eq!(probe_target("", base()), None);
    assert_eq!(probe_target("x", Ok(LOCAL_APP_URL.to_owned())), None);
    assert_eq!(probe_target("x", Ok(LOOPBACK_APP_URL.to_owned())), None);
    assert_eq!(probe_target("x", Err(DesktopError::HostNotMacos)), None);
}

#[test]
fn only_a_success_status_counts_as_an_answer() {
    assert_eq!(HEALTH_TIMEOUT_SECS, 3);
    for (status, value) in [
        (Some(200), true),
        (Some(204), true),
        (Some(299), true),
        (Some(199), false),
        (Some(300), false),
        (Some(404), false),
        (Some(503), false),
        (None, false),
    ] {
        let script = vec![fetch("https://h/gateway/_health", status)];
        assert_eq!(
            drive(|log| base_url_is_reachable("https://h", log, 0), script),
            Progress::Ready { value, next: 1 }
        );
    }
}

#[test]
fn reachability_is_asked_of_the_normal_form() {
    assert_eq!(
        drive(
            |log| public_app_url_is_reachable(" https://H/app// ", log, 0),
            vec![fetch("https://h/app/gateway/_health", Some(200))],
        ),
        Progress::Ready { value: true, next: 1 }
    );
    assert_eq!(
        public_app_url_is_reachable("ftp://h", &[], 0),
        Progress::Ready { value: false, next: 0 }
    );
    assert_eq!(
        public_app_url_is_reachable("https://h", &[Reply::Done], 0),
        Progress::Failed(DesktopError::UnexpectedReply { at: 0 })
    );
}

#[test]
fn a_given_url_is_taken_without_a_question() {
    assert_eq!(
        resolve_desktop_canary_app_url(Some(" https://Dev.example.test/ "), &[], 0),
        ready("https://dev.example.test", 0)
    );
    assert_eq!(
        resolve_desktop_canary_app_url(Some("http://localhost:8088"), &[Reply::Done], 1),
        ready(LOCAL_APP_URL, 1)
    );
}

#[test]
fn a_given_url_is_refused_without_a_question() {
    assert_eq!(
        resolve_desktop_canary_app_url(Some("wss://dev.example.test"), &[], 0),
        Progress::Failed(DesktopError::UnsupportedScheme { scheme: "wss".to_owned() })
    );
}

#[test]
fn the_first_variable_whose_app_answers_is_taken() {
    assert_eq!(
        resolve(vec![
            variable(CANARY, Some(" https://One.test/ ")),
            fetch("https://one.test/gateway/_health", Some(200)),
        ]),
        ready("https://one.test", 2)
    );
    assert_eq!(
        resolve(vec![
            variable(CANARY, Some("https://one.test")),
            fetch("https://one.test/gateway/_health", Some(502)),
            variable(DESKTOP, Some("https://two.test")),
            fetch("https://two.test/gateway/_health", None),
            variable(PUBLIC, Some("https://three.test/app/")),
            fetch("https://three.test/app/gateway/_health", Some(204)),
        ]),
        ready("https://three.test/app", 6)
    );
}

#[test]
fn useless_variables_are_passed_over_without_a_fetch() {
    for value in [None, Some(""), Some(" \t"), Some("no url"), Some("wss://h"), Some("http://127.0.0.1:8088/")] {
        assert_eq!(
            resolve(vec![
                variable(CANARY, value),
                variable(DESKTOP, Some("https://two.test")),
                fetch("https://two.test/gateway/_health", Some(200)),
            ]),
            ready("https://two.test", 3)
        );
    }
}

#[test]
fn the_tunnel_comes_after_the_variables() {
    assert_eq!(
        resolve(vec![
            variable(CANARY, None),
            variable(DESKTOP, None),
            variable(PUBLIC, None),
            tunnel(Some("https://Tunnel.test/")),
            fetch("https://tunnel.test/gateway/_health", Some(200)),
        ]),
        ready("https://tunnel.test", 5)
    );
}

#[test]
fn the_local_app_is_the_last_resort() {
    assert_eq!(
        resolve(vec![
            variable(CANARY, None),
            variable(DESKTOP, None),
            variable(PUBLIC, None),
            tunnel(None),
        ]),
        ready(LOCAL_APP_URL, 4)
    );
    assert_eq!(
        resolve(vec![
            variable(CANARY, None),
            variable(DESKTOP, None),
            variable(PUBLIC, None),
            tunnel(Some("not a url")),
        ]),
        ready(LOCAL_APP_URL, 4)
    );
    assert_eq!(
        resolve(vec![
            variable(CANARY, Some("https://one.test")),
            fetch("https://one.test/gateway/_health", None),
            variable(DESKTOP, Some("https://two.test")),
            fetch("https://two.test/gateway/_health", None),
            variable(PUBLIC, Some("https://three.test")),
            fetch("https://three.test/gateway/_health", None),
            tunnel(Some("https://tunnel.test")),
            fetch("https://tunnel.test/gateway/_health", Some(530)),
        ]),
        ready(LOCAL_APP_URL, 8)
    );
}

#[test]
fn a_tunnel_to_the_local_app_still_has_to_answer() {
    let script = |status| {
        vec![
            variable(CANARY, None),
            variable(DESKTOP, None),
            variable(PUBLIC, None),
            tunnel(Some("http://127.0.0.1:8088")),
            fetch("http://127.0.0.1:8088/gateway/_health", status),
        ]
    };
    assert_eq!(resolve(script(Some(200))), ready(LOOPBACK_APP_URL, 5));
    assert_eq!(resolve(script(None)), ready(LOCAL_APP_URL, 5));
}

#[test]
fn the_search_fails_only_on_a_reply_that_does_not_fit() {
    let unexpected = |at| Progress::Failed(DesktopError::UnexpectedReply { at });
    assert_eq!(resolve_desktop_canary_app_url(None, &[Reply::Done], 0), unexpected(0));
    assert_eq!(
        resolve_desktop_canary_app_url(None, &[Reply::Text(None), Reply::Answer(true)], 0),
        unexpected(1)
    );
    assert_eq!(
        resolve_desktop_canary_app_url(
            None,
            &[Reply::Text(Some("https://one.test".to_owned())), Reply::Text(None)],
            0
        ),
        unexpected(1)
    );
    assert_eq!(
        resolve_desktop_canary_app_url(
            None,
            &[Reply::Text(None), Reply::Text(None), Reply::Text(None), Reply::Status(None)],
            0
        ),
        unexpected(3)
    );
}

#[test]
fn later_replies_do_not_change_a_url_that_is_settled_on() {
    let log = [
        Reply::Text(Some("https://one.test".to_owned())),
        Reply::Status(Some(200)),
        Reply::Text(None),
        Reply::Done,
    ];
    assert_eq!(
        resolve_desktop_canary_app_url(None, &log[..2], 0),
        resolve_desktop_canary_app_url(None, &log, 0)
    );
}
