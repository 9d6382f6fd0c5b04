use unsplash_mcp::browser::{
    clearance_action, launch_step, napi_result, AttemptResult, ClearanceAction, LaunchStep,
    anubis_timeout_message, anubis_timeout_secs, anubis_verdict, chrome_probe, clearance_step,
    default_profile_dir, fetch_script, is_singleton_lock, launch_context,
    launch_timeout_secs, napi_reply, network_flagged_message, page_probe, profile_dir, which_path,
    AnubisVerdict, Attempt, ChromeProbe, ClearanceStep, PageProbe,
};
use unsplash_mcp::json::Json;

fn s(x: &str) -> String {
    x.to_string()
}

fn obj(entries: Vec<(&str, Json)>) -> Json {
    Json::Object(entries.into_iter().map(|(k, v)| (k.to_string(), v)).collect())
}

fn probe(title: &str, challenge: bool, body: &str) -> PageProbe {
    PageProbe { title: s(title), challenge, body: s(body) }
}

#[test]
fn probe_reads_fields_with_defaults() {
    let p = page_probe(&obj(vec![
        ("title", Json::Str(s("Unsplash"))),
        ("challenge", Json::Bool(false)),
        ("body", Json::Str(s("Photos"))),
    ]));
    assert_eq!(p.title, "Unsplash");
    assert!(!p.challenge);
    assert_eq!(p.body, "Photos");
    let p = page_probe(&Json::Null);
    assert_eq!(p.title, "");
    assert!(p.challenge);
    assert_eq!(p.body, "");
}

#[test]
fn verdicts() {
    assert_eq!(anubis_verdict(&probe("x", true, "blocked by BotStopper"), false), AnubisVerdict::Denied);
    assert_eq!(anubis_verdict(&probe("Oh noes!", false, ""), false), AnubisVerdict::Denied);
    assert_eq!(anubis_verdict(&probe("Unsplash", false, ""), true), AnubisVerdict::Cleared);
    assert_eq!(
        anubis_verdict(&probe("Making sure you're NOT A BOT!", false, ""), false),
        AnubisVerdict::Pending
    );
    assert_eq!(anubis_verdict(&probe("Unsplash", true, ""), true), AnubisVerdict::TimedOut);
    assert_eq!(anubis_verdict(&probe("Unsplash", true, ""), false), AnubisVerdict::Pending);
}

#[test]
fn headless_first_then_headed_on_denial() {
    assert_eq!(clearance_step(false, Attempt::Cleared), ClearanceStep::UsePage);
    assert_eq!(clearance_step(false, Attempt::Denied), ClearanceStep::RetryHeaded);
    assert_eq!(clearance_step(false, Attempt::Failed), ClearanceStep::Fail);
    assert_eq!(clearance_step(true, Attempt::Cleared), ClearanceStep::UsePage);
    assert_eq!(clearance_step(true, Attempt::Denied), ClearanceStep::FailFlagged);
    assert_eq!(clearance_step(true, Attempt::Failed), ClearanceStep::FailAfterFallback);
    assert!(network_flagged_message().starts_with("Unsplash denied both headless and headed browsers (BotStopper). This network"));
}

#[test]
fn timeout_message() {
    assert_eq!(
        anubis_timeout_message(45, "{\"title\":\"x\"}"),
        "Unsplash bot-check (Anubis) did not clear within 45s ({\"title\":\"x\"})"
    );
}

#[test]
fn fetch_script_escapes_the_path() {
    let js = fetch_script("/napi/a'b\\c");
    assert!(js.contains("fetch('/napi/a\\'b\\\\c', { headers"));
    assert!(js.starts_with("(async () => {"));
    assert!(js.ends_with("})()"));
}

#[test]
fn napi_replies() {
    let ok = obj(vec![("status", Json::Number(s("200"))), ("text", Json::Str(s("[1]")))]);
    assert_eq!(napi_reply("/napi/x", &ok), Ok(s("[1]")));
    let denied = obj(vec![("status", Json::Number(s("403"))), ("text", Json::Str(s("no")))]);
    assert_eq!(
        napi_reply("/napi/x", &denied),
        Err(s("Unsplash rejected the request (HTTP 403). Anubis clearance may have expired; retry."))
    );
    let long = "e".repeat(400);
    let failed = obj(vec![("status", Json::Number(s("500"))), ("text", Json::Str(long))]);
    assert_eq!(
        napi_reply("/napi/x", &failed),
        Err(format!("Unsplash napi /napi/x returned HTTP 500: {}", "e".repeat(300)))
    );
    assert_eq!(
        napi_reply("/napi/x", &Json::Null),
        Err(s("Unsplash napi /napi/x returned HTTP 0: "))
    );
}

#[test]
fn singleton_lock_detection() {
    assert!(is_singleton_lock("Failed: SingletonLock exists"));
    assert!(is_singleton_lock("ProcessSingleton: profile in use"));
    assert!(!is_singleton_lock("timeout"));
    let e = anyhow::Error::msg("Failed to create SingletonLock").context("launching headless Chrome");
    assert!(is_singleton_lock(&format!("{e:#}")));
    assert!(!is_singleton_lock(&format!("{:#}", anyhow::Error::msg("other"))));
}

#[test]
fn launch_contexts() {
    assert_eq!(launch_context(false, false), "launching headless Chrome");
    assert_eq!(launch_context(true, true), "launching headed Chrome (after stale-lock cleanup)");
}

#[test]
fn profile_directories() {
    assert_eq!(default_profile_dir(Some("/home/u")), Some(s("/home/u/.cache/unsplash-mcp/chrome-profile")));
    assert_eq!(default_profile_dir(Some("/home/u/")), Some(s("/home/u/.cache/unsplash-mcp/chrome-profile")));
    assert_eq!(default_profile_dir(Some("  ")), None);
    assert_eq!(default_profile_dir(None), None);
    assert_eq!(profile_dir(Some("/p"), Some("/home/u"), true), Some(s("/p/headed")));
    assert_eq!(profile_dir(Some(" "), Some("/home/u"), false), Some(s("/home/u/.cache/unsplash-mcp/chrome-profile/headless")));
    assert_eq!(profile_dir(None, None, false), None);
}

#[test]
fn time_budgets() {
    assert_eq!(launch_timeout_secs(None), 60);
    assert_eq!(anubis_timeout_secs(None), 45);
    assert_eq!(anubis_timeout_secs(Some("90")), 90);
    assert_eq!(anubis_timeout_secs(Some("ninety")), 45);
    assert_eq!(launch_timeout_secs(Some(" 5")), 60);
}

#[test]
fn chrome_probe_order() {
    assert!(matches!(chrome_probe(0), Some(ChromeProbe::EnvOverride)));
    match chrome_probe(3) {
        Some(ChromeProbe::KnownPath(p)) => assert_eq!(p, "/usr/bin/google-chrome"),
        _ => panic!("expected a known path"),
    }
    match chrome_probe(9) {
        Some(ChromeProbe::PathLookup(n)) => assert_eq!(n, "chrome"),
        _ => panic!("expected a PATH lookup"),
    }
    assert!(chrome_probe(10).is_none());
    assert_eq!(which_path(true, "/usr/bin/chromium\n"), Some(s("/usr/bin/chromium")));
    assert_eq!(which_path(true, " \n"), None);
    assert_eq!(which_path(false, "/usr/bin/chromium"), None);
}

#[test]
fn napi_results_parse_the_body() {
    let ok = obj(vec![("status", Json::Number(s("200"))), ("text", Json::Str(s("[1, {\"a\": true}]")))]);
    match napi_result("/napi/x", &ok) {
        Ok(Json::Array(items)) => {
            assert_eq!(items.len(), 2);
            assert!(matches!(&items[0], Json::Number(t) if t == "1"));
            assert!(matches!(&items[1], Json::Object(es) if es.len() == 1));
        }
        _ => panic!("expected the parsed list"),
    }
    let bad = obj(vec![("status", Json::Number(s("200"))), ("text", Json::Str(s("not json")))]);
    match napi_result("/napi/x", &bad) {
        Err(m) => assert!(m.starts_with("parsing napi JSON: expected ident"), "{m}"),
        Ok(_) => panic!("expected a parse error"),
    }
    let denied = obj(vec![("status", Json::Number(s("401")))]);
    assert_eq!(
        napi_result("/napi/x", &denied).err(),
        Some(s("Unsplash rejected the request (HTTP 401). Anubis clearance may have expired; retry."))
    );
}

#[test]
fn launch_steps() {
    match launch_step(false, "launch: SingletonLock held") {
        LaunchStep::ReapAndRetry { retry_context } => {
            assert_eq!(retry_context, "launching headless Chrome (after stale-lock cleanup)")
        }
        LaunchStep::Fail { .. } => panic!("a lock failure is retried"),
    }
    match launch_step(true, "no such file") {
        LaunchStep::Fail { context } => assert_eq!(context, "launching headed Chrome"),
        LaunchStep::ReapAndRetry { .. } => panic!("other failures are reported"),
    }
}

#[test]
fn clearance_actions_carry_page_and_error() {
    assert!(matches!(clearance_action::<u8, &str>(false, AttemptResult::Cleared(7)), ClearanceAction::UsePage(7)));
    assert!(matches!(clearance_action::<u8, &str>(false, AttemptResult::Denied), ClearanceAction::RetryHeaded));
    assert!(matches!(clearance_action::<u8, &str>(true, AttemptResult::Denied), ClearanceAction::FailFlagged));
    assert!(matches!(clearance_action::<u8, &str>(false, AttemptResult::Failed("x")), ClearanceAction::Fail("x")));
    assert!(matches!(clearance_action::<u8, &str>(true, AttemptResult::Failed("y")), ClearanceAction::FailAfterFallback("y")));
}
