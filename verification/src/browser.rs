//! Decisions of the browser session that clears Unsplash's bot check: what a
//! probe of the page means, when to fall back to a headed browser, how the
//! in-page fetch is written and its reply read, and where the browser
//! profile lives.

use vstd::prelude::*;
use crate::encode::{lowercase_of, to_lowercase};
use crate::json::{field_count, field_count_exec, field_flag, field_flag_exec, field_text,
    field_text_exec, json_text_parse, parse_json_text, Json};
use crate::number::{decimal, parse_u64, parse_u64_spec, push_decimal};
use crate::text::{char_vec, concat_map, contains_seq, is_blank, push_str, replace_char,
    replace_char_chars, str_contains, str_eq, string_from_chars, trim_chars, trim_spec};

verus! {

// ---------------------------------------------------------------------------
// The bot-check probe
// ---------------------------------------------------------------------------

/// What one look at the challenge page shows.
pub struct PageProbe {
    /// The document title.
    pub title: String,
    /// Whether the Anubis challenge element is present.
    pub challenge: bool,
    /// The start of the page's visible text.
    pub body: String,
}

/// Reads a probe from the page's JSON report `{ title, challenge, body }`:
/// a missing or mistyped title or body reads as empty, a missing or
/// mistyped challenge flag as present.
pub fn page_probe(state: &Json) -> (r: PageProbe)
    ensures
        r.title@ == field_text(*state, "title"@),
        r.challenge == field_flag(*state, "challenge"@, true),
        r.body@ == field_text(*state, "body"@),
{
    PageProbe {
        title: field_text_exec(state, "title"),
        challenge: field_flag_exec(state, "challenge", true),
        body: field_text_exec(state, "body"),
    }
}

/// Where a wait for the bot check stands after one probe.
#[derive(PartialEq, Eq, Structural, Clone, Copy, Debug)]
pub enum AnubisVerdict {
    /// BotStopper's terminal "Oh noes!" page: this browser mode will never pass.
    Denied,
    /// The challenge is gone and the page is the real site.
    Cleared,
    /// The challenge is still pending and the time budget is spent.
    TimedOut,
    /// The challenge is still pending; look again shortly.
    Pending,
}

/// Whether the probe shows BotStopper's denial page.
pub open spec fn probe_denied(p: PageProbe) -> bool {
    contains_seq(p.body@, "BotStopper"@) || p.title@ == "Oh noes!"@
}

/// Whether the probe shows the challenge passed: no challenge element and
/// a title that does not read "not a bot" in any letter case.
pub open spec fn probe_cleared(p: PageProbe) -> bool {
    !p.challenge && !contains_seq(lowercase_of(p.title@), "not a bot"@)
}

/// The verdict on a probe: denial first, then clearance, then the deadline.
pub open spec fn anubis_verdict_spec(p: PageProbe, past_deadline: bool) -> AnubisVerdict {
    if probe_denied(p) {
        AnubisVerdict::Denied
    } else if probe_cleared(p) {
        AnubisVerdict::Cleared
    } else if past_deadline {
        AnubisVerdict::TimedOut
    } else {
        AnubisVerdict::Pending
    }
}

/// Judges one probe of the challenge page.
pub fn anubis_verdict(p: &PageProbe, past_deadline: bool) -> (r: AnubisVerdict)
    ensures
        r == anubis_verdict_spec(*p, past_deadline),
{
    if str_contains(p.body.as_str(), "BotStopper") || str_eq(p.title.as_str(), "Oh noes!") {
        return AnubisVerdict::Denied;
    }
    if !p.challenge {
        let lower = to_lowercase(p.title.as_str());
        if !str_contains(lower.as_str(), "not a bot") {
            return AnubisVerdict::Cleared;
        }
    }
    if past_deadline {
        AnubisVerdict::TimedOut
    } else {
        AnubisVerdict::Pending
    }
}

/// The error of a wait that ran out of time, with the page's diagnostics.
pub open spec fn anubis_timeout_message_spec(timeout_secs: u64, diag: Seq<char>) -> Seq<char> {
    "Unsplash bot-check (Anubis) did not clear within "@ + decimal(timeout_secs as nat) + "s ("@
        + diag + ")"@
}

/// Writes the error of a wait that ran out of time.
pub fn anubis_timeout_message(timeout_secs: u64, diag: &str) -> (r: String)
    ensures
        r@ == anubis_timeout_message_spec(timeout_secs, diag@),
{
    let mut out: Vec<char> = Vec::new();
    push_str(&mut out, "Unsplash bot-check (Anubis) did not clear within ");
    push_decimal(&mut out, timeout_secs);
    push_str(&mut out, "s (");
    push_str(&mut out, diag);
    push_str(&mut out, ")");
    assert(out@ =~= anubis_timeout_message_spec(timeout_secs, diag@));
    string_from_chars(out.as_slice())
}

// ---------------------------------------------------------------------------
// Headless first, headed on denial
// ---------------------------------------------------------------------------

/// How one clearance attempt in one browser mode ended.
#[derive(PartialEq, Eq, Structural, Clone, Copy, Debug)]
pub enum Attempt {
    /// The bot check cleared; the page is ready.
    Cleared,
    /// BotStopper denied this browser mode.
    Denied,
    /// Anything else went wrong (launch, tab, timeout).
    Failed,
}

/// What the session does after an attempt.
#[derive(PartialEq, Eq, Structural, Clone, Copy, Debug)]
pub enum ClearanceStep {
    /// Use the cleared page.
    UsePage,
    /// Headless was denied: try again in a server-managed headed browser.
    RetryHeaded,
    /// Report the attempt's own error.
    Fail,
    /// Both browser modes were denied: report that the network is flagged.
    FailFlagged,
    /// The headed fallback failed too: report its error in that context.
    FailAfterFallback,
}

/// The step after an attempt in the given mode: a cleared page is used in
/// either mode; a headless denial leads to a headed retry; a headed denial
/// means the egress is flagged; other failures are reported.
pub open spec fn clearance_step_spec(headed: bool, attempt: Attempt) -> ClearanceStep {
    match attempt {
        Attempt::Cleared => ClearanceStep::UsePage,
        Attempt::Denied => if headed {
            ClearanceStep::FailFlagged
        } else {
            ClearanceStep::RetryHeaded
        },
        Attempt::Failed => if headed {
            ClearanceStep::FailAfterFallback
        } else {
            ClearanceStep::Fail
        },
    }
}

/// Decides what follows an attempt to clear the bot check.
pub fn clearance_step(headed: bool, attempt: Attempt) -> (r: ClearanceStep)
    ensures
        r == clearance_step_spec(headed, attempt),
{
    match attempt {
        Attempt::Cleared => ClearanceStep::UsePage,
        Attempt::Denied => if headed {
            ClearanceStep::FailFlagged
        } else {
            ClearanceStep::RetryHeaded
        },
        Attempt::Failed => if headed {
            ClearanceStep::FailAfterFallback
        } else {
            ClearanceStep::Fail
        },
    }
}

/// How a whole clearance ends, given the headless attempt and, where it is
/// made, the headed one.
#[derive(PartialEq, Eq, Structural, Clone, Copy, Debug)]
pub enum Clearance {
    /// A page passed the check (in the mode named).
    Ready { headed: bool },
    /// Headless failed for another reason than denial.
    HeadlessFailed,
    /// Both modes were denied.
    NetworkFlagged,
    /// Headless was denied and the headed fallback failed otherwise.
    FallbackFailed,
}

/// The end of a clearance: headless first, the headed attempt only when
/// headless was denied.
pub open spec fn clearance_result(headless: Attempt, headed: Attempt) -> Clearance {
    match clearance_step_spec(false, headless) {
        ClearanceStep::UsePage => Clearance::Ready { headed: false },
        ClearanceStep::RetryHeaded => match clearance_step_spec(true, headed) {
            ClearanceStep::UsePage => Clearance::Ready { headed: true },
            ClearanceStep::FailFlagged => Clearance::NetworkFlagged,
            _ => Clearance::FallbackFailed,
        },
        _ => Clearance::HeadlessFailed,
    }
}

/// A headed browser is used only after headless was denied; the network is
/// reported flagged exactly when both modes were denied; and a clearance
/// succeeds exactly when headless clears, or headless is denied and headed
/// clears.
pub proof fn law_clearance(headless: Attempt, headed: Attempt)
    ensures
        clearance_result(headless, headed) == (Clearance::Ready { headed: true }) ==> headless
            == Attempt::Denied,
        (clearance_result(headless, headed) == Clearance::NetworkFlagged) <==> (headless
            == Attempt::Denied && headed == Attempt::Denied),
        (clearance_result(headless, headed) is Ready) <==> (headless == Attempt::Cleared || (
        headless == Attempt::Denied && headed == Attempt::Cleared)),
        headless != Attempt::Denied ==> clearance_result(headless, headed) == clearance_result(
            headless,
            Attempt::Failed,
        ),
{
}

/// How one clearance attempt ended, carrying the cleared page or the
/// failure's error.
pub enum AttemptResult<P, E> {
    Cleared(P),
    Denied,
    Failed(E),
}

/// What the session does after an attempt, carrying what it needs.
pub enum ClearanceAction<P, E> {
    /// Use the cleared page.
    UsePage(P),
    /// Headless was denied: try again in a headed browser.
    RetryHeaded,
    /// Both browser modes were denied: report that the network is flagged.
    FailFlagged,
    /// Report the headless attempt's own error.
    Fail(E),
    /// The headed fallback failed too: report its error in that context.
    FailAfterFallback(E),
}

/// The kind of an attempt's result.
pub open spec fn attempt_kind<P, E>(a: AttemptResult<P, E>) -> Attempt {
    match a {
        AttemptResult::Cleared(_) => Attempt::Cleared,
        AttemptResult::Denied => Attempt::Denied,
        AttemptResult::Failed(_) => Attempt::Failed,
    }
}

/// The action after an attempt: the step that `clearance_step_spec` names,
/// with the page or error of the attempt.
pub open spec fn clearance_action_spec<P, E>(headed: bool, a: AttemptResult<P, E>) -> ClearanceAction<P, E> {
    match a {
        AttemptResult::Cleared(p) => ClearanceAction::UsePage(p),
        AttemptResult::Denied => if headed {
            ClearanceAction::FailFlagged
        } else {
            ClearanceAction::RetryHeaded
        },
        AttemptResult::Failed(e) => if headed {
            ClearanceAction::FailAfterFallback(e)
        } else {
            ClearanceAction::Fail(e)
        },
    }
}

/// Every action follows the step that `clearance_step_spec` gives for the
/// attempt's kind.
pub proof fn law_clearance_action_follows_step<P, E>(headed: bool, a: AttemptResult<P, E>)
    ensures
        match clearance_action_spec(headed, a) {
            ClearanceAction::UsePage(_) => clearance_step_spec(headed, attempt_kind(a))
                == ClearanceStep::UsePage,
            ClearanceAction::RetryHeaded => clearance_step_spec(headed, attempt_kind(a))
                == ClearanceStep::RetryHeaded,
            ClearanceAction::FailFlagged => clearance_step_spec(headed, attempt_kind(a))
                == ClearanceStep::FailFlagged,
            ClearanceAction::Fail(_) => clearance_step_spec(headed, attempt_kind(a))
                == ClearanceStep::Fail,
            ClearanceAction::FailAfterFallback(_) => clearance_step_spec(headed, attempt_kind(a))
                == ClearanceStep::FailAfterFallback,
        },
{
}

/// Decides what follows an attempt, handing on its page or error.
pub fn clearance_action<P, E>(headed: bool, a: AttemptResult<P, E>) -> (r: ClearanceAction<P, E>)
    ensures
        r == clearance_action_spec(headed, a),
{
    match a {
        AttemptResult::Cleared(p) => ClearanceAction::UsePage(p),
        AttemptResult::Denied => if headed {
            ClearanceAction::FailFlagged
        } else {
            ClearanceAction::RetryHeaded
        },
        AttemptResult::Failed(e) => if headed {
            ClearanceAction::FailAfterFallback(e)
        } else {
            ClearanceAction::Fail(e)
        },
    }
}

/// The error when both browser modes were denied.
pub open spec fn network_flagged_message_spec() -> Seq<char> {
    "Unsplash denied both headless and headed browsers (BotStopper). This network's egress appears to be flagged; the block is network-level, not something browser settings can fix. Retry later or from a different network."@
}

/// Writes the error for a network whose egress is flagged.
pub fn network_flagged_message() -> (r: String)
    ensures
        r@ == network_flagged_message_spec(),
{
    "Unsplash denied both headless and headed browsers (BotStopper). This network's egress appears to be flagged; the block is network-level, not something browser settings can fix. Retry later or from a different network.".to_owned()
}


// ---------------------------------------------------------------------------
// The in-page fetch of a `/napi/*` endpoint
// ---------------------------------------------------------------------------

/// `s` made safe to stand between single quotes in a JavaScript string
/// literal: each `\` doubled, then each `'` preceded by `\`.
pub open spec fn js_escape(s: Seq<char>) -> Seq<char> {
    replace_char(replace_char(s, '\\', seq!['\\', '\\']), '\'', seq!['\\', '\''])
}

/// The script run in the cleared page: a same-origin `fetch` of the path
/// asking for JSON, answering `{ status, text }` with the text cut at
/// 500000 characters.
pub open spec fn fetch_script_spec(napi_path: Seq<char>) -> Seq<char> {
    "(async () => {\n                const res = await fetch('"@ + js_escape(napi_path)
        + "', { headers: { 'Accept': 'application/json' }, credentials: 'same-origin' });\n                const text = await res.text();\n                return { status: res.status, text: text.slice(0, 500000) };\n            })()"@
}

/// Writes the script that fetches `napi_path` inside the cleared page, so
/// the page's clearance cookies apply.
pub fn fetch_script(napi_path: &str) -> (r: String)
    ensures
        r@ == fetch_script_spec(napi_path@),
{
    let chars = char_vec(napi_path);
    let two_backslashes = ['\\', '\\'];
    let escaped_quote = ['\\', '\''];
    let step1 = replace_char_chars(chars.as_slice(), '\\', two_backslashes.as_slice());
    let step2 = replace_char_chars(step1.as_slice(), '\'', escaped_quote.as_slice());
    proof {
        assert(two_backslashes@ =~= seq!['\\', '\\']);
        assert(escaped_quote@ =~= seq!['\\', '\'']);
    }
    let mut out: Vec<char> = Vec::new();
    push_str(&mut out, "(async () => {\n                const res = await fetch('");
    let mut i: usize = 0;
    let ghost before = out@;
    while i < step2.len()
        invariant
            i <= step2@.len(),
            out@ == before + step2@.take(i as int),
        decreases step2@.len() - i,
    {
        out.push(step2[i]);
        i = i + 1;
        assert(out@ =~= before + step2@.take(i as int));
    }
    assert(step2@.take(step2@.len() as int) =~= step2@);
    push_str(
        &mut out,
        "', { headers: { 'Accept': 'application/json' }, credentials: 'same-origin' });\n                const text = await res.text();\n                return { status: res.status, text: text.slice(0, 500000) };\n            })()",
    );
    assert(out@ =~= fetch_script_spec(napi_path@));
    string_from_chars(out.as_slice())
}

/// Reading a JavaScript single-quoted literal's body: `\` followed by a
/// character stands for that character.
pub open spec fn js_unescape(s: Seq<char>) -> Seq<char>
    decreases s.len(),
{
    if s.len() == 0 {
        Seq::empty()
    } else if s[0] == '\\' && s.len() >= 2 {
        seq![s[1]] + js_unescape(s.skip(2))
    } else {
        seq![s[0]] + js_unescape(s.drop_first())
    }
}

/// The escape of one character.
pub open spec fn js_piece() -> spec_fn(char) -> Seq<char> {
    |c: char|
        if c == '\\' {
            seq!['\\', '\\']
        } else if c == '\'' {
            seq!['\\', '\'']
        } else {
            seq![c]
        }
}

proof fn lemma_concat_map_single<A>(x: A, f: spec_fn(A) -> Seq<char>)
    ensures
        concat_map(seq![x], f) == f(x),
{
    assert(seq![x].drop_last() =~= Seq::<A>::empty());
    assert(concat_map(Seq::<A>::empty(), f) =~= Seq::<char>::empty());
    assert(Seq::<char>::empty() + f(x) =~= f(x));
}

proof fn lemma_concat_map_small(s: Seq<char>, f: spec_fn(char) -> Seq<char>)
    requires
        s.len() <= 2,
    ensures
        s.len() == 1 ==> concat_map(s, f) == f(s[0]),
        s.len() == 2 ==> concat_map(s, f) == f(s[0]) + f(s[1]),
{
    if s.len() == 1 {
        assert(s =~= seq![s[0]]);
        lemma_concat_map_single(s[0], f);
    } else if s.len() == 2 {
        assert(s.drop_last() =~= seq![s[0]]);
        lemma_concat_map_single(s[0], f);
    }
}

proof fn lemma_js_escape_pieces(s: Seq<char>)
    ensures
        js_escape(s) == concat_map(s, js_piece()),
    decreases s.len(),
{
    let f1 = crate::text::replace_piece('\\', seq!['\\', '\\']);
    let f2 = crate::text::replace_piece('\'', seq!['\\', '\'']);
    if s.len() > 0 {
        lemma_js_escape_pieces(s.drop_last());
        let c = s.last();
        crate::text::lemma_concat_map_append(
            replace_char(s.drop_last(), '\\', seq!['\\', '\\']),
            f1(c),
            f2,
        );
        let p = f1(c);
        lemma_concat_map_small(p, f2);
    } else {
        assert(js_escape(s) =~= Seq::<char>::empty());
    }
}

proof fn lemma_js_unescape_piece(c: char, tail: Seq<char>)
    ensures
        js_unescape(js_piece()(c) + tail) == seq![c] + js_unescape(tail),
{
    let s = js_piece()(c) + tail;
    if c == '\\' || c == '\'' {
        assert(s[0] == '\\');
        assert(s[1] == c);
        assert(s.skip(2) =~= tail);
    } else {
        assert(s[0] == c);
        assert(s.drop_first() =~= tail);
    }
}

/// Reading the escaped path back as a JavaScript literal gives the path
/// itself: the script fetches exactly the path asked for.
pub proof fn law_js_escape_roundtrip(s: Seq<char>)
    ensures
        js_unescape(js_escape(s)) == s,
    decreases s.len(),
{
    lemma_js_escape_pieces(s);
    if s.len() == 0 {
        assert(concat_map(s, js_piece()) =~= Seq::<char>::empty());
    } else {
        let rest = s.drop_first();
        assert(s =~= seq![s[0]] + rest);
        crate::text::lemma_concat_map_append(seq![s[0]], rest, js_piece());
        lemma_concat_map_single(s[0], js_piece());
        lemma_js_unescape_piece(s[0], concat_map(rest, js_piece()));
        lemma_js_escape_pieces(rest);
        law_js_escape_roundtrip(rest);
    }
}

/// The first `n` characters of `s` (all of `s` where it is shorter).
pub open spec fn take_chars(s: Seq<char>, n: nat) -> Seq<char> {
    if s.len() <= n {
        s
    } else {
        s.take(n as int)
    }
}

/// What the in-page fetch's reply `{ status, text }` means: a 401 or 403
/// is a rejection (the clearance may have expired); another status outside
/// 200..300 is an error quoting the first 300 characters of the text; a
/// success hands the text on to be parsed. A missing status reads as 0, a
/// missing text as empty.
pub open spec fn napi_reply_spec(napi_path: Seq<char>, reply: Json) -> Result<Seq<char>, Seq<char>> {
    let status = field_count(reply, "status"@, 0);
    let text = field_text(reply, "text"@);
    if status == 401 || status == 403 {
        Err(
            "Unsplash rejected the request (HTTP "@ + decimal(status as nat)
                + "). Anubis clearance may have expired; retry."@,
        )
    } else if !(200 <= status && status < 300) {
        Err(
            "Unsplash napi "@ + napi_path + " returned HTTP "@ + decimal(status as nat) + ": "@
                + take_chars(text, 300),
        )
    } else {
        Ok(text)
    }
}

/// Reads the in-page fetch's reply: the body text on success, else the
/// error message.
pub fn napi_reply(napi_path: &str, reply: &Json) -> (r: Result<String, String>)
    ensures
        match r {
            Ok(t) => napi_reply_spec(napi_path@, *reply) == Ok::<Seq<char>, Seq<char>>(t@),
            Err(e) => napi_reply_spec(napi_path@, *reply) == Err::<Seq<char>, Seq<char>>(e@),
        },
{
    let status = field_count_exec(reply, "status", 0);
    let text = field_text_exec(reply, "text");
    if status == 401 || status == 403 {
        let mut out: Vec<char> = Vec::new();
        push_str(&mut out, "Unsplash rejected the request (HTTP ");
        push_decimal(&mut out, status);
        push_str(&mut out, "). Anubis clearance may have expired; retry.");
        proof {
            assert(out@ =~= "Unsplash rejected the request (HTTP "@ + decimal(status as nat)
                + "). Anubis clearance may have expired; retry."@);
        }
        return Err(string_from_chars(out.as_slice()));
    }
    if !(200 <= status && status < 300) {
        let mut out: Vec<char> = Vec::new();
        push_str(&mut out, "Unsplash napi ");
        push_str(&mut out, napi_path);
        push_str(&mut out, " returned HTTP ");
        push_decimal(&mut out, status);
        push_str(&mut out, ": ");
        let chars = char_vec(text.as_str());
        let n: usize = if chars.len() < 300 {
            chars.len()
        } else {
            300
        };
        let mut i: usize = 0;
        let ghost before = out@;
        while i < n
            invariant
                i <= n <= chars@.len(),
                out@ == before + chars@.take(i as int),
            decreases n - i,
        {
            out.push(chars[i]);
            i = i + 1;
            assert(out@ =~= before + chars@.take(i as int));
        }
        proof {
            assert(chars@.take(n as int) =~= take_chars(text@, 300));
            assert(out@ =~= "Unsplash napi "@ + napi_path@ + " returned HTTP "@ + decimal(
                status as nat,
            ) + ": "@ + take_chars(text@, 300));
        }
        return Err(string_from_chars(out.as_slice()));
    }
    Ok(text)
}


/// What a `/napi/*` fetch yields: the parsed document of a successful
/// reply; the reply's error; or, where the body is not JSON,
/// `parsing napi JSON: ` followed by the parser's message.
pub open spec fn napi_result_spec(napi_path: Seq<char>, reply: Json) -> Result<Json, Seq<char>> {
    match napi_reply_spec(napi_path, reply) {
        Ok(t) => match json_text_parse(t) {
            Ok(v) => Ok(v),
            Err(m) => Err("parsing napi JSON: "@ + m),
        },
        Err(e) => Err(e),
    }
}

/// Reads the in-page fetch's reply into the endpoint's JSON document, or
/// the error that the fetch reports.
pub fn napi_result(napi_path: &str, reply: &Json) -> (r: Result<Json, String>)
    ensures
        match r {
            Ok(j) => napi_result_spec(napi_path@, *reply) == Ok::<Json, Seq<char>>(j),
            Err(e) => napi_result_spec(napi_path@, *reply) == Err::<Json, Seq<char>>(e@),
        },
{
    match napi_reply(napi_path, reply) {
        Ok(text) => match parse_json_text(text.as_str()) {
            Ok(v) => Ok(v),
            Err(m) => {
                let mut out: Vec<char> = Vec::new();
                push_str(&mut out, "parsing napi JSON: ");
                push_str(&mut out, m.as_str());
                Err(string_from_chars(out.as_slice()))
            },
        },
        Err(e) => Err(e),
    }
}

/// What the fetch's reply means by its status: a body is handed on exactly
/// when the status is a success (200 to 299), and it is the reply's text;
/// 401 and 403 are reported as a rejection naming the status; any other
/// status (every other 4xx and 5xx, and a missing status read as 0) is
/// reported as an error naming the path, the status and the first 300
/// characters of the text.
pub proof fn law_napi_reply_status(napi_path: Seq<char>, reply: Json)
    ensures
        ({
            let status = field_count(reply, "status"@, 0);
            let text = field_text(reply, "text"@);
            let r = napi_reply_spec(napi_path, reply);
            &&& (r is Ok <==> 200 <= status && status < 300)
            &&& (r is Ok ==> r == Ok::<Seq<char>, Seq<char>>(text))
            &&& ((status == 401 || status == 403) ==> exists|d: Seq<char>|
                #![trigger crate::napi::denotes(d, status)]
                crate::napi::denotes(d, status) && r == Err::<Seq<char>, Seq<char>>(
                    "Unsplash rejected the request (HTTP "@ + d
                        + "). Anubis clearance may have expired; retry."@,
                ))
            &&& ((status != 401 && status != 403 && !(200 <= status && status < 300)) ==> exists|
                d: Seq<char>,
            |
                #![trigger crate::napi::denotes(d, status)]
                crate::napi::denotes(d, status) && r == Err::<Seq<char>, Seq<char>>(
                    "Unsplash napi "@ + napi_path + " returned HTTP "@ + d + ": "@ + text.take(
                        if text.len() < 300 {
                            text.len() as int
                        } else {
                            300
                        },
                    ),
                ))
        }),
{
    let status = field_count(reply, "status"@, 0);
    let text = field_text(reply, "text"@);
    crate::number::law_decimal_roundtrip(status);
    let d = decimal(status as nat);
    assert(crate::napi::denotes(d, status));
    if text.len() <= 300 {
        assert(text.take(text.len() as int) =~= text);
    }
}

/// A fetch yields a document only for a successful reply, and then the
/// document its text denotes; every error of the reply is passed on as it
/// is.
pub proof fn law_napi_result(napi_path: Seq<char>, reply: Json)
    ensures
        ({
            let status = field_count(reply, "status"@, 0);
            let text = field_text(reply, "text"@);
            let r = napi_result_spec(napi_path, reply);
            &&& (r matches Ok(v) ==> 200 <= status && status < 300 && json_text_parse(text)
                == Ok::<Json, Seq<char>>(v))
            &&& (napi_reply_spec(napi_path, reply) matches Err(e) ==> r == Err::<Json, Seq<char>>(
                e,
            ))
        }),
{
    law_napi_reply_status(napi_path, reply);
}

// ---------------------------------------------------------------------------
// Launching: stale profile locks
// ---------------------------------------------------------------------------

/// Whether an error text is Chrome refusing a locked profile directory.
pub open spec fn mentions_singleton_lock(text: Seq<char>) -> bool {
    contains_seq(text, "SingletonLock"@) || contains_seq(text, "ProcessSingleton"@)
}

/// True when a launch failure is Chrome refusing a locked profile directory
/// (a stale child of a killed predecessor still holds `SingletonLock`).
/// `error_chain` is the failure rendered with its whole chain of causes
/// (`format!("{e:#}")` of the launch error); the failure is a lock refusal
/// exactly when that text mentions `SingletonLock` or `ProcessSingleton`.
pub fn is_singleton_lock(error_chain: &str) -> (r: bool)
    ensures
        r == mentions_singleton_lock(error_chain@),
{
    str_contains(error_chain, "SingletonLock") || str_contains(error_chain, "ProcessSingleton")
}

/// The browser mode's name.
pub open spec fn mode_name(headed: bool) -> Seq<char> {
    if headed {
        "headed"@
    } else {
        "headless"@
    }
}

/// The context given to a launch failure.
pub open spec fn launch_context_spec(headed: bool, after_cleanup: bool) -> Seq<char> {
    "launching "@ + mode_name(headed) + " Chrome"@ + if after_cleanup {
        " (after stale-lock cleanup)"@
    } else {
        Seq::empty()
    }
}

/// What follows a failed launch.
pub enum LaunchStep {
    /// A stale profile lock: reap the orphaned Chrome and launch once more,
    /// reporting a failure of that retry in `retry_context`.
    ReapAndRetry { retry_context: String },
    /// Give up, reporting the failure in `context`.
    Fail { context: String },
}

/// What follows a failed launch: a failure caused by a stale profile lock
/// gets one retry after cleanup; any other failure is reported with the
/// launch context.
pub open spec fn launch_step_ok(r: LaunchStep, headed: bool, error_chain: Seq<char>) -> bool {
    if mentions_singleton_lock(error_chain) {
        r matches LaunchStep::ReapAndRetry { retry_context } && retry_context@
            == launch_context_spec(headed, true)
    } else {
        r matches LaunchStep::Fail { context } && context@ == launch_context_spec(headed, false)
    }
}

/// Decides what follows a failed launch in the given mode; `error_chain`
/// is the failure rendered with its chain of causes.
pub fn launch_step(headed: bool, error_chain: &str) -> (r: LaunchStep)
    ensures
        launch_step_ok(r, headed, error_chain@),
{
    if is_singleton_lock(error_chain) {
        LaunchStep::ReapAndRetry { retry_context: launch_context(headed, true) }
    } else {
        LaunchStep::Fail { context: launch_context(headed, false) }
    }
}

/// Writes the context of a launch failure in the given mode, noting a
/// retry made after cleaning up a stale profile lock.
pub fn launch_context(headed: bool, after_cleanup: bool) -> (r: String)
    ensures
        r@ == launch_context_spec(headed, after_cleanup),
{
    let mut out: Vec<char> = Vec::new();
    push_str(&mut out, "launching ");
    if headed {
        push_str(&mut out, "headed");
    } else {
        push_str(&mut out, "headless");
    }
    push_str(&mut out, " Chrome");
    if after_cleanup {
        push_str(&mut out, " (after stale-lock cleanup)");
    }
    assert(out@ =~= launch_context_spec(headed, after_cleanup));
    string_from_chars(out.as_slice())
}

/// The lock files Chrome leaves in a profile directory.
pub const SINGLETON_FILES: [&'static str; 3] = ["SingletonLock", "SingletonSocket", "SingletonCookie"];

// ---------------------------------------------------------------------------
// The persistent profile directory
// ---------------------------------------------------------------------------

/// `rel` appended to the path `base` as `Path::join` does for a relative
/// `rel`: with a `/` between them unless `base` is empty or already ends in one.
pub open spec fn path_join(base: Seq<char>, rel: Seq<char>) -> Seq<char> {
    if base.len() == 0 || base.last() == '/' {
        base + rel
    } else {
        base + "/"@ + rel
    }
}

fn push_path_join(out: &mut Vec<char>, rel: &str)
    ensures
        final(out)@ == path_join(old(out)@, rel@),
{
    let n = out.len();
    if n == 0 || out[n - 1] == '/' {
        push_str(out, rel);
    } else {
        push_str(out, "/");
        push_str(out, rel);
        assert(final(out)@ =~= path_join(old(out)@, rel@));
    }
}

/// Where the profile lives by default: `$HOME/.cache/unsplash-mcp/chrome-profile`,
/// where `HOME` is set and not blank.
pub open spec fn default_profile_dir_spec(home: Option<Seq<char>>) -> Option<Seq<char>> {
    match home {
        Some(h) => if trim_spec(h).len() == 0 {
            None
        } else {
            Some(path_join(h, ".cache/unsplash-mcp/chrome-profile"@))
        },
        None => None,
    }
}

/// The default profile directory under the given home directory.
pub fn default_profile_dir(home: Option<&str>) -> (r: Option<String>)
    ensures
        match r {
            Some(p) => default_profile_dir_spec(crate::napi::opt_view(home)) == Some(p@),
            None => default_profile_dir_spec(crate::napi::opt_view(home)) is None,
        },
{
    match home {
        Some(h) => {
            if is_blank(h) {
                None
            } else {
                let mut out: Vec<char> = Vec::new();
                push_str(&mut out, h);
                push_path_join(&mut out, ".cache/unsplash-mcp/chrome-profile");
                Some(string_from_chars(out.as_slice()))
            }
        },
        None => None,
    }
}

/// The profile directory of a browser mode: the override directory where
/// it is set and not blank, else the default one, each with a subdirectory
/// per mode so the two browsers never share a profile lock.
pub open spec fn profile_dir_spec(
    override_dir: Option<Seq<char>>,
    home: Option<Seq<char>>,
    headed: bool,
) -> Option<Seq<char>> {
    let base = match override_dir {
        Some(o) => if trim_spec(o).len() == 0 {
            default_profile_dir_spec(home)
        } else {
            Some(o)
        },
        None => default_profile_dir_spec(home),
    };
    match base {
        Some(b) => Some(path_join(b, mode_name(headed))),
        None => None,
    }
}

/// Chooses the profile directory of a browser mode from the override
/// setting and the home directory.
pub fn profile_dir(override_dir: Option<&str>, home: Option<&str>, headed: bool) -> (r: Option<
    String,
>)
    ensures
        match r {
            Some(p) => profile_dir_spec(
                crate::napi::opt_view(override_dir),
                crate::napi::opt_view(home),
                headed,
            ) == Some(p@),
            None => profile_dir_spec(
                crate::napi::opt_view(override_dir),
                crate::napi::opt_view(home),
                headed,
            ) is None,
        },
{
    let base: Option<String> = match override_dir {
        Some(o) => if is_blank(o) {
            default_profile_dir(home)
        } else {
            Some(o.to_owned())
        },
        None => default_profile_dir(home),
    };
    match base {
        Some(b) => {
            let mut out: Vec<char> = Vec::new();
            push_str(&mut out, b.as_str());
            if headed {
                push_path_join(&mut out, "headed");
            } else {
                push_path_join(&mut out, "headless");
            }
            Some(string_from_chars(out.as_slice()))
        },
        None => None,
    }
}

// ---------------------------------------------------------------------------
// Time budgets
// ---------------------------------------------------------------------------

/// A time budget in seconds from its setting: the setting where it parses
/// as a `u64`, else the default.
pub open spec fn budget_secs_spec(setting: Option<Seq<char>>, default: u64) -> u64 {
    match setting {
        Some(s) => match parse_u64_spec(s) {
            Some(n) => n,
            None => default,
        },
        None => default,
    }
}

/// Reads a time budget in seconds (`setting.and_then(|v| v.parse().ok()).unwrap_or(default)`).
pub fn budget_secs(setting: Option<&str>, default: u64) -> (r: u64)
    ensures
        r == budget_secs_spec(crate::napi::opt_view(setting), default),
{
    match setting {
        Some(s) => {
            let chars = char_vec(s);
            match parse_u64(chars.as_slice()) {
                Some(n) => n,
                None => default,
            }
        },
        None => default,
    }
}

/// The browser launch budget: 60 seconds unless set otherwise.
pub fn launch_timeout_secs(setting: Option<&str>) -> (r: u64)
    ensures
        r == budget_secs_spec(crate::napi::opt_view(setting), 60),
{
    budget_secs(setting, 60)
}

/// The bot-check wait budget: 45 seconds unless set otherwise.
pub fn anubis_timeout_secs(setting: Option<&str>) -> (r: u64)
    ensures
        r == budget_secs_spec(crate::napi::opt_view(setting), 45),
{
    budget_secs(setting, 45)
}


// ---------------------------------------------------------------------------
// Finding a Chrome binary
// ---------------------------------------------------------------------------

/// One place to look for a Chrome/Chromium binary.
pub enum ChromeProbe {
    /// The path named by the `CHROME_PATH` setting, where it exists.
    EnvOverride,
    /// A well-known install location, where it exists.
    KnownPath(String),
    /// A binary name looked up on `PATH`.
    PathLookup(String),
}

/// The well-known install locations, in the order they are tried.
pub open spec fn known_chrome_paths() -> Seq<Seq<char>> {
    seq![
        "/Applications/Google Chrome.app/Contents/MacOS/Google Chrome"@,
        "/Applications/Chromium.app/Contents/MacOS/Chromium"@,
        "/usr/bin/google-chrome"@,
        "/usr/bin/chromium"@,
        "/usr/bin/chromium-browser"@,
    ]
}

/// The binary names looked up on `PATH`, in the order they are tried.
pub open spec fn chrome_binary_names() -> Seq<Seq<char>> {
    seq!["google-chrome"@, "chromium"@, "chromium-browser"@, "chrome"@]
}

/// Whether `r` is the probe made at `step`: the override first, then each
/// known location, then each `PATH` lookup; nothing after those.
pub open spec fn chrome_probe_spec(step: nat, r: Option<ChromeProbe>) -> bool {
    let k = known_chrome_paths();
    let b = chrome_binary_names();
    if step == 0 {
        r matches Some(ChromeProbe::EnvOverride)
    } else if step <= k.len() {
        r matches Some(ChromeProbe::KnownPath(p)) && p@ == k[step - 1]
    } else if step <= k.len() + b.len() {
        r matches Some(ChromeProbe::PathLookup(n)) && n@ == b[step - 1 - k.len()]
    } else {
        r is None
    }
}

/// The probe made at `step` of the search for a Chrome binary; the first
/// probe that finds one decides.
pub fn chrome_probe(step: usize) -> (r: Option<ChromeProbe>)
    ensures
        chrome_probe_spec(step as nat, r),
{
    match step {
        0 => Some(ChromeProbe::EnvOverride),
        1 => Some(ChromeProbe::KnownPath("/Applications/Google Chrome.app/Contents/MacOS/Google Chrome".to_owned())),
        2 => Some(ChromeProbe::KnownPath("/Applications/Chromium.app/Contents/MacOS/Chromium".to_owned())),
        3 => Some(ChromeProbe::KnownPath("/usr/bin/google-chrome".to_owned())),
        4 => Some(ChromeProbe::KnownPath("/usr/bin/chromium".to_owned())),
        5 => Some(ChromeProbe::KnownPath("/usr/bin/chromium-browser".to_owned())),
        6 => Some(ChromeProbe::PathLookup("google-chrome".to_owned())),
        7 => Some(ChromeProbe::PathLookup("chromium".to_owned())),
        8 => Some(ChromeProbe::PathLookup("chromium-browser".to_owned())),
        9 => Some(ChromeProbe::PathLookup("chrome".to_owned())),
        _ => None,
    }
}

/// What a `which` lookup found: its output trimmed, where the command
/// succeeded and printed something other than white space.
pub open spec fn which_path_spec(success: bool, stdout: Seq<char>) -> Option<Seq<char>> {
    if success && trim_spec(stdout).len() > 0 {
        Some(trim_spec(stdout))
    } else {
        None
    }
}

/// Reads the result of `which`: the trimmed path, or nothing.
pub fn which_path(success: bool, stdout: &str) -> (r: Option<String>)
    ensures
        match r {
            Some(p) => which_path_spec(success, stdout@) == Some(p@),
            None => which_path_spec(success, stdout@) is None,
        },
{
    if !success {
        return None;
    }
    let chars = char_vec(stdout);
    let t = trim_chars(chars.as_slice());
    if t.len() == 0 {
        None
    } else {
        Some(string_from_chars(t.as_slice()))
    }
}

/// Modern desktop user agent given to each tab in stealth mode.
pub const STEALTH_UA: &'static str = "Mozilla/5.0 (Macintosh; Intel Mac OS X 10_15_7) AppleWebKit/537.36 (KHTML, like Gecko) Chrome/153.0.0.0 Safari/537.36";

/// Chromium launch flags: the usual automation defaults without
/// `--enable-automation`, a well-known bot signal.
pub const DEFAULT_CHROME_ARGS: [&'static str; 23] = [
    "--disable-background-networking",
    "--enable-features=NetworkService,NetworkServiceInProcess",
    "--disable-background-timer-throttling",
    "--disable-backgrounding-occluded-windows",
    "--disable-breakpad",
    "--disable-client-side-phishing-detection",
    "--disable-component-extensions-with-background-pages",
    "--disable-default-apps",
    "--disable-dev-shm-usage",
    "--disable-features=TranslateUI",
    "--disable-hang-monitor",
    "--disable-ipc-flooding-protection",
    "--disable-popup-blocking",
    "--disable-prompt-on-repost",
    "--disable-renderer-backgrounding",
    "--disable-sync",
    "--force-color-profile=srgb",
    "--metrics-recording-only",
    "--no-first-run",
    "--password-store=basic",
    "--use-mock-keychain",
    "--enable-blink-features=IdleDetection",
    "--lang=en-US",
];


// ---------------------------------------------------------------------------
// Further laws of the session's decisions
// ---------------------------------------------------------------------------

/// A denial is reported whatever the deadline; the deadline never turns a
/// cleared page into a failure; a look before the deadline is never a
/// timeout, and one after it never asks to wait.
pub proof fn law_anubis_verdict(p: PageProbe)
    ensures
        (anubis_verdict_spec(p, true) == AnubisVerdict::Denied) <==> (anubis_verdict_spec(p, false)
            == AnubisVerdict::Denied),
        (anubis_verdict_spec(p, true) == AnubisVerdict::Cleared) <==> (anubis_verdict_spec(
            p,
            false,
        ) == AnubisVerdict::Cleared),
        anubis_verdict_spec(p, false) != AnubisVerdict::TimedOut,
        anubis_verdict_spec(p, true) != AnubisVerdict::Pending,
        contains_seq(p.body@, "BotStopper"@) ==> anubis_verdict_spec(p, true)
            == AnubisVerdict::Denied,
        anubis_verdict_spec(p, true) == AnubisVerdict::Cleared ==> !p.challenge,
        p.challenge && !probe_denied(p) ==> anubis_verdict_spec(p, true) == AnubisVerdict::TimedOut,
{
}

/// A budget set to the decimal rendering of a number is that number; an
/// unset budget is the default.
pub proof fn law_budget_secs(n: u64, default: u64)
    ensures
        budget_secs_spec(Some(decimal(n as nat)), default) == n,
        budget_secs_spec(None, default) == default,
{
    crate::number::law_decimal_roundtrip(n);
}

/// The two browser modes never share a profile directory: where there is
/// one, each mode's directory is the same base joined with the mode's name.
pub proof fn law_profile_dirs_differ(override_dir: Option<Seq<char>>, home: Option<Seq<char>>)
    ensures
        profile_dir_spec(override_dir, home, true) is Some <==> profile_dir_spec(
            override_dir,
            home,
            false,
        ) is Some,
        profile_dir_spec(override_dir, home, true) is Some ==> profile_dir_spec(
            override_dir,
            home,
            true,
        ) != profile_dir_spec(override_dir, home, false),
{
    reveal_strlit("headed");
    reveal_strlit("headless");
    reveal_strlit("/");
    match profile_dir_spec(override_dir, home, true) {
        Some(a) => {
            let b = profile_dir_spec(override_dir, home, false)->0;
            assert(a.len() + 2 == b.len());
        },
        None => {},
    }
}

} // verus!
