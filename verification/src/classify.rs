//! Event classification and the request-facing webhook protocol. The
//! ordered policy: non-push events are ignored; the signature is checked
//! before the payload is parsed; unknown repositories are rejected; only a
//! fresh tag reference triggers a deploy.

use vstd::prelude::*;
use vstd::utf8::encode_utf8;

use crate::payload::{parse_payload, push_payload_of, PushPayloadView};
use crate::signature::{verify, verify_spec};
use crate::text::{after_last_slash, is_prefix_of, short_name, starts_with, str_eq, suffix_from};

verus! {

/// One inbound webhook request: the event-type header, the signature
/// header when present, and the raw body bytes.
pub struct InboundEvent {
    pub event_type: String,
    pub signature: Option<String>,
    pub raw_body: Vec<u8>,
}

/// The mathematical value of an `InboundEvent`.
pub struct InboundEventView {
    pub event_type: Seq<char>,
    pub signature: Option<Seq<char>>,
    pub raw_body: Seq<u8>,
}

impl View for InboundEvent {
    type V = InboundEventView;

    open spec fn view(&self) -> InboundEventView {
        InboundEventView {
            event_type: self.event_type@,
            signature: match self.signature {
                Some(s) => Some(s@),
                None => None,
            },
            raw_body: self.raw_body@,
        }
    }
}

/// The process-wide deployment configuration a classifier works under.
pub struct DeployConfig {
    pub webhook_secret: String,
    pub expected_repo_full_name: Vec<String>,
    pub deploy_script_path: String,
    pub dev_dir: String,
    pub scripts_dir: String,
}

/// The mathematical value of a `DeployConfig`.
pub struct DeployConfigView {
    pub webhook_secret: Seq<char>,
    pub expected_repo_full_name: Seq<Seq<char>>,
    pub deploy_script_path: Seq<char>,
    pub dev_dir: Seq<char>,
    pub scripts_dir: Seq<char>,
}

impl View for DeployConfig {
    type V = DeployConfigView;

    open spec fn view(&self) -> DeployConfigView {
        DeployConfigView {
            webhook_secret: self.webhook_secret@,
            expected_repo_full_name: self.expected_repo_full_name.deep_view(),
            deploy_script_path: self.deploy_script_path@,
            dev_dir: self.dev_dir@,
            scripts_dir: self.scripts_dir@,
        }
    }
}

/// What to deploy: constructed only after an event has been accepted.
pub struct DeployRequest {
    pub repository_full_name: String,
    pub repository_short_name: String,
    pub tag: String,
    pub script_path: String,
    pub dev_dir: String,
    pub scripts_dir: String,
}

/// The mathematical value of a `DeployRequest`.
pub struct DeployRequestView {
    pub repository_full_name: Seq<char>,
    pub repository_short_name: Seq<char>,
    pub tag: Seq<char>,
    pub script_path: Seq<char>,
    pub dev_dir: Seq<char>,
    pub scripts_dir: Seq<char>,
}

impl View for DeployRequest {
    type V = DeployRequestView;

    open spec fn view(&self) -> DeployRequestView {
        DeployRequestView {
            repository_full_name: self.repository_full_name@,
            repository_short_name: self.repository_short_name@,
            tag: self.tag@,
            script_path: self.script_path@,
            dev_dir: self.dev_dir@,
            scripts_dir: self.scripts_dir@,
        }
    }
}

/// What to do with an inbound event.
pub enum Decision {
    /// Answer 200 without deploying; the payload names the reason.
    Ignore(String),
    /// Refuse the request; the payload names the reason and the status.
    Reject(String, u16),
    /// Answer 200 and run the deploy described by the request.
    Trigger(DeployRequest),
}

/// The mathematical value of a `Decision`.
pub enum DecisionView {
    Ignore(Seq<char>),
    Reject(Seq<char>, u16),
    Trigger(DeployRequestView),
}

impl View for Decision {
    type V = DecisionView;

    open spec fn view(&self) -> DecisionView {
        match self {
            Decision::Ignore(reason) => DecisionView::Ignore(reason@),
            Decision::Reject(reason, code) => DecisionView::Reject(reason@, *code),
            Decision::Trigger(req) => DecisionView::Trigger(req@),
        }
    }
}

/// The reference prefix that marks a tag push.
pub open spec fn tag_prefix() -> Seq<char> {
    "refs/tags/"@
}

/// The deploy request an accepted payload gives rise to: the tag is the
/// reference without its `refs/tags/` prefix, and the short name is the
/// full name after its last `/`, falling back to the whole name when that
/// portion is empty, so that it is never empty for a non-empty full name.
pub open spec fn request_of(p: PushPayloadView, cfg: DeployConfigView) -> DeployRequestView {
    DeployRequestView {
        repository_full_name: p.repository_full_name,
        repository_short_name: after_last_slash(p.repository_full_name),
        tag: p.ref_name.skip(tag_prefix().len() as int),
        script_path: cfg.deploy_script_path,
        dev_dir: cfg.dev_dir,
        scripts_dir: cfg.scripts_dir,
    }
}

/// The ordered classification policy, first match wins: not a push; no
/// signature; bad signature; unparsable payload; repository not
/// allow-listed; not a tag reference; a deleted tag; otherwise trigger.
pub open spec fn classify_spec(ev: InboundEventView, cfg: DeployConfigView) -> DecisionView {
    if ev.event_type != "push"@ {
        DecisionView::Ignore("not push"@)
    } else {
        match ev.signature {
            None => DecisionView::Reject("missing signature"@, 401),
            Some(sig) => if !verify_spec(
                encode_utf8(cfg.webhook_secret),
                ev.raw_body,
                encode_utf8(sig),
            ) {
                DecisionView::Reject("bad signature"@, 401)
            } else {
                match push_payload_of(ev.raw_body) {
                    None => DecisionView::Reject("invalid payload"@, 400),
                    Some(p) => if !cfg.expected_repo_full_name.contains(p.repository_full_name) {
                        DecisionView::Reject("repo mismatch"@, 403)
                    } else if !is_prefix_of(tag_prefix(), p.ref_name) {
                        DecisionView::Ignore("not a tag ref"@)
                    } else if p.deleted {
                        DecisionView::Ignore("tag deleted"@)
                    } else {
                        DecisionView::Trigger(request_of(p, cfg))
                    },
                }
            },
        }
    }
}

fn repo_allowed(list: &Vec<String>, name: &str) -> (r: bool)
    ensures
        r == list.deep_view().contains(name@),
{
    let mut i: usize = 0;
    while i < list.len()
        invariant
            0 <= i <= list@.len(),
            list.deep_view().len() == list@.len(),
            forall|j: int| 0 <= j < i ==> list.deep_view()[j] != name@,
        decreases list@.len() - i,
    {
        if str_eq(list[i].as_str(), name) {
            assert(list.deep_view()[i as int] == name@);
            return true;
        }
        assert(list.deep_view()[i as int] != name@);
        i += 1;
    }
    proof {
        assert(forall|j: int| 0 <= j < list.deep_view().len() ==> list.deep_view()[j] != name@);
    }
    false
}

/// Classifies one inbound event under a configuration, following the
/// ordered policy of `classify_spec`. The signature is verified strictly
/// before the body is parsed.
pub fn classify(event: &InboundEvent, cfg: &DeployConfig) -> (d: Decision)
    ensures
        d@ == classify_spec(event@, cfg@),
{
    if !str_eq(event.event_type.as_str(), "push") {
        return Decision::Ignore(String::from_str("not push"));
    }
    let sig = match &event.signature {
        None => {
            return Decision::Reject(String::from_str("missing signature"), 401);
        },
        Some(s) => s,
    };
    if !verify(cfg.webhook_secret.as_str(), event.raw_body.as_slice(), sig.as_str()) {
        return Decision::Reject(String::from_str("bad signature"), 401);
    }
    let payload = match parse_payload(event.raw_body.as_slice()) {
        None => {
            return Decision::Reject(String::from_str("invalid payload"), 400);
        },
        Some(p) => p,
    };
    if !repo_allowed(&cfg.expected_repo_full_name, payload.repository_full_name.as_str()) {
        return Decision::Reject(String::from_str("repo mismatch"), 403);
    }
    if !starts_with(payload.ref_name.as_str(), "refs/tags/") {
        return Decision::Ignore(String::from_str("not a tag ref"));
    }
    if payload.deleted {
        return Decision::Ignore(String::from_str("tag deleted"));
    }
    proof {
        reveal_strlit("refs/tags/");
    }
    let tag = suffix_from(payload.ref_name.as_str(), 10);
    proof {
        assert(tag@ =~= payload.ref_name@.skip(tag_prefix().len() as int));
    }
    let repository_short_name = short_name(payload.repository_full_name.as_str());
    Decision::Trigger(
        DeployRequest {
            repository_full_name: payload.repository_full_name,
            repository_short_name,
            tag,
            script_path: cfg.deploy_script_path.clone(),
            dev_dir: cfg.dev_dir.clone(),
            scripts_dir: cfg.scripts_dir.clone(),
        },
    )
}

/// What the server answers: an HTTP status, a short body, and — only for a
/// triggered deploy — the request the detached deploy unit receives.
pub struct WebhookResponse {
    pub status: u16,
    pub body: String,
    pub deploy: Option<DeployRequest>,
}

/// The mathematical value of a `WebhookResponse`.
pub struct WebhookResponseView {
    pub status: u16,
    pub body: Seq<char>,
    pub deploy: Option<DeployRequestView>,
}

impl View for WebhookResponse {
    type V = WebhookResponseView;

    open spec fn view(&self) -> WebhookResponseView {
        WebhookResponseView {
            status: self.status,
            body: self.body@,
            deploy: match self.deploy {
                Some(req) => Some(req@),
                None => None,
            },
        }
    }
}

/// The response a decision maps to: ignored events answer 200 with the
/// reason in parentheses, rejections answer their status with the reason,
/// and a trigger answers 200 with `deploy triggered` and carries the
/// request.
pub open spec fn response_spec(d: DecisionView) -> WebhookResponseView {
    match d {
        DecisionView::Ignore(reason) => WebhookResponseView {
            status: 200,
            body: "ignored ("@ + reason + ")"@,
            deploy: None,
        },
        DecisionView::Reject(reason, code) => WebhookResponseView {
            status: code,
            body: reason,
            deploy: None,
        },
        DecisionView::Trigger(req) => WebhookResponseView {
            status: 200,
            body: "deploy triggered"@,
            deploy: Some(req),
        },
    }
}

/// The end-to-end request protocol: classify the event and produce the
/// response. The HTTP answer is fixed here; running the deploy of a
/// `Trigger` and notifying is the caller's detached continuation. Nothing
/// serializes concurrently triggered requests: two close tag pushes may run
/// overlapping deploy processes — a known gap of the design, left without a
/// single-flight guard.
pub fn handle_webhook(event: &InboundEvent, cfg: &DeployConfig) -> (r: WebhookResponse)
    ensures
        r@ == response_spec(classify_spec(event@, cfg@)),
{
    match classify(event, cfg) {
        Decision::Ignore(reason) => {
            let mut body = String::from_str("ignored (");
            body.append(reason.as_str());
            body.append(")");
            WebhookResponse { status: 200, body, deploy: None }
        },
        Decision::Reject(reason, code) => WebhookResponse {
            status: code,
            body: reason,
            deploy: None,
        },
        Decision::Trigger(req) => WebhookResponse {
            status: 200,
            body: String::from_str("deploy triggered"),
            deploy: Some(req),
        },
    }
}

/// A response carries a deploy request exactly when the classification
/// triggered one, and then it answers 200 with `deploy triggered`; every
/// other response carries none.
pub proof fn lemma_response_deploys_iff_triggered(d: DecisionView)
    ensures
        response_spec(d).deploy is Some <==> d is Trigger,
        d matches DecisionView::Trigger(req) ==> response_spec(d) == (WebhookResponseView {
            status: 200,
            body: "deploy triggered"@,
            deploy: Some(req),
        }),
{
}

/// An event whose type is not `push` is always ignored — whatever the
/// payload, the signature and the configuration — and in particular never
/// triggers a deploy.
pub proof fn lemma_non_push_is_ignored(ev: InboundEventView, cfg: DeployConfigView)
    requires
        ev.event_type != "push"@,
    ensures
        classify_spec(ev, cfg) == DecisionView::Ignore("not push"@),
        !(classify_spec(ev, cfg) is Trigger),
{
}

/// A deploy is triggered only for an authenticated push of a fresh tag of
/// an allow-listed repository, and the triggered request is determined by
/// the payload and the configuration: the tag is the reference without its
/// `refs/tags/` prefix, the short name is the full name after its last `/`.
pub proof fn lemma_trigger_form(ev: InboundEventView, cfg: DeployConfigView)
    requires
        classify_spec(ev, cfg) is Trigger,
    ensures
        ev.event_type == "push"@,
        ev.signature matches Some(sig) && verify_spec(
            encode_utf8(cfg.webhook_secret),
            ev.raw_body,
            encode_utf8(sig),
        ),
        push_payload_of(ev.raw_body) matches Some(p) && {
            &&& cfg.expected_repo_full_name.contains(p.repository_full_name)
            &&& is_prefix_of(tag_prefix(), p.ref_name)
            &&& !p.deleted
            &&& classify_spec(ev, cfg) == DecisionView::Trigger(request_of(p, cfg))
            &&& p.repository_full_name.len() > 0 ==> request_of(
                p,
                cfg,
            ).repository_short_name.len() > 0
        },
{
}

} // verus!
