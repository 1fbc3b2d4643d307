//! The models the server offers, how a requested model becomes the mode sent upstream,
//! and the server's status report.
use vstd::prelude::*;
use crate::api_error::{problem, ApiError};
use crate::config::Config;
use crate::text::{decimal, push_decimal, str_eq};

verus! {

/// Creation time given for the base models.
pub const CREATED_GROK_BASE: u64 = 1710000000;

/// Creation time given for the Heavy model.
pub const CREATED_GROK_HEAVY: u64 = 1720000000;

/// Creation time given for Grok 4.3.
pub const CREATED_GROK_43: u64 = 1740000000;

/// A model as the models endpoints describe it.
#[derive(Debug, Clone, Copy, PartialEq, Eq)]
pub struct ModelObject {
    pub id: &'static str,
    pub object: &'static str,
    pub created: u64,
    pub owned_by: &'static str,
    pub description: Option<&'static str>,
}

/// The models on offer, in the order they are listed.
pub open spec fn catalogue() -> Seq<ModelObject> {
    seq![
        ModelObject {
            id: "auto",
            object: "model",
            created: CREATED_GROK_BASE,
            owned_by: "xai",
            description: Some("Chooses Fast or Expert based on query complexity"),
        },
        ModelObject {
            id: "fast",
            object: "model",
            created: CREATED_GROK_BASE,
            owned_by: "xai",
            description: Some("Quick responses"),
        },
        ModelObject {
            id: "expert",
            object: "model",
            created: CREATED_GROK_BASE,
            owned_by: "xai",
            description: Some("Thinks hard"),
        },
        ModelObject {
            id: "heavy",
            object: "model",
            created: CREATED_GROK_HEAVY,
            owned_by: "xai",
            description: Some("Team of experts — multi-agent orchestration"),
        },
        ModelObject {
            id: "grok-4-3",
            object: "model",
            created: CREATED_GROK_43,
            owned_by: "xai",
            description: Some("Grok 4.3 — early access, may require account access"),
        },
    ]
}

/// The models on offer.
pub fn models() -> (r: Vec<ModelObject>)
    ensures
        r@ == catalogue(),
{
    let r = vec![
        ModelObject {
            id: "auto",
            object: "model",
            created: CREATED_GROK_BASE,
            owned_by: "xai",
            description: Some("Chooses Fast or Expert based on query complexity"),
        },
        ModelObject {
            id: "fast",
            object: "model",
            created: CREATED_GROK_BASE,
            owned_by: "xai",
            description: Some("Quick responses"),
        },
        ModelObject {
            id: "expert",
            object: "model",
            created: CREATED_GROK_BASE,
            owned_by: "xai",
            description: Some("Thinks hard"),
        },
        ModelObject {
            id: "heavy",
            object: "model",
            created: CREATED_GROK_HEAVY,
            owned_by: "xai",
            description: Some("Team of experts — multi-agent orchestration"),
        },
        ModelObject {
            id: "grok-4-3",
            object: "model",
            created: CREATED_GROK_43,
            owned_by: "xai",
            description: Some("Grok 4.3 — early access, may require account access"),
        },
    ];
    assert(r@ =~= catalogue());
    r
}

/// The first model of `ms` with the id `id`.
pub open spec fn find_model(ms: Seq<ModelObject>, id: Seq<char>) -> Option<ModelObject>
    decreases ms.len(),
{
    if ms.len() == 0 {
        None
    } else if ms[0].id@ == id {
        Some(ms[0])
    } else {
        find_model(ms.drop_first(), id)
    }
}

/// The detail when no model has the requested id.
pub open spec fn unknown_model_detail(id: Seq<char>) -> Seq<char> {
    "Model '"@ + id + "' not found. Use GET /v1/models for available models."@
}

/// The model with the id `id`, or the not-found answer naming it.
pub fn get_model(id: &str) -> (r: Result<ModelObject, ApiError>)
    ensures
        match find_model(catalogue(), id@) {
            Some(m) => r == Ok::<ModelObject, ApiError>(m),
            None => r matches Err(e) && e@ == problem(
                "not_found"@,
                "Not Found"@,
                404,
                unknown_model_detail(id@),
            ),
        },
{
    let ms = models();
    let mut i: usize = 0;
    assert(ms@.skip(0) =~= ms@);
    while i < ms.len()
        invariant
            ms@ == catalogue(),
            i <= ms@.len(),
            find_model(catalogue(), id@) == find_model(ms@.skip(i as int), id@),
        decreases ms.len() - i,
    {
        assert(ms@.skip(i as int)[0] == ms@[i as int]);
        if str_eq(ms[i].id, id) {
            return Ok(ms[i]);
        }
        assert(ms@.skip(i as int).drop_first() =~= ms@.skip(i + 1));
        i += 1;
    }
    let mut d = "Model '".to_owned();
    d.append(id);
    d.append("' not found. Use GET /v1/models for available models.");
    Err(ApiError::not_found(d))
}

/// The mode sent upstream for a requested model: the five documented models as they are,
/// except Grok 4.3, which is sent as `grok-420-computer-use-sa`; any other model falls
/// back to `auto`.
pub open spec fn mode_for(model: Seq<char>) -> Seq<char> {
    if model == "auto"@ || model == "fast"@ || model == "expert"@ || model == "heavy"@ {
        model
    } else if model == "grok-4-3"@ {
        "grok-420-computer-use-sa"@
    } else {
        "auto"@
    }
}

/// The mode sent upstream for `model` (see [`mode_for`]).
pub fn upstream_mode(model: &str) -> (r: String)
    ensures
        r@ == mode_for(model@),
{
    if str_eq(model, "auto") || str_eq(model, "fast") || str_eq(model, "expert") || str_eq(
        model,
        "heavy",
    ) {
        model.to_owned()
    } else if str_eq(model, "grok-4-3") {
        "grok-420-computer-use-sa".to_owned()
    } else {
        "auto".to_owned()
    }
}

/// A duration as hours, minutes and seconds: `{h}h {m}m {s}s`.
pub open spec fn uptime_text(secs: u64) -> Seq<char> {
    decimal((secs / 3600) as nat) + "h "@ + decimal(((secs % 3600) / 60) as nat) + "m "@ + decimal(
        (secs % 60) as nat,
    ) + "s"@
}

/// `secs` written as hours, minutes and seconds (see [`uptime_text`]).
pub fn format_uptime(secs: u64) -> (r: String)
    ensures
        r@ == uptime_text(secs),
{
    let mut s = String::new();
    push_decimal(&mut s, secs / 3600);
    s.append("h ");
    push_decimal(&mut s, (secs % 3600) / 60);
    s.append("m ");
    push_decimal(&mut s, secs % 60);
    s.append("s");
    s
}

/// What the status endpoint reports.
#[derive(Debug, Clone, PartialEq, Eq)]
pub struct StatusReport {
    pub uptime_seconds: u64,
    pub uptime: String,
    pub session_valid: bool,
    pub challenge_loaded: bool,
    pub requests_served: u64,
    pub last_request_at: Option<u64>,
}

/// The status report: the uptime in seconds and written out, whether the session is
/// valid, whether both challenge values are configured, how many requests were served,
/// and when the last one came (absent while none has).
pub fn status_report(
    uptime_secs: u64,
    session_valid: bool,
    config: &Config,
    requests_served: u64,
    last_request_at: u64,
) -> (r: StatusReport)
    ensures
        r.uptime_seconds == uptime_secs,
        r.uptime@ == uptime_text(uptime_secs),
        r.session_valid == session_valid,
        r.challenge_loaded == (config.challenge_header_hex is Some && config.challenge_suffix is Some),
        r.requests_served == requests_served,
        r.last_request_at == if last_request_at > 0 {
            Some(last_request_at)
        } else {
            None
        },
{
    StatusReport {
        uptime_seconds: uptime_secs,
        uptime: format_uptime(uptime_secs),
        session_valid,
        challenge_loaded: config.challenge_header_hex.is_some() && config.challenge_suffix.is_some(),
        requests_served,
        last_request_at: if last_request_at > 0 {
            Some(last_request_at)
        } else {
            None
        },
    }
}

/// Whatever model is asked for, the mode sent upstream is one Grok knows.
pub proof fn law_modes_are_known(model: Seq<char>)
    ensures
        mode_for(model) == "auto"@ || mode_for(model) == "fast"@ || mode_for(model) == "expert"@
            || mode_for(model) == "heavy"@ || mode_for(model) == "grok-420-computer-use-sa"@,
{
}

/// Every model on offer is sent upstream as itself, except Grok 4.3, which is sent as
/// `grok-420-computer-use-sa`; only a model that is not on offer falls back to `auto`.
pub proof fn law_offered_models_are_sent_as_requested(model: Seq<char>)
    ensures
        find_model(catalogue(), model) is Some && model != "grok-4-3"@ ==> mode_for(model) == model,
        model == "grok-4-3"@ ==> find_model(catalogue(), model) is Some && mode_for(model)
            == "grok-420-computer-use-sa"@,
        find_model(catalogue(), model) is None ==> mode_for(model) == "auto"@,
{
    reveal_strlit("auto");
    reveal_strlit("fast");
    reveal_strlit("expert");
    reveal_strlit("heavy");
    reveal_strlit("grok-4-3");
    reveal_with_fuel(find_model, 6);
    let c = catalogue();
    assert(c[0].id@ == "auto"@);
    assert(c[1].id@ == "fast"@);
    assert(c[2].id@ == "expert"@);
    assert(c[3].id@ == "heavy"@);
    assert(c[4].id@ == "grok-4-3"@);
}

} // verus!
