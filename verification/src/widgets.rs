//! Small form widgets: model and effort pickers, severity pills, tabs.

use vstd::prelude::*;

use crate::markdown::texts;
use crate::model::{Effort, ModelSpec, Provider};
use crate::text::{cat2, same_text};

verus! {

/// The id that pins the fable model of the provider whose command is `binary`.
pub open spec fn pinned_fable(binary: Seq<char>) -> Seq<char> {
    binary + "-fable-5-1"@
}

/// The model ids a provider offers, in the order of the picker; `binary` is the
/// provider's command.
pub open spec fn offered_models(p: Provider, binary: Seq<char>) -> Seq<Seq<char>> {
    match p {
        Provider::Claude => seq![
            "opus"@,
            "sonnet"@,
            "haiku"@,
            "fable"@,
            pinned_fable(binary),
        ],
        Provider::Codex => seq![
            "gpt-5.6-sol"@,
            "gpt-5.6-terra"@,
            "gpt-5.6-luna"@,
            "gpt-5.5"@,
            "gpt-5.4-mini"@,
            "gpt-5.3-codex"@,
            "gpt-5.4"@,
        ],
    }
}

pub fn models_for(provider: Provider, binary: &str) -> (r: Vec<String>)
    ensures
        texts(r@) == offered_models(provider, binary@),
{
    let mut v: Vec<String> = Vec::new();
    match provider {
        Provider::Claude => {
            v.push("opus".to_owned());
            v.push("sonnet".to_owned());
            v.push("haiku".to_owned());
            v.push("fable".to_owned());
            v.push(cat2(binary, "-fable-5-1"));
        },
        Provider::Codex => {
            v.push("gpt-5.6-sol".to_owned());
            v.push("gpt-5.6-terra".to_owned());
            v.push("gpt-5.6-luna".to_owned());
            v.push("gpt-5.5".to_owned());
            v.push("gpt-5.4-mini".to_owned());
            v.push("gpt-5.3-codex".to_owned());
            v.push("gpt-5.4".to_owned());
        },
    }
    assert(texts(v@) =~= offered_models(provider, binary@));
    v
}

/// How a model id is shown: the pinned id reads friendlier, the others as they
/// are. `binary` is the command of the provider that pins it.
pub fn model_label<'a>(model: &'a str, binary: &str) -> (r: &'a str)
    ensures
        r@ == (if model@ == pinned_fable(binary@) {
            "fable 5.1"@
        } else {
            model@
        }),
{
    let pinned = cat2(binary, "-fable-5-1");
    if same_text(model, pinned.as_str()) {
        "fable 5.1"
    } else {
        model
    }
}

/// The value a provider has in a picker, where the default one's command is
/// `binary`.
pub open spec fn provider_text(p: Provider, binary: Seq<char>) -> Seq<char> {
    match p {
        Provider::Claude => binary,
        Provider::Codex => "codex"@,
    }
}

pub open spec fn provider_of(s: Seq<char>) -> Provider {
    if s == "codex"@ {
        Provider::Codex
    } else {
        Provider::Claude
    }
}

pub fn provider_value<'a>(p: Provider, binary: &'a str) -> (r: &'a str)
    ensures
        r@ == provider_text(p, binary@),
{
    match p {
        Provider::Claude => binary,
        Provider::Codex => "codex",
    }
}

/// The provider a value stands for; anything unknown is the default one.
pub fn parse_provider(s: &str) -> (r: Provider)
    ensures
        r == provider_of(s@),
{
    if same_text(s, "codex") {
        Provider::Codex
    } else {
        Provider::Claude
    }
}

/// A provider's value reads back as that provider, as long as the two providers
/// have different commands.
pub proof fn providers_round_trip(p: Provider, binary: Seq<char>)
    requires
        binary != "codex"@,
    ensures
        provider_of(provider_text(p, binary)) == p,
{
}

/// The effort a value stands for; anything unknown is medium.
pub open spec fn effort_of(s: Seq<char>) -> Effort {
    if s == "low"@ {
        Effort::Low
    } else if s == "high"@ {
        Effort::High
    } else if s == "xhigh"@ {
        Effort::XHigh
    } else if s == "max"@ {
        Effort::Max
    } else if s == "ultra"@ {
        Effort::Ultra
    } else {
        Effort::Medium
    }
}

pub fn parse_effort(s: &str) -> (r: Effort)
    ensures
        r == effort_of(s@),
{
    if same_text(s, "low") {
        Effort::Low
    } else if same_text(s, "high") {
        Effort::High
    } else if same_text(s, "xhigh") {
        Effort::XHigh
    } else if same_text(s, "max") {
        Effort::Max
    } else if same_text(s, "ultra") {
        Effort::Ultra
    } else {
        Effort::Medium
    }
}

/// The class of a severity pill; an unrated comment has a bare one.
pub fn severity_pill_class(severity: &str) -> (r: String)
    ensures
        r@ == (if severity@.len() == 0 {
            "sev"@
        } else {
            "sev sev-"@ + severity@
        }),
{
    if severity.is_empty() {
        "sev".to_owned()
    } else {
        cat2("sev sev-", severity)
    }
}

/// Another effort for the same model.
pub fn with_effort(spec: &ModelSpec, value: &str) -> (r: ModelSpec)
    ensures
        r.model == spec.model,
        r.effort == effort_of(value@),
{
    ModelSpec { model: spec.model.clone(), effort: parse_effort(value) }
}

/// The effort to carry over to another model, before it is clamped to what that
/// model offers: medium where nothing was set, the one tier every model has.
pub fn carried_effort(spec: &Option<ModelSpec>) -> (r: Effort)
    ensures
        r == (match spec {
            Some(s) => s.effort,
            None => Effort::Medium,
        }),
{
    match spec {
        Some(s) => s.effort,
        None => Effort::Medium,
    }
}

/// Another model, with the effort clamped to it. The empty choice clears the
/// override and inherits.
pub fn picked_model(model: String, clamped: Effort) -> (r: Option<ModelSpec>)
    ensures
        r == (if model@.len() == 0 {
            None
        } else {
            Some(ModelSpec { model, effort: clamped })
        }),
{
    if model.as_str().is_empty() {
        None
    } else {
        Some(ModelSpec { model, effort: clamped })
    }
}

pub fn tab_class(i: usize, active: usize) -> (r: &'static str)
    ensures
        r@ == (if i == active {
            "settings-tab active"@
        } else {
            "settings-tab"@
        }),
{
    if i == active {
        "settings-tab active"
    } else {
        "settings-tab"
    }
}

// ---- Laws ----------------------------------------------------------------

/// Each word names its effort and no other does; every other text names the middle one.
pub proof fn words_name_their_effort(s: Seq<char>)
    ensures
        effort_of(s) is Low <==> s == "low"@,
        effort_of(s) is High <==> s == "high"@,
        effort_of(s) is XHigh <==> s == "xhigh"@,
        effort_of(s) is Max <==> s == "max"@,
        effort_of(s) is Ultra <==> s == "ultra"@,
{
    reveal_strlit("low");
    reveal_strlit("high");
    reveal_strlit("xhigh");
    reveal_strlit("max");
    reveal_strlit("ultra");
    assert("low"@.len() == 3 && "max"@.len() == 3 && "high"@.len() == 4 && "xhigh"@.len() == 5
        && "ultra"@.len() == 5);
    assert("low"@[0] == 'l' && "max"@[0] == 'm' && "xhigh"@[0] == 'x' && "ultra"@[0] == 'u');
}

/// Another effort keeps the model, and another model keeps the effort it is given; no
/// model picked is none.
pub proof fn model_and_effort_are_apart(
    spec: ModelSpec,
    value: &str,
    r: ModelSpec,
    model: String,
    effort: Effort,
    picked: Option<ModelSpec>,
)
    requires
        call_ensures(with_effort, (&spec, value), r),
        call_ensures(picked_model, (model, effort), picked),
    ensures
        r.model == spec.model,
        value@ == "high"@ ==> r.effort is High,
        picked is None <==> model@.len() == 0,
        picked matches Some(m) ==> m.model == model && m.effort == effort,
{
    words_name_their_effort(value@);
}

/// Every provider offers models, and the second one none of them twice.
pub proof fn models_are_offered_once(p: Provider, binary: Seq<char>, i: int, j: int)
    requires
        0 <= i < j < offered_models(Provider::Codex, binary).len(),
    ensures
        offered_models(p, binary).len() > 0,
        offered_models(Provider::Codex, binary)[i] != offered_models(Provider::Codex, binary)[j],
{
    reveal_strlit("gpt-5.6-sol");
    reveal_strlit("gpt-5.6-terra");
    reveal_strlit("gpt-5.6-luna");
    reveal_strlit("gpt-5.5");
    reveal_strlit("gpt-5.4-mini");
    reveal_strlit("gpt-5.3-codex");
    reveal_strlit("gpt-5.4");
    assert("gpt-5.6-sol"@.len() == 11 && "gpt-5.6-terra"@.len() == 13 && "gpt-5.6-luna"@.len() == 12
        && "gpt-5.5"@.len() == 7 && "gpt-5.4-mini"@.len() == 12 && "gpt-5.3-codex"@.len() == 13
        && "gpt-5.4"@.len() == 7);
    assert("gpt-5.6-terra"@[6] == '6' && "gpt-5.3-codex"@[6] == '3' && "gpt-5.6-luna"@[6] == '6'
        && "gpt-5.4-mini"@[6] == '4' && "gpt-5.5"@[6] == '5' && "gpt-5.4"@[6] == '4');
}

/// A model is shown by its name, the pinned one by the name it goes by; a severity has a
/// class of its own; and a spec that is not set carries the middle effort.
pub proof fn models_and_severities_are_shown(
    model: &str,
    binary: &str,
    r: &str,
    severity: &str,
    class: String,
    spec: Option<ModelSpec>,
    effort: Effort,
)
    requires
        call_ensures(model_label, (model, binary), r),
        call_ensures(severity_pill_class, (severity,), class),
        call_ensures(carried_effort, (&spec,), effort),
    ensures
        model@ != binary@ + "-fable-5-1"@ ==> r@ == model@,
        severity@.len() > 0 ==> crate::text::ends(class@, severity@),
        spec is None ==> effort is Medium,
        spec matches Some(s) ==> effort == s.effort,
{
    crate::text::parts_are_found("sev sev-"@, severity@, Seq::empty());
}

} // verus!
