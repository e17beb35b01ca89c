//! The lines the program says to its user.
//!
//! A `Phrase` is what is to be said, with its arguments; the words come from a
//! table of templates, one per phrase, in the language of the user.

use vstd::prelude::*;
use vstd::string::*;

use crate::text::views;

verus! {

/// Something to be said, independent of the language it is said in;
/// its arguments are texts of type `T`.
pub enum PhraseOf<T> {
    /// Text that needs no translation.
    Text(T),
    /// A configuration option and the value it now has.
    OptionSet { option: T, value: T },
    ModelSet { model: T },
    ConfigUpdateFailed { option: T, error: T },
    SelectionCopied,
    NothingToStop,
    NoModels,
    NoOptions,
    Restarting,
    ModelUnavailable { model: T },
    UnknownCommand { command: T },
    UnknownAgent { agent: T },
    AgentBusy,
    NoAgents,
    StoppedMaxTokens,
    StoppedMaxTurnRequests,
    StoppedRefusal,
    Reconnecting,
    Starting,
    AuthenticationFailed,
    DeviceCodePrompt { url: T, code: T },
    SignInTitle,
    AgentMissingTitle,
    CopilotAuth { agent: T },
    AgentAuth { agent: T },
    CopilotMissing { agent: T },
    AgentMissing { agent: T },
}

/// Something to be said.
pub type Phrase = PhraseOf<String>;

/// Something to be said, mathematically.
pub type PhraseView = PhraseOf<Seq<char>>;

impl View for PhraseOf<String> {
    type V = PhraseView;

    open spec fn view(&self) -> PhraseView {
        match *self {
            PhraseOf::Text(s) => PhraseOf::Text(s@),
            PhraseOf::OptionSet { option, value } => PhraseOf::OptionSet {
                option: option@,
                value: value@,
            },
            PhraseOf::ModelSet { model } => PhraseOf::ModelSet { model: model@ },
            PhraseOf::ConfigUpdateFailed { option, error } => PhraseOf::ConfigUpdateFailed {
                option: option@,
                error: error@,
            },
            PhraseOf::SelectionCopied => PhraseOf::SelectionCopied,
            PhraseOf::NothingToStop => PhraseOf::NothingToStop,
            PhraseOf::NoModels => PhraseOf::NoModels,
            PhraseOf::NoOptions => PhraseOf::NoOptions,
            PhraseOf::Restarting => PhraseOf::Restarting,
            PhraseOf::ModelUnavailable { model } => PhraseOf::ModelUnavailable { model: model@ },
            PhraseOf::UnknownCommand { command } => PhraseOf::UnknownCommand { command: command@ },
            PhraseOf::UnknownAgent { agent } => PhraseOf::UnknownAgent { agent: agent@ },
            PhraseOf::AgentBusy => PhraseOf::AgentBusy,
            PhraseOf::NoAgents => PhraseOf::NoAgents,
            PhraseOf::StoppedMaxTokens => PhraseOf::StoppedMaxTokens,
            PhraseOf::StoppedMaxTurnRequests => PhraseOf::StoppedMaxTurnRequests,
            PhraseOf::StoppedRefusal => PhraseOf::StoppedRefusal,
            PhraseOf::Reconnecting => PhraseOf::Reconnecting,
            PhraseOf::Starting => PhraseOf::Starting,
            PhraseOf::AuthenticationFailed => PhraseOf::AuthenticationFailed,
            PhraseOf::DeviceCodePrompt { url, code } => PhraseOf::DeviceCodePrompt {
                url: url@,
                code: code@,
            },
            PhraseOf::SignInTitle => PhraseOf::SignInTitle,
            PhraseOf::AgentMissingTitle => PhraseOf::AgentMissingTitle,
            PhraseOf::CopilotAuth { agent } => PhraseOf::CopilotAuth { agent: agent@ },
            PhraseOf::AgentAuth { agent } => PhraseOf::AgentAuth { agent: agent@ },
            PhraseOf::CopilotMissing { agent } => PhraseOf::CopilotMissing { agent: agent@ },
            PhraseOf::AgentMissing { agent } => PhraseOf::AgentMissing { agent: agent@ },
        }
    }
}

impl Clone for PhraseOf<String> {
    fn clone(&self) -> (r: Self)
        ensures
            r == *self,
    {
        match self {
            Phrase::Text(s) => Phrase::Text(s.clone()),
            Phrase::OptionSet { option, value } => Phrase::OptionSet {
                option: option.clone(),
                value: value.clone(),
            },
            Phrase::ModelSet { model } => Phrase::ModelSet { model: model.clone() },
            Phrase::ConfigUpdateFailed { option, error } => Phrase::ConfigUpdateFailed {
                option: option.clone(),
                error: error.clone(),
            },
            Phrase::SelectionCopied => Phrase::SelectionCopied,
            Phrase::NothingToStop => Phrase::NothingToStop,
            Phrase::NoModels => Phrase::NoModels,
            Phrase::NoOptions => Phrase::NoOptions,
            Phrase::Restarting => Phrase::Restarting,
            Phrase::ModelUnavailable { model } => Phrase::ModelUnavailable { model: model.clone() },
            Phrase::UnknownCommand { command } => Phrase::UnknownCommand { command: command.clone() },
            Phrase::UnknownAgent { agent } => Phrase::UnknownAgent { agent: agent.clone() },
            Phrase::AgentBusy => Phrase::AgentBusy,
            Phrase::NoAgents => Phrase::NoAgents,
            Phrase::StoppedMaxTokens => Phrase::StoppedMaxTokens,
            Phrase::StoppedMaxTurnRequests => Phrase::StoppedMaxTurnRequests,
            Phrase::StoppedRefusal => Phrase::StoppedRefusal,
            Phrase::Reconnecting => Phrase::Reconnecting,
            Phrase::Starting => Phrase::Starting,
            Phrase::AuthenticationFailed => Phrase::AuthenticationFailed,
            Phrase::DeviceCodePrompt { url, code } => Phrase::DeviceCodePrompt {
                url: url.clone(),
                code: code.clone(),
            },
            Phrase::SignInTitle => Phrase::SignInTitle,
            Phrase::AgentMissingTitle => Phrase::AgentMissingTitle,
            Phrase::CopilotAuth { agent } => Phrase::CopilotAuth { agent: agent.clone() },
            Phrase::AgentAuth { agent } => Phrase::AgentAuth { agent: agent.clone() },
            Phrase::CopilotMissing { agent } => Phrase::CopilotMissing { agent: agent.clone() },
            Phrase::AgentMissing { agent } => Phrase::AgentMissing { agent: agent.clone() },
        }
    }
}

/// A piece of a template: fixed words, or the place of an argument.
pub enum TemplatePart {
    Words(String),
    Argument(usize),
}

/// The words of every phrase that has to be translated.
pub struct Phrases {
    pub model_set: Vec<TemplatePart>,
    pub config_update_failed: Vec<TemplatePart>,
    pub selection_copied: Vec<TemplatePart>,
    pub nothing_to_stop: Vec<TemplatePart>,
    pub no_models: Vec<TemplatePart>,
    pub no_options: Vec<TemplatePart>,
    pub restarting: Vec<TemplatePart>,
    pub model_unavailable: Vec<TemplatePart>,
    pub unknown_command: Vec<TemplatePart>,
    pub unknown_agent: Vec<TemplatePart>,
    pub agent_busy: Vec<TemplatePart>,
    pub no_agents: Vec<TemplatePart>,
    pub stopped_max_tokens: Vec<TemplatePart>,
    pub stopped_max_turn_requests: Vec<TemplatePart>,
    pub stopped_refusal: Vec<TemplatePart>,
    pub reconnecting: Vec<TemplatePart>,
    pub starting: Vec<TemplatePart>,
    pub authentication_failed: Vec<TemplatePart>,
    pub device_code_prompt: Vec<TemplatePart>,
    pub sign_in_title: Vec<TemplatePart>,
    pub agent_missing_title: Vec<TemplatePart>,
    pub copilot_auth: Vec<TemplatePart>,
    pub agent_auth: Vec<TemplatePart>,
    pub copilot_missing: Vec<TemplatePart>,
    pub agent_missing: Vec<TemplatePart>,
}

/// What one piece of a template says; an argument that is not there says
/// nothing.
pub open spec fn part_text(part: TemplatePart, args: Seq<Seq<char>>) -> Seq<char> {
    match part {
        TemplatePart::Words(s) => s@,
        TemplatePart::Argument(i) => if i < args.len() {
            args[i as int]
        } else {
            Seq::empty()
        },
    }
}

/// A template with its arguments put in.
pub open spec fn filled(parts: Seq<TemplatePart>, args: Seq<Seq<char>>) -> Seq<char>
    decreases parts.len(),
{
    if parts.len() == 0 {
        Seq::empty()
    } else {
        filled(parts.drop_last(), args) + part_text(parts.last(), args)
    }
}

/// A template with its arguments put in.
pub fn fill(parts: &Vec<TemplatePart>, args: &Vec<String>) -> (r: String)
    ensures
        r@ == filled(parts@, views(args@)),
{
    let mut out = String::new();
    let mut i: usize = 0;
    while i < parts.len()
        invariant
            i <= parts.len(),
            out@ == filled(parts@.take(i as int), views(args@)),
        decreases parts.len() - i,
    {
        let ghost before = out@;
        match &parts[i] {
            TemplatePart::Words(s) => {
                out.append(s.as_str());
            },
            TemplatePart::Argument(k) => {
                if *k < args.len() {
                    out.append(args[*k].as_str());
                }
            },
        }
        proof {
            assert(parts@.take(i + 1).drop_last() =~= parts@.take(i as int));
            assert(out@ =~= before + part_text(parts@[i as int], views(args@)));
        }
        i += 1;
    }
    proof {
        assert(parts@.take(parts@.len() as int) =~= parts@);
    }
    out
}

impl Phrases {
    /// What a phrase says in the language of this table.
    pub open spec fn says(&self, p: PhraseView) -> Seq<char> {
        match p {
            PhraseOf::Text(s) => s,
            PhraseOf::OptionSet { option, value } => option + ": "@ + value,
            PhraseOf::ModelSet { model } => filled(self.model_set@, seq![model]),
            PhraseOf::ConfigUpdateFailed { option, error } => filled(
                self.config_update_failed@,
                seq![option, error],
            ),
            PhraseOf::SelectionCopied => filled(self.selection_copied@, seq![]),
            PhraseOf::NothingToStop => filled(self.nothing_to_stop@, seq![]),
            PhraseOf::NoModels => filled(self.no_models@, seq![]),
            PhraseOf::NoOptions => filled(self.no_options@, seq![]),
            PhraseOf::Restarting => filled(self.restarting@, seq![]),
            PhraseOf::ModelUnavailable { model } => filled(self.model_unavailable@, seq![model]),
            PhraseOf::UnknownCommand { command } => filled(self.unknown_command@, seq![command]),
            PhraseOf::UnknownAgent { agent } => filled(self.unknown_agent@, seq![agent]),
            PhraseOf::AgentBusy => filled(self.agent_busy@, seq![]),
            PhraseOf::NoAgents => filled(self.no_agents@, seq![]),
            PhraseOf::StoppedMaxTokens => filled(self.stopped_max_tokens@, seq![]),
            PhraseOf::StoppedMaxTurnRequests => filled(self.stopped_max_turn_requests@, seq![]),
            PhraseOf::StoppedRefusal => filled(self.stopped_refusal@, seq![]),
            PhraseOf::Reconnecting => filled(self.reconnecting@, seq![]),
            PhraseOf::Starting => filled(self.starting@, seq![]),
            PhraseOf::AuthenticationFailed => filled(self.authentication_failed@, seq![]),
            PhraseOf::DeviceCodePrompt { url, code } => filled(
                self.device_code_prompt@,
                seq![url, code],
            ),
            PhraseOf::SignInTitle => filled(self.sign_in_title@, seq![]),
            PhraseOf::AgentMissingTitle => filled(self.agent_missing_title@, seq![]),
            PhraseOf::CopilotAuth { agent } => filled(self.copilot_auth@, seq![agent]),
            PhraseOf::AgentAuth { agent } => filled(self.agent_auth@, seq![agent]),
            PhraseOf::CopilotMissing { agent } => filled(self.copilot_missing@, seq![agent]),
            PhraseOf::AgentMissing { agent } => filled(self.agent_missing@, seq![agent]),
        }
    }

    /// What a phrase says in the language of this table.
    pub fn text(&self, p: &Phrase) -> (r: String)
        ensures
            r@ == self.says(p@),
    {
        match p {
            Phrase::Text(s) => s.clone(),
            Phrase::OptionSet { option, value } => crate::text::cat3(
                option.as_str(),
                ": ",
                value.as_str(),
            ),
            Phrase::ModelSet { model } => fill_one(&self.model_set, model),
            Phrase::ConfigUpdateFailed { option, error } => fill_two(
                &self.config_update_failed,
                option,
                error,
            ),
            Phrase::SelectionCopied => fill_none(&self.selection_copied),
            Phrase::NothingToStop => fill_none(&self.nothing_to_stop),
            Phrase::NoModels => fill_none(&self.no_models),
            Phrase::NoOptions => fill_none(&self.no_options),
            Phrase::Restarting => fill_none(&self.restarting),
            Phrase::ModelUnavailable { model } => fill_one(&self.model_unavailable, model),
            Phrase::UnknownCommand { command } => fill_one(&self.unknown_command, command),
            Phrase::UnknownAgent { agent } => fill_one(&self.unknown_agent, agent),
            Phrase::AgentBusy => fill_none(&self.agent_busy),
            Phrase::NoAgents => fill_none(&self.no_agents),
            Phrase::StoppedMaxTokens => fill_none(&self.stopped_max_tokens),
            Phrase::StoppedMaxTurnRequests => fill_none(&self.stopped_max_turn_requests),
            Phrase::StoppedRefusal => fill_none(&self.stopped_refusal),
            Phrase::Reconnecting => fill_none(&self.reconnecting),
            Phrase::Starting => fill_none(&self.starting),
            Phrase::AuthenticationFailed => fill_none(&self.authentication_failed),
            Phrase::DeviceCodePrompt { url, code } => fill_two(&self.device_code_prompt, url, code),
            Phrase::SignInTitle => fill_none(&self.sign_in_title),
            Phrase::AgentMissingTitle => fill_none(&self.agent_missing_title),
            Phrase::CopilotAuth { agent } => fill_one(&self.copilot_auth, agent),
            Phrase::AgentAuth { agent } => fill_one(&self.agent_auth, agent),
            Phrase::CopilotMissing { agent } => fill_one(&self.copilot_missing, agent),
            Phrase::AgentMissing { agent } => fill_one(&self.agent_missing, agent),
        }
    }
}

/// A template without arguments.
pub fn fill_none(parts: &Vec<TemplatePart>) -> (r: String)
    ensures
        r@ == filled(parts@, seq![]),
{
    let args: Vec<String> = Vec::new();
    proof {
        assert(views(args@) =~= seq![]);
    }
    fill(parts, &args)
}

/// A template with its one argument put in.
pub fn fill_one(parts: &Vec<TemplatePart>, a: &String) -> (r: String)
    ensures
        r@ == filled(parts@, seq![a@]),
{
    let mut args: Vec<String> = Vec::new();
    args.push(a.clone());
    proof {
        assert(views(args@) =~= seq![a@]);
    }
    fill(parts, &args)
}

/// A template with its two arguments put in.
pub fn fill_two(parts: &Vec<TemplatePart>, a: &String, b: &String) -> (r: String)
    ensures
        r@ == filled(parts@, seq![a@, b@]),
{
    let mut args: Vec<String> = Vec::new();
    args.push(a.clone());
    args.push(b.clone());
    proof {
        assert(views(args@) =~= seq![a@, b@]);
    }
    fill(parts, &args)
}

// ---------------------------------------------------------------------------
// Laws
// ---------------------------------------------------------------------------

/// A template says its words as they stand and each argument in its place, one
/// after the other.
pub proof fn law_templates_are_filled_part_by_part(
    parts: Seq<TemplatePart>,
    words: String,
    i: usize,
    args: Seq<Seq<char>>,
)
    ensures
        filled(Seq::empty(), args) == Seq::<char>::empty(),
        filled(parts.push(TemplatePart::Words(words)), args) == filled(parts, args) + words@,
        i < args.len() ==> filled(parts.push(TemplatePart::Argument(i)), args) == filled(parts, args)
            + args[i as int],
        i >= args.len() ==> filled(parts.push(TemplatePart::Argument(i)), args) == filled(
            parts,
            args,
        ),
{
    assert(parts.push(TemplatePart::Words(words)).drop_last() =~= parts);
    assert(parts.push(TemplatePart::Argument(i)).drop_last() =~= parts);
}

/// A phrase that names something says what it names, in its own words.
pub proof fn law_phrases_say_what_they_name(p: Phrases, a: Seq<char>, b: Seq<char>)
    ensures
        p.says(PhraseOf::Text(a)) == a,
        p.says(PhraseOf::OptionSet { option: a, value: b }) == a + ": "@ + b,
        p.says(PhraseOf::ModelSet { model: a }) == filled(p.model_set@, seq![a]),
        p.says(PhraseOf::ConfigUpdateFailed { option: a, error: b }) == filled(
            p.config_update_failed@,
            seq![a, b],
        ),
        p.says(PhraseOf::ModelUnavailable { model: a }) == filled(p.model_unavailable@, seq![a]),
        p.says(PhraseOf::UnknownCommand { command: a }) == filled(p.unknown_command@, seq![a]),
        p.says(PhraseOf::UnknownAgent { agent: a }) == filled(p.unknown_agent@, seq![a]),
        p.says(PhraseOf::DeviceCodePrompt { url: a, code: b }) == filled(
            p.device_code_prompt@,
            seq![a, b],
        ),
        p.says(PhraseOf::CopilotAuth { agent: a }) == filled(p.copilot_auth@, seq![a]),
        p.says(PhraseOf::AgentAuth { agent: a }) == filled(p.agent_auth@, seq![a]),
        p.says(PhraseOf::CopilotMissing { agent: a }) == filled(p.copilot_missing@, seq![a]),
        p.says(PhraseOf::AgentMissing { agent: a }) == filled(p.agent_missing@, seq![a]),
{
}

/// A phrase without an argument is its own template.
pub proof fn law_plain_phrases_are_their_templates(p: Phrases)
    ensures
        p.says(PhraseOf::SelectionCopied) == filled(p.selection_copied@, seq![]),
        p.says(PhraseOf::NothingToStop) == filled(p.nothing_to_stop@, seq![]),
        p.says(PhraseOf::NoModels) == filled(p.no_models@, seq![]),
        p.says(PhraseOf::NoOptions) == filled(p.no_options@, seq![]),
        p.says(PhraseOf::Restarting) == filled(p.restarting@, seq![]),
        p.says(PhraseOf::AgentBusy) == filled(p.agent_busy@, seq![]),
        p.says(PhraseOf::NoAgents) == filled(p.no_agents@, seq![]),
        p.says(PhraseOf::StoppedMaxTokens) == filled(p.stopped_max_tokens@, seq![]),
        p.says(PhraseOf::StoppedMaxTurnRequests) == filled(p.stopped_max_turn_requests@, seq![]),
        p.says(PhraseOf::StoppedRefusal) == filled(p.stopped_refusal@, seq![]),
        p.says(PhraseOf::Reconnecting) == filled(p.reconnecting@, seq![]),
        p.says(PhraseOf::Starting) == filled(p.starting@, seq![]),
        p.says(PhraseOf::AuthenticationFailed) == filled(p.authentication_failed@, seq![]),
        p.says(PhraseOf::SignInTitle) == filled(p.sign_in_title@, seq![]),
        p.says(PhraseOf::AgentMissingTitle) == filled(p.agent_missing_title@, seq![]),
{
}

} // verus!
