//! Usage that a provider reports outside the protocol. No such report is
//! trusted yet, so every adapter contributes nothing.

use vstd::prelude::*;
use vstd::string::*;

use crate::agents::AgentRegistry;
use crate::text::same;
use crate::usage::UsageCost;

verus! {

/// `serde_json::Value`: a JSON document that is handed through unread.
#[verifier::external_type_specification]
#[verifier::external_body]
pub struct ExJsonDocument(serde_json::Value);

/// What may be read of a provider's own reports.
#[derive(Debug, Clone, Copy, PartialEq, Eq, Structural)]
pub enum PrivateUsagePolicy {
    /// The protocol's usage report is the only source for this family.
    StandardAcpOnly,
    /// There is a place for an adapter, but no private schema is trusted yet.
    Reserved,
    /// The provider's own usage is left out on purpose.
    OutOfScope,
}

/// Where a private report comes from.
#[derive(Debug, Clone, Copy)]
pub enum ProviderUsageInput<'a> {
    SessionUpdateMeta(&'a serde_json::Value),
    PromptResponseMeta(&'a serde_json::Value),
    ExtensionNotification { method: &'a str, params: &'a serde_json::Value },
    /// A response that a separate source has already fetched: adapters parse
    /// it; they never read credentials or use the network.
    ProviderApiResponse { schema_id: &'a str, body: &'a serde_json::Value },
}

/// A private report, and who made it.
#[derive(Debug, Clone, Copy)]
pub struct ProviderUsageRequest<'a> {
    pub reporter_id: Option<&'a str>,
    pub input: ProviderUsageInput<'a>,
}

/// Tokens in the context window, and its size.
#[derive(Debug, Clone, PartialEq, Eq)]
pub struct ProviderContextUsage {
    pub used: u64,
    pub size: u64,
}

/// A figure of a provider's own.
#[derive(Debug, Clone, PartialEq, Eq)]
pub struct ProviderUsageMetric {
    pub metric_id: String,
    pub value_decimal_text: String,
    pub limit_decimal_text: Option<String>,
    pub unit_id: String,
}

/// What a private report adds to the protocol's own.
#[derive(Debug, Clone, PartialEq, Eq)]
pub struct ProviderUsageContribution {
    pub context: Option<ProviderContextUsage>,
    pub cost: Option<UsageCost>,
    pub metrics: Vec<ProviderUsageMetric>,
}

impl ProviderUsageContribution {
    /// Nothing is contributed.
    pub open spec fn is_nothing(&self) -> bool {
        self.context is None && self.cost is None && self.metrics@.len() == 0
    }
}

impl Default for ProviderUsageContribution {
    fn default() -> (r: Self)
        ensures
            r.is_nothing(),
    {
        ProviderUsageContribution { context: None, cost: None, metrics: Vec::new() }
    }
}

/// Why a private report was rejected.
#[derive(Debug, Clone, PartialEq, Eq)]
pub struct ProviderUsageError {
    pub family_id: &'static str,
    pub schema_id: &'static str,
    pub class: &'static str,
}

impl ProviderUsageError {
    /// The error in words.
    pub fn to_text(&self) -> (r: String)
        ensures
            r@ == "provider usage rejected: family="@ + self.family_id@ + " schema="@
                + self.schema_id@ + " class="@ + self.class@,
    {
        let mut out = "provider usage rejected: family=".to_owned();
        out.append(self.family_id);
        out.append(" schema=");
        out.append(self.schema_id);
        out.append(" class=");
        out.append(self.class);
        out
    }
}

/// A parser of a provider's own reports. Its contribution is merged after the
/// protocol's own report.
pub trait ProviderUsageAdapter {
    /// The family the adapter belongs to.
    spec fn family(&self) -> Seq<char>;

    /// What may be read of the family's own reports.
    spec fn policy(&self) -> PrivateUsagePolicy;

    fn family_id(&self) -> (r: &'static str)
        ensures
            r@ == self.family(),
    ;

    fn private_usage_policy(&self) -> (r: PrivateUsagePolicy)
        ensures
            r == self.policy(),
    ;

    /// The reporters whose private reports are believed.
    fn trusted_reporter_ids(&self) -> (r: Vec<&'static str>);

    /// What a private report contributes.
    fn extract_private_usage(&self, request: ProviderUsageRequest<'_>) -> (r: Result<
        ProviderUsageContribution,
        ProviderUsageError,
    >);
}

/// The families of agents that are known.
#[derive(Debug, Clone, Copy, PartialEq, Eq, Structural)]
pub enum ProviderFamily {
    Copilot,
    Claude,
    Codex,
    Gemini,
    OpenCode,
}

impl ProviderFamily {
    /// The id of the family.
    pub open spec fn id(self, agents: AgentRegistry) -> Seq<char> {
        match self {
            ProviderFamily::Copilot => "copilot"@,
            ProviderFamily::Claude => agents.claude.id@,
            ProviderFamily::Codex => "codex"@,
            ProviderFamily::Gemini => "gemini"@,
            ProviderFamily::OpenCode => "opencode"@,
        }
    }

    fn id_text(self, agents: &AgentRegistry) -> (r: &'static str)
        ensures
            r@ == self.id(*agents),
    {
        match self {
            ProviderFamily::Copilot => "copilot",
            ProviderFamily::Claude => agents.claude.id,
            ProviderFamily::Codex => "codex",
            ProviderFamily::Gemini => "gemini",
            ProviderFamily::OpenCode => "opencode",
        }
    }
}

/// The adapter of a family.
#[derive(Debug, Clone, Copy, PartialEq, Eq)]
pub struct ProviderAdapter {
    pub family: ProviderFamily,
    pub id: &'static str,
}

impl ProviderAdapter {
    /// Whether this is the adapter of the family.
    pub open spec fn serves(self, family: ProviderFamily, agents: AgentRegistry) -> bool {
        self.family == family && self.id@ == family.id(agents)
    }
}

impl ProviderUsageAdapter for ProviderAdapter {
    open spec fn family(&self) -> Seq<char> {
        self.id@
    }

    open spec fn policy(&self) -> PrivateUsagePolicy {
        match self.family {
            ProviderFamily::Copilot => PrivateUsagePolicy::Reserved,
            _ => PrivateUsagePolicy::StandardAcpOnly,
        }
    }

    fn family_id(&self) -> (r: &'static str) {
        self.id
    }

    fn private_usage_policy(&self) -> (r: PrivateUsagePolicy) {
        match self.family {
            ProviderFamily::Copilot => PrivateUsagePolicy::Reserved,
            _ => PrivateUsagePolicy::StandardAcpOnly,
        }
    }

    fn trusted_reporter_ids(&self) -> (r: Vec<&'static str>)
        ensures
            r@.len() == 0,
    {
        Vec::new()
    }

    fn extract_private_usage(&self, request: ProviderUsageRequest<'_>) -> (r: Result<
        ProviderUsageContribution,
        ProviderUsageError,
    >)
        ensures
            r is Ok,
            r->Ok_0.is_nothing(),
    {
        no_verified_private_usage(request)
    }
}

/// The families of agents, in the order in which they are looked up.
pub open spec fn families() -> Seq<ProviderFamily> {
    seq![
        ProviderFamily::Copilot,
        ProviderFamily::Claude,
        ProviderFamily::Codex,
        ProviderFamily::Gemini,
        ProviderFamily::OpenCode,
    ]
}

/// The adapters of every family that is known.
pub fn all(agents: &AgentRegistry) -> (r: Vec<ProviderAdapter>)
    ensures
        r@.len() == families().len(),
        forall|i: int|
            0 <= i < families().len() ==> (#[trigger] r@[i]).serves(families()[i], *agents),
{
    let mut out: Vec<ProviderAdapter> = Vec::new();
    out.push(adapter(ProviderFamily::Copilot, agents));
    out.push(adapter(ProviderFamily::Claude, agents));
    out.push(adapter(ProviderFamily::Codex, agents));
    out.push(adapter(ProviderFamily::Gemini, agents));
    out.push(adapter(ProviderFamily::OpenCode, agents));
    out
}

fn adapter(family: ProviderFamily, agents: &AgentRegistry) -> (r: ProviderAdapter)
    ensures
        r.serves(family, *agents),
{
    ProviderAdapter { family, id: family.id_text(agents) }
}

/// The adapter of a family: none for an agent that is not known, and of several
/// with the same id the first.
pub fn lookup(family_id: &str, agents: &AgentRegistry) -> (r: Option<ProviderAdapter>)
    ensures
        match r {
            Some(a) => exists|i: int|
                0 <= i < families().len() && #[trigger] families()[i] == a.family && a.serves(
                    families()[i],
                    *agents,
                ) && a.id@ == family_id@ && forall|k: int|
                    0 <= k < i ==> (#[trigger] families()[k]).id(*agents) != family_id@,
            None => forall|i: int|
                0 <= i < families().len() ==> (#[trigger] families()[i]).id(*agents) != family_id@,
        },
{
    let known = all(agents);
    let mut i: usize = 0;
    while i < known.len()
        invariant
            i <= known.len(),
            known@.len() == families().len(),
            forall|k: int|
                0 <= k < families().len() ==> (#[trigger] known@[k]).serves(
                    families()[k],
                    *agents,
                ),
            forall|k: int| 0 <= k < i ==> (#[trigger] families()[k]).id(*agents) != family_id@,
        decreases known.len() - i,
    {
        proof {
            assert(known@[i as int].serves(families()[i as int], *agents));
        }
        if same(known[i].id, family_id) {
            return Some(known[i]);
        }
        i += 1;
    }
    None
}

/// No private report has been verified: whatever it says, it adds nothing.
pub fn no_verified_private_usage(request: ProviderUsageRequest<'_>) -> (r: Result<
    ProviderUsageContribution,
    ProviderUsageError,
>)
    ensures
        r is Ok,
        r->Ok_0.is_nothing(),
{
    Ok(ProviderUsageContribution { context: None, cost: None, metrics: Vec::new() })
}

/// No two families have the same id, where the agent whose id is left to the
/// program has one of its own.
pub proof fn law_family_ids_differ(a: ProviderFamily, b: ProviderFamily, agents: AgentRegistry)
    requires
        agents.ids_differ(),
        a.id(agents) == b.id(agents),
    ensures
        a == b,
{
    reveal_strlit("copilot");
    reveal_strlit("codex");
    reveal_strlit("gemini");
    reveal_strlit("opencode");
    assert("copilot"@[1] == 'o' && "copilot"@[2] == 'p' && "codex"@[2] == 'd');
    assert("gemini"@[0] == 'g' && "opencode"@[0] == 'o');
}

// ---------------------------------------------------------------------------
// Laws
// ---------------------------------------------------------------------------

/// Only one family has reports of its own to come; of all others only what the
/// protocol says is read.
pub proof fn law_only_one_family_is_reserved(adapter: ProviderAdapter)
    ensures
        adapter.family is Copilot ==> adapter.policy() is Reserved,
        !(adapter.family is Copilot) ==> adapter.policy() is StandardAcpOnly,
        adapter.family() == adapter.id@,
        families().len() == 5,
{
}

} // verus!
