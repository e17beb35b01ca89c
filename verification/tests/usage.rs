//! What an agent reports of its usage, and what is told of it.

use wta::agents::{AgentRegistry, KnownAgent};
use wta::hooks::CliKind;
use wta::usage::providers::{
    self, PrivateUsagePolicy, ProviderUsageAdapter, ProviderUsageContribution, ProviderUsageInput,
    ProviderUsageRequest,
};
use wta::usage::{
    normalize_standard_usage, ReportedCost, UsageContext, UsageCost, UsageProjection,
    UsageSnapshot, UsageStaleness, UsageUpdate,
};

/// The id of an agent: its name in lower case.
fn id_of(kind: CliKind) -> &'static str {
    Box::leak(format!("{kind:?}").to_lowercase().into_boxed_str())
}

fn known(kind: CliKind) -> KnownAgent {
    KnownAgent {
        id: id_of(kind),
        name: Box::leak(format!("{kind:?}").into_boxed_str()),
    }
}

fn registry() -> AgentRegistry {
    AgentRegistry {
        claude: known(CliKind::Claude),
    }
}

fn update(used: u64, size: u64) -> UsageUpdate {
    UsageUpdate {
        used,
        size,
        cost: None,
    }
}

fn update_with_cost(used: u64, size: u64, amount: f64, currency: &str) -> UsageUpdate {
    UsageUpdate {
        used,
        size,
        cost: Some(ReportedCost {
            amount_bits: amount.to_bits(),
            amount_text: amount.to_string(),
            currency: currency.to_string(),
        }),
    }
}

#[test]
fn normalizes_standard_context_and_cumulative_cost() {
    let snapshot = normalize_standard_usage(&update_with_cost(1_024, 8_192, 0.004, "USD"));

    assert_eq!(
        snapshot.context,
        Some(UsageContext {
            used: 1_024,
            size: 8_192
        })
    );
    assert_eq!(
        snapshot.cost,
        Some(UsageCost {
            amount_decimal_text: "0.004".to_string(),
            currency: "USD".to_string(),
        })
    );
}

#[test]
fn normalizes_standard_context_without_cost() {
    let snapshot = normalize_standard_usage(&update(20, 100));

    assert_eq!(
        snapshot.context,
        Some(UsageContext {
            used: 20,
            size: 100
        })
    );
    assert!(snapshot.cost.is_none());
}

#[test]
fn projects_only_context_and_cost_metrics() {
    let snapshot = UsageSnapshot {
        context: Some(UsageContext {
            used: 1_024,
            size: 8_192,
        }),
        cost: Some(UsageCost {
            amount_decimal_text: "0.004".to_string(),
            currency: "USD".to_string(),
        }),
    };

    let projection = UsageProjection::from(&snapshot);

    assert_eq!(projection.items.len(), 2);
    assert_eq!(projection.items[0].metric_id, "acp.context.window");
    assert_eq!(projection.items[1].metric_id, "acp.billing.cost");
}

#[test]
fn merges_independent_context_and_cost_snapshots() {
    let mut snapshot = normalize_standard_usage(&update(1_024, 8_192));

    snapshot.merge(UsageSnapshot {
        context: None,
        cost: Some(UsageCost {
            amount_decimal_text: "0.004".to_string(),
            currency: "USD".to_string(),
        }),
    });

    assert_eq!(
        snapshot.context,
        Some(UsageContext {
            used: 1_024,
            size: 8_192
        })
    );
    assert_eq!(snapshot.cost.expect("cost").currency, "USD");
}

#[test]
fn preserves_provider_reported_context_gauges() {
    for (used, size) in [(1, 0), (101, 100)] {
        let snapshot = normalize_standard_usage(&update(used, size));

        assert_eq!(snapshot.context, Some(UsageContext { used, size }));
    }
}

#[test]
fn omits_non_finite_or_negative_cost_without_discarding_context() {
    for amount in [f64::NAN, f64::INFINITY, f64::NEG_INFINITY, -0.01] {
        let snapshot = normalize_standard_usage(&update_with_cost(1, 100, amount, "USD"));

        assert_eq!(snapshot.context, Some(UsageContext { used: 1, size: 100 }));
        assert!(snapshot.cost.is_none());
    }
}

#[test]
fn preserves_provider_reported_currency_without_shape_policy() {
    for currency in ["US", "USDD", "usd", "US1", "U$D"] {
        let snapshot = normalize_standard_usage(&update_with_cost(1, 100, 1.0, currency));

        assert_eq!(snapshot.context, Some(UsageContext { used: 1, size: 100 }));
        assert_eq!(
            snapshot.cost,
            Some(UsageCost {
                amount_decimal_text: "1".to_string(),
                currency: currency.to_string(),
            })
        );
    }
}

#[test]
fn a_cost_of_zero_is_a_cost_unless_it_has_a_minus_sign() {
    let snapshot = normalize_standard_usage(&update_with_cost(1, 100, 0.0, "EUR"));
    assert_eq!(snapshot.cost.expect("cost").amount_decimal_text, "0");
    let snapshot = normalize_standard_usage(&update_with_cost(1, 100, -0.0, "EUR"));
    assert!(snapshot.cost.is_none());
}

#[test]
fn provider_registry_covers_every_known_agent_family() {
    let mut registered = providers::all(&registry())
        .iter()
        .map(|provider| provider.family_id())
        .collect::<Vec<_>>();
    registered.sort_unstable();

    let mut known = vec!["copilot", id_of(CliKind::Claude), "codex", "gemini", "opencode"];
    known.sort_unstable();

    assert_eq!(registered, known);
}

#[test]
fn provider_registry_declares_current_private_usage_policy() {
    assert_eq!(
        providers::lookup("copilot", &registry()).unwrap().private_usage_policy(),
        PrivateUsagePolicy::Reserved
    );
    assert_eq!(
        providers::lookup(id_of(CliKind::Claude), &registry()).unwrap().private_usage_policy(),
        PrivateUsagePolicy::StandardAcpOnly
    );
    assert_eq!(
        providers::lookup("codex", &registry()).unwrap().private_usage_policy(),
        PrivateUsagePolicy::StandardAcpOnly
    );
    assert_eq!(
        providers::lookup("gemini", &registry()).unwrap().private_usage_policy(),
        PrivateUsagePolicy::StandardAcpOnly
    );
    assert_eq!(
        providers::lookup("opencode", &registry())
            .unwrap()
            .private_usage_policy(),
        PrivateUsagePolicy::StandardAcpOnly
    );
}

fn object(key: &str, value: serde_json::Value) -> serde_json::Value {
    let mut members = serde_json::Map::new();
    members.insert(key.to_string(), value);
    serde_json::Value::Object(members)
}

#[test]
fn provider_adapters_do_not_invent_unverified_private_usage() {
    let meta = object("unverified", object("amount", serde_json::Value::from(12345)));
    let notification = object("credits", serde_json::Value::from(98765));
    let inputs = [
        ProviderUsageInput::SessionUpdateMeta(&meta),
        ProviderUsageInput::PromptResponseMeta(&meta),
        ProviderUsageInput::ExtensionNotification {
            method: "vendor/private-usage",
            params: &notification,
        },
        ProviderUsageInput::ProviderApiResponse {
            schema_id: "vendor.usage.v1",
            body: &notification,
        },
    ];

    for provider in providers::all(&registry()).iter().copied() {
        assert!(
            provider.trusted_reporter_ids().is_empty(),
            "{} must not trust a private reporter before wire verification",
            provider.family_id()
        );
        for reporter_id in [None, Some("lookalike-reporter")] {
            for input in &inputs {
                assert_eq!(
                    provider
                        .extract_private_usage(ProviderUsageRequest {
                            reporter_id,
                            input: *input,
                        })
                        .unwrap(),
                    ProviderUsageContribution::default(),
                    "{} must stay no-op until its schema is verified",
                    provider.family_id()
                );
            }
        }
    }
}

#[test]
fn unknown_or_custom_agents_have_no_private_provider_adapter() {
    assert!(providers::lookup("unknown", &registry()).is_none());
    assert!(providers::lookup("custom:npx", &registry()).is_none());
}

#[test]
fn a_report_refreshes_what_it_carries_and_nothing_else() {
    let mut staleness = UsageStaleness {
        context: false,
        cost: false,
    };
    let both = normalize_standard_usage(&update_with_cost(1, 2, 3.5, "USD"));
    staleness.mark_present_stale(&both);
    assert_eq!(
        staleness,
        UsageStaleness {
            context: true,
            cost: true
        }
    );
    staleness.mark_reported(&normalize_standard_usage(&update(1, 2)));
    assert_eq!(
        staleness,
        UsageStaleness {
            context: false,
            cost: true
        }
    );
}

#[test]
fn a_projection_carries_values_limits_units_and_staleness() {
    let snapshot = normalize_standard_usage(&update_with_cost(1_024, 8_192, 0.004, "USD"));
    let projection = UsageProjection::with_staleness(
        &snapshot,
        UsageStaleness {
            context: false,
            cost: true,
        },
    );
    let window = &projection.items[0];
    assert_eq!(window.value_decimal_text, "1024");
    assert_eq!(window.limit_decimal_text.as_deref(), Some("8192"));
    assert_eq!(window.unit_id, "token");
    assert!(!window.stale);
    let cost = &projection.items[1];
    assert_eq!(cost.value_decimal_text, "0.004");
    assert_eq!(cost.limit_decimal_text, None);
    assert_eq!(cost.unit_id, "USD");
    assert!(cost.stale);
}

#[test]
fn nothing_is_projected_of_nothing() {
    let projection = UsageProjection::from(&UsageSnapshot {
        context: None,
        cost: None,
    });
    assert!(projection.items.is_empty());
}

#[test]
fn an_error_of_a_provider_names_family_schema_and_class() {
    let error = providers::ProviderUsageError {
        family_id: "copilot",
        schema_id: "usage.v1",
        class: "malformed",
    };
    assert_eq!(
        error.to_text(),
        "provider usage rejected: family=copilot schema=usage.v1 class=malformed"
    );
}
