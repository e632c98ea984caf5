use simulacra::types::{Cost, ResourceBudget};

#[test]
fn check_budget_passes_when_under_all_limits() {
    let mut budget = ResourceBudget::new(100, 10, Cost::new(250, 2), 4);
    budget.used_tokens = 99;
    budget.used_turns = 9;
    budget.used_cost = Cost::new(249, 2);
    budget.used_sub_agents = 3;

    assert!(budget.check_budget().is_ok());
}

#[test]
fn check_budget_returns_error_when_any_single_limit_is_exhausted() {
    let cases = [
        (
            "tokens",
            ResourceBudget {
                max_tokens: 100,
                max_turns: 10,
                max_cost: Cost::new(250, 2),
                max_sub_agents: 4,
                max_vfs_bytes: 0,
                used_tokens: 100,
                used_turns: 0,
                used_cost: Cost::zero(),
                used_sub_agents: 0,
                used_vfs_bytes: 0,
                max_fuel: 0,
                used_fuel: 0,
            },
        ),
        (
            "turns",
            ResourceBudget {
                max_tokens: 100,
                max_turns: 10,
                max_cost: Cost::new(250, 2),
                max_sub_agents: 4,
                max_vfs_bytes: 0,
                used_tokens: 0,
                used_turns: 10,
                used_cost: Cost::zero(),
                used_sub_agents: 0,
                used_vfs_bytes: 0,
                max_fuel: 0,
                used_fuel: 0,
            },
        ),
        (
            "cost",
            ResourceBudget {
                max_tokens: 100,
                max_turns: 10,
                max_cost: Cost::new(250, 2),
                max_sub_agents: 4,
                max_vfs_bytes: 0,
                used_tokens: 0,
                used_turns: 0,
                used_cost: Cost::new(250, 2),
                used_sub_agents: 0,
                used_vfs_bytes: 0,
                max_fuel: 0,
                used_fuel: 0,
            },
        ),
        (
            "sub_agents",
            ResourceBudget {
                max_tokens: 100,
                max_turns: 10,
                max_cost: Cost::new(250, 2),
                max_sub_agents: 4,
                max_vfs_bytes: 0,
                used_tokens: 0,
                used_turns: 0,
                used_cost: Cost::zero(),
                used_sub_agents: 4,
                used_vfs_bytes: 0,
                max_fuel: 0,
                used_fuel: 0,
            },
        ),
    ];

    for (expected_resource, budget) in cases {
        let err = budget
            .check_budget()
            .expect_err("the exhausted resource should fail the budget check");
        assert_eq!(err.resource, expected_resource);
    }
}

#[test]
fn check_budget_error_includes_resource_usage_and_limit_details() {
    let mut budget = ResourceBudget::new(100, 10, Cost::new(250, 2), 4);
    budget.used_cost = Cost::new(251, 2);

    let err = budget
        .check_budget()
        .expect_err("exhausted budgets should return structured details");

    assert_eq!(err.resource, "cost");
    assert_eq!(err.used, Cost::new(251, 2).to_string());
    assert_eq!(err.limit, Cost::new(250, 2).to_string());
}

#[test]
fn limit_zero_means_unlimited_not_already_exhausted() {
    let mut budget = ResourceBudget::new(0, 0, Cost::zero(), 0);
    budget.used_tokens = 999_999;
    budget.used_turns = 999;
    budget.used_cost = Cost::new(99999, 2);
    budget.used_sub_agents = 999;
    budget.used_vfs_bytes = 999_999;
    budget.used_fuel = 999_999;

    assert!(
        budget.check_budget().is_ok(),
        "limit of 0 should mean unlimited; high usage must not trigger exhaustion"
    );
}

#[test]
fn fuel_budget_exhausted_returns_error() {
    let mut budget = ResourceBudget::new(0, 0, Cost::zero(), 0);
    budget.max_fuel = 1000;
    budget.used_fuel = 1000;

    let err = budget
        .check_budget()
        .expect_err("fuel at limit should fail budget check");
    assert_eq!(err.resource, "fuel");
    assert_eq!(err.used, "1000");
    assert_eq!(err.limit, "1000");
}

#[test]
fn fuel_zero_means_unlimited() {
    let mut budget = ResourceBudget::new(0, 0, Cost::zero(), 0);
    budget.max_fuel = 0;
    budget.used_fuel = 999_999;

    assert!(
        budget.check_budget().is_ok(),
        "fuel limit of 0 should mean unlimited"
    );
}

#[test]
fn costs_of_different_scales_are_compared_by_worth() {
    assert!(Cost::new(250, 2).at_least(&Cost::new(25, 1)));
    assert!(Cost::new(25, 1).at_least(&Cost::new(250, 2)));
    assert!(Cost::new(251, 2).at_least(&Cost::new(25, 1)));
    assert!(!Cost::new(249, 2).at_least(&Cost::new(25, 1)));
    assert!(!Cost::new(-1, 0).at_least(&Cost::zero()));
    assert!(Cost::zero().at_least(&Cost::new(-1, 28)));
}

#[test]
fn costs_are_written_in_decimal_notation() {
    assert_eq!(Cost::new(12, 2).to_string(), "0.12");
    assert_eq!(Cost::new(250, 2).to_string(), "2.50");
    assert_eq!(Cost::new(-5, 3).to_string(), "-0.005");
    assert_eq!(Cost::new(7, 0).to_string(), "7");
    assert_eq!(Cost::new(12, 2).to_fixed(4), "0.1200");
    assert_eq!(Cost::new(1299, 3).to_fixed(2), "1.29");
    assert_eq!(Cost::zero().to_fixed(2), "0.00");
}

#[test]
fn costs_beyond_the_largest_coefficient_are_refused() {
    assert!(Cost::from_parts(79_228_162_514_264_337_593_543_950_335, 28).is_some());
    assert!(Cost::from_parts(79_228_162_514_264_337_593_543_950_336, 0).is_none());
    assert!(Cost::from_parts(1, 29).is_none());
}

#[test]
fn an_exhausted_budget_says_what_is_used_up() {
    let mut budget = ResourceBudget::new(100, 0, Cost::zero(), 0);
    budget.used_tokens = 150;
    let err = budget.check_budget().unwrap_err();
    assert_eq!(err.to_string(), "budget exhausted: tokens — used 150, limit 100");
}

#[test]
fn an_exhausted_budget_stays_exhausted() {
    let mut budget = ResourceBudget::new(100, 10, Cost::zero(), 0);
    budget.used_turns = 10;
    assert!(budget.check_budget().is_err());
    budget.used_turns = 11;
    budget.used_tokens = 50;
    assert!(budget.check_budget().is_err());
}
