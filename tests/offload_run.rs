use pg_plansplit::batch::ResultBatch;
use pg_plansplit::dispatch::{Offload, OffloadAction};
use pg_plansplit::error::ErrorCode;
use pg_plansplit::hooks::{HookChain, PlannerTarget};

fn one_cell(value: &str) -> ResultBatch {
    let mut b = ResultBatch::new(vec!["x".to_string()]);
    assert!(b.push_row(vec![Some(value.to_string())]));
    b
}

/// Drives a run, answering each statement with `answer`, and returns the
/// statements handed out and the outcomes.
fn drive(
    ctes: Vec<Result<String, ErrorCode>>,
    answer: impl Fn(&str) -> Result<ResultBatch, ErrorCode>,
) -> (Vec<String>, Vec<Result<ResultBatch, ErrorCode>>) {
    let mut run = Offload::new(ctes);
    let mut executed = vec![];
    loop {
        match run.next_action() {
            OffloadAction::Execute(sql) => {
                let out = answer(&sql);
                executed.push(sql);
                run.report(out);
            }
            OffloadAction::Finished => break,
        }
    }
    (executed, run.into_outcomes())
}

#[test]
fn empty_cte_list_runs_nothing() {
    let (executed, outcomes) = drive(vec![], |_| panic!("no statement expected"));
    assert!(executed.is_empty());
    assert!(outcomes.is_empty());
}

#[test]
fn statements_run_in_list_order() {
    let ctes = vec![Ok("SELECT 1".to_string()), Ok("SELECT 2".to_string()), Ok("SELECT 3".to_string())];
    let (executed, outcomes) = drive(ctes, |sql| Ok(one_cell(&sql[7..])));
    assert_eq!(executed, vec!["SELECT 1", "SELECT 2", "SELECT 3"]);
    assert_eq!(outcomes.len(), 3);
    assert_eq!(outcomes[2].as_ref().map(|b| b.cell(0, 0).cloned()), Ok(Some("3".to_string())));
}

#[test]
fn single_cte_select_one() {
    let (executed, outcomes) = drive(vec![Ok("SELECT 1 AS x".to_string())], |_| Ok(one_cell("1")));
    assert_eq!(executed, vec!["SELECT 1 AS x"]);
    let batch = outcomes[0].as_ref().unwrap();
    assert_eq!(batch.row_count(), 1);
    assert_eq!(batch.column_count(), 1);
    assert_eq!(batch.column_name(0), "x");
    assert_eq!(batch.cell(0, 0), Some(&"1".to_string()));
}

#[test]
fn second_cte_rejected_by_engine_does_not_stop_the_run() {
    let ctes = vec![Ok("SELECT 1 AS x".to_string()), Ok("SELECT unsupported_fn()".to_string())];
    let (executed, outcomes) = drive(ctes, |sql| {
        if sql.contains("unsupported") { Err(ErrorCode::ExecuteError) } else { Ok(one_cell("1")) }
    });
    assert_eq!(executed.len(), 2);
    assert!(outcomes[0].is_ok());
    assert_eq!(outcomes[1].as_ref().err(), Some(&ErrorCode::ExecuteError));
}

#[test]
fn failures_are_isolated_per_cte() {
    let ctes = vec![
        Ok("SELECT bad".to_string()),
        Err(ErrorCode::DeparseFailure),
        Ok("SELECT 2".to_string()),
        Ok("SELECT 3".to_string()),
    ];
    let (executed, outcomes) = drive(ctes, |sql| {
        if sql.contains("bad") { Err(ErrorCode::PrepareError) } else { Ok(one_cell("ok")) }
    });
    assert_eq!(executed, vec!["SELECT bad", "SELECT 2", "SELECT 3"]);
    assert_eq!(outcomes.len(), 4);
    assert_eq!(outcomes[0].as_ref().err(), Some(&ErrorCode::PrepareError));
    assert_eq!(outcomes[1].as_ref().err(), Some(&ErrorCode::DeparseFailure));
    assert!(outcomes[2].is_ok());
    assert!(outcomes[3].is_ok());
}

#[test]
fn batch_refuses_rows_of_the_wrong_width() {
    let mut b = ResultBatch::new(vec!["i".to_string(), "j".to_string()]);
    assert!(b.push_row(vec![Some("7".to_string()), None]));
    assert!(!b.push_row(vec![Some("1".to_string())]));
    assert_eq!(b.row_count(), 1);
    assert_eq!(b.cell(0, 1), None);
}

#[test]
fn hook_chains_to_the_displaced_hook() {
    let mut chain: HookChain<u32> = HookChain::new();
    assert!(!chain.is_installed());
    assert!(chain.install(Some(7)));
    assert!(chain.is_installed());
    assert_eq!(chain.target(), PlannerTarget::Chained(7));
    assert!(!chain.install(Some(9)));
    assert_eq!(chain.target(), PlannerTarget::Chained(7));
}

#[test]
fn hook_falls_back_to_standard_planner() {
    let mut chain: HookChain<u32> = HookChain::new();
    assert!(chain.install(None));
    assert_eq!(chain.target(), PlannerTarget::Standard);
}
