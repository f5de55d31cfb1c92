use pg_plansplit::cte::{cte_count, deparse_flag, extract_ctes, reconstruct, ListShape};
use pg_plansplit::dispatch::{Offload, OffloadAction};
use pg_plansplit::error::ErrorCode;

fn shape(length: i32, max_length: i32, has_elements: bool) -> ListShape {
    ListShape { length, max_length, has_elements }
}

#[test]
fn absent_cte_list_counts_zero() {
    assert_eq!(cte_count(None), Ok(0));
}

#[test]
fn well_formed_list_counts_its_length() {
    assert_eq!(cte_count(Some(shape(2, 4, true))), Ok(2));
    assert_eq!(cte_count(Some(shape(0, 0, false))), Ok(0));
}

#[test]
fn malformed_list_headers_are_rejected() {
    assert_eq!(cte_count(Some(shape(-1, 4, true))), Err(ErrorCode::MalformedHostStructure));
    assert_eq!(cte_count(Some(shape(5, 4, true))), Err(ErrorCode::MalformedHostStructure));
    assert_eq!(cte_count(Some(shape(1, 1, false))), Err(ErrorCode::MalformedHostStructure));
}

#[test]
fn deparse_flag_values() {
    assert_eq!(deparse_flag(true), 1);
    assert_eq!(deparse_flag(false), 0);
}

#[test]
fn reconstruct_keeps_text_and_flags_absent_result() {
    assert_eq!(reconstruct(Some("SELECT 1 AS x".to_string())), Ok("SELECT 1 AS x".to_string()));
    assert_eq!(reconstruct(None), Err(ErrorCode::DeparseFailure));
}

#[test]
fn extract_keeps_list_order_and_per_entry_failures() {
    let got = extract_ctes(
        3,
        vec![Some("SELECT 1 AS x".to_string()), None, Some("SELECT 2".to_string())],
    );
    assert_eq!(
        got,
        Ok(vec![
            Ok("SELECT 1 AS x".to_string()),
            Err(ErrorCode::DeparseFailure),
            Ok("SELECT 2".to_string()),
        ])
    );
}

#[test]
fn extract_rejects_count_mismatch() {
    let got = extract_ctes(2, vec![Some("SELECT 1".to_string())]);
    assert_eq!(got, Err(ErrorCode::MalformedHostStructure));
}

#[test]
fn extract_of_empty_list_is_empty() {
    assert_eq!(extract_ctes(0, vec![]), Ok(vec![]));
}

#[test]
fn single_cte_is_extracted_and_handed_out_verbatim() {
    let count = cte_count(Some(shape(1, 1, true))).unwrap();
    let ctes = extract_ctes(count, vec![Some("SELECT 1 AS x".to_string())]).unwrap();
    let mut run = Offload::new(ctes);
    match run.next_action() {
        OffloadAction::Execute(sql) => assert_eq!(sql, "SELECT 1 AS x"),
        OffloadAction::Finished => panic!("the CTE was not handed out"),
    }
}

#[test]
fn absent_list_yields_a_run_that_is_already_over() {
    let count = cte_count(None).unwrap();
    let ctes = extract_ctes(count, vec![]).unwrap();
    let mut run = Offload::new(ctes);
    assert!(matches!(run.next_action(), OffloadAction::Finished));
    assert!(run.into_outcomes().is_empty());
}
