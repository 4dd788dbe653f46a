use explorer_harness::explorer::{
    BlockDate, Explorer, ExplorerError, LastBlockResponse, QueryOutcome,
};
use explorer_harness::request::{QueryKind, VarValue};

fn launched(port: u16) -> Explorer {
    let (explorer, _plan, _group) = Explorer::new("10.0.0.1:8080".to_string(), None, port);
    explorer
}

#[test]
fn launch_plan_spawns_the_binary_against_the_node() {
    let (explorer, plan, group) = Explorer::new(
        "10.0.0.1:8080".to_string(),
        Some("diag".to_string()),
        3100,
    );
    assert_eq!(plan.listen_address, "127.0.0.1:3100");
    assert_eq!(
        plan.args,
        vec![
            "--node".to_string(),
            "10.0.0.1:8080".to_string(),
            "--binding-address".to_string(),
            "127.0.0.1:3100".to_string(),
            "--log-output".to_string(),
            "stdout".to_string(),
        ]
    );
    assert_eq!(plan.probe_url, "http://127.0.0.1:3100/");
    assert_eq!(plan.bootstrap.interval_ms, 1000);
    assert_eq!(plan.bootstrap.max_attempts, 10);
    assert_eq!(plan.bootstrap.attempts, 0);
    assert_eq!(group.handles, 1);
    assert!(!group.torn_down);
    assert_eq!(group.logs_dir, Some("diag".to_string()));
    assert_eq!(explorer.uri(), "http://127.0.0.1:3100/");
    assert!(explorer.print_log);
}

#[test]
fn builders_carry_kind_and_variables() {
    let e = launched(3100);

    let q = e.address("addr1qxy".to_string());
    assert_eq!(q.kind, QueryKind::Address);
    assert_eq!(q.variables.len(), 1);
    assert_eq!(q.variables[0].0, "bech32");
    assert_eq!(q.variables[0].1, VarValue::Str("addr1qxy".to_string()));

    let q = e.stake_pools(5);
    assert_eq!(q.kind, QueryKind::AllStakePools);
    assert_eq!(q.variables[0].0, "first");
    assert_eq!(q.variables[0].1, VarValue::Int(5));

    let q = e.blocks(12);
    assert_eq!(q.kind, QueryKind::AllBlocks);
    assert_eq!(q.variables[0].0, "last");
    assert_eq!(q.variables[0].1, VarValue::Int(12));

    let q = e.last_block();
    assert_eq!(q.kind, QueryKind::LastBlock);
    assert!(q.variables.is_empty());

    let q = e.blocks_at_chain_length(42);
    assert_eq!(q.kind, QueryKind::BlocksByChainLength);
    assert_eq!(q.variables[0].0, "length");
    assert_eq!(q.variables[0].1, VarValue::Str("42".to_string()));

    let q = e.epoch(3, 7);
    assert_eq!(q.kind, QueryKind::Epoch);
    assert_eq!(q.variables[0].0, "id");
    assert_eq!(q.variables[0].1, VarValue::Str("3".to_string()));
    assert_eq!(q.variables[1].0, "blocks_limit");
    assert_eq!(q.variables[1].1, VarValue::Int(7));

    let q = e.stake_pool("pool1abc".to_string(), 9);
    assert_eq!(q.kind, QueryKind::StakePool);
    assert_eq!(q.variables[0].1, VarValue::Str("pool1abc".to_string()));
    assert_eq!(q.variables[1].1, VarValue::Int(9));

    let q = e.settings();
    assert_eq!(q.kind, QueryKind::Settings);
    assert!(q.variables.is_empty());

    let q = e.vote_plans(4);
    assert_eq!(q.kind, QueryKind::AllVotePlans);
    assert_eq!(q.variables[0].1, VarValue::Int(4));

    let q = e.transaction(explorer_harness::explorer::Hash { bytes: vec![0xde, 0xad, 0xbe, 0xef] });
    assert_eq!(q.kind, QueryKind::TransactionById);
    assert_eq!(q.variables[0].0, "id");
    assert_eq!(q.variables[0].1, VarValue::Str("deadbeef".to_string()));
}

#[test]
fn run_frames_the_exact_wire_body() {
    let e = launched(3100);
    let q = e.stake_pools(5);
    let call = e.run("query sp", &q);
    assert_eq!(call.url, "http://127.0.0.1:3100/");
    assert_eq!(
        call.body,
        "{\"variables\":{\"first\":5},\"query\":\"query sp\",\"operationName\":\"AllStakePools\"}"
    );
    assert_eq!(
        call.log,
        Some("running query: AllStakePools, against: http://127.0.0.1:3100/".to_string())
    );

    let q = e.epoch(3, 7);
    let call = e.run("query ep", &q);
    assert_eq!(
        call.body,
        "{\"variables\":{\"id\":\"3\",\"blocks_limit\":7},\"query\":\"query ep\",\"operationName\":\"Epoch\"}"
    );
}

#[test]
fn body_escapes_embedded_text() {
    let e = launched(3100);
    let q = e.address("a\"b\\c\nd".to_string());
    let call = e.run("query {\n}", &q);
    assert_eq!(
        call.body,
        "{\"variables\":{\"bech32\":\"a\\\"b\\\\c\\nd\"},\"query\":\"query {\\n}\",\"operationName\":\"Address\"}"
    );
}

#[test]
fn toggling_verbose_logging_leaves_the_result_alone() {
    let mut quiet = launched(3100);
    quiet.disable_logs();
    assert!(!quiet.print_log);
    let loud = launched(3100);

    let q1 = quiet.stake_pools(5);
    let q2 = loud.stake_pools(5);
    let c1 = quiet.run("query sp", &q1);
    let c2 = loud.run("query sp", &q2);
    assert_eq!(c1.url, c2.url);
    assert_eq!(c1.body, c2.body);
    assert_eq!(c1.log, None);
    assert!(c2.log.is_some());

    let body = "{\"data\":{}}".to_string();
    let r1 = quiet.settle(QueryOutcome::Response(body.clone()));
    let r2 = loud.settle(QueryOutcome::Response(body.clone()));
    assert_eq!(r1, r2);

    let mut toggled = launched(3100);
    toggled.disable_logs();
    toggled.enable_logs();
    assert!(toggled.print_log);
    let c3 = toggled.run("query sp", &toggled.stake_pools(5));
    assert_eq!(c3.body, c2.body);
}

#[test]
fn mock_stake_pool_answer_comes_back_unchanged_and_in_order() {
    let e = launched(3100);
    let q = e.stake_pools(5);
    let call = e.run("query sp", &q);
    assert!(call.body.contains("\"first\":5"));

    // A mock service answers the limit-5 query with three pools.
    let mock_body = "{\"data\":{\"allStakePools\":{\"edges\":[\
        {\"node\":{\"id\":\"pool-one\"}},\
        {\"node\":{\"id\":\"pool-two\"}},\
        {\"node\":{\"id\":\"pool-three\"}}]}}}"
        .to_string();
    let settled = e.settle(QueryOutcome::Response(mock_body.clone()));
    let body = settled.expect("an answered call settles as success");
    assert_eq!(body, mock_body);
    assert_eq!(body.matches("\"id\":").count(), 3);
    let one = body.find("pool-one").unwrap();
    let two = body.find("pool-two").unwrap();
    let three = body.find("pool-three").unwrap();
    assert!(one < two && two < three);
}

#[test]
fn each_failure_settles_as_its_own_error_kind() {
    let e = launched(3100);
    assert_eq!(
        e.settle(QueryOutcome::ConnectionFailed("refused".to_string())),
        Err(ExplorerError::ClientError("refused".to_string()))
    );
    assert_eq!(
        e.settle(QueryOutcome::HttpFailed("status 500".to_string())),
        Err(ExplorerError::ReqwestError("status 500".to_string()))
    );
    assert_eq!(
        e.settle(QueryOutcome::InvalidBody("not json".to_string())),
        Err(ExplorerError::SerializationError("not json".to_string()))
    );
}

#[test]
fn current_time_reads_the_last_block_date() {
    let e = launched(3100);
    let q = e.last_block();
    assert_eq!(q.kind, QueryKind::LastBlock);
    let decoded = LastBlockResponse::new(BlockDate { epoch: 11, slot: 97 });
    assert_eq!(decoded.block_date(), BlockDate { epoch: 11, slot: 97 });
    assert_eq!(e.current_time(&decoded), BlockDate { epoch: 11, slot: 97 });
}

#[test]
fn response_log_follows_the_flag() {
    let mut e = launched(3100);
    assert_eq!(
        e.response_log("{\"data\":{}}"),
        Some("Response: {\"data\":{}}".to_string())
    );
    e.disable_logs();
    assert_eq!(e.response_log("{\"data\":{}}"), None);
    assert_eq!(e.print_request(&e.settings()), None);
}
