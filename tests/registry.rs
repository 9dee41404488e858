use warp_controller::msg::{
    Coin, Config, ContractError, DeleteTemplateMsg, EditTemplateMsg, MessageInfo, State,
    SubmitTemplateMsg, TemplateKind,
};
use warp_controller::registry::{
    check_vars, delete_template, edit_template, has_account, has_fee, submit_template, Registry,
};

const FEE: u128 = 1_000_000;

fn registry_with(state: State) -> Registry {
    let mut r = Registry::new(
        Config { template_fee: FEE, fee_collector: "collector".to_string() },
        state,
    );
    r.register_account("alice".to_string());
    r.register_account("bob".to_string());
    r
}

fn registry() -> Registry {
    registry_with(State { current_job_id: 7, current_template_id: 0, q: 3 })
}

fn coin(denom: &str, amount: u128) -> Coin {
    Coin { denom: denom.to_string(), amount }
}

fn info(sender: &str, funds: Vec<Coin>) -> MessageInfo {
    MessageInfo { sender: sender.to_string(), funds }
}

fn paid(sender: &str) -> MessageInfo {
    info(sender, vec![coin("uluna", FEE)])
}

fn submission(name: &str, formatted_str: &str) -> SubmitTemplateMsg {
    SubmitTemplateMsg {
        name: name.to_string(),
        kind: TemplateKind::Msg,
        msg: "{\"bank\":{}}".to_string(),
        formatted_str: formatted_str.to_string(),
        vars: vec!["{\"static\":{\"name\":\"x\"}}".to_string()],
        condition: Some("{\"expr\":{}}".to_string()),
    }
}

#[test]
fn end_to_end_submit_edit_delete() {
    let mut r = registry();
    let (t, send) = submit_template(&mut r, &paid("alice"), submission("ping", "send ping")).unwrap();
    assert_eq!(t.id, 0);
    assert_eq!(t.owner, "alice");
    assert_eq!(t.name, "ping");
    assert_eq!(r.state().current_template_id, 1);
    assert_eq!(send.to_address, "collector");
    assert_eq!(send.amount.len(), 1);
    assert_eq!(send.amount[0].denom, "uluna");
    assert_eq!(send.amount[0].amount, FEE);
    assert_eq!(r.template(0).unwrap().formatted_str, "send ping");

    let e = edit_template(&mut r, &info("bob", vec![]), EditTemplateMsg { id: 0, name: Some("x".to_string()) });
    assert_eq!(e.unwrap_err(), ContractError::Unauthorized);
    assert_eq!(r.template(0).unwrap().name, "ping");

    let t2 = edit_template(&mut r, &info("alice", vec![]), EditTemplateMsg { id: 0, name: Some("pong".to_string()) }).unwrap();
    assert_eq!(t2.name, "pong");
    let stored = r.template(0).unwrap();
    assert_eq!(stored.name, "pong");
    assert_eq!(stored.owner, "alice");
    assert_eq!(stored.formatted_str, "send ping");
    assert_eq!(stored.msg, t.msg);
    assert_eq!(stored.vars, t.vars);
    assert_eq!(stored.condition, t.condition);
    assert_eq!(stored.kind, TemplateKind::Msg);

    assert_eq!(delete_template(&mut r, &info("alice", vec![]), DeleteTemplateMsg { id: 0 }), Ok(0));
    assert!(r.template(0).is_none());

    let (t3, _) = submit_template(&mut r, &paid("bob"), submission("again", "again")).unwrap();
    assert_eq!(t3.id, 1);
}

#[test]
fn ids_strictly_increase() {
    let mut r = registry();
    let mut last: Option<u64> = None;
    for i in 0..5 {
        let (t, _) = submit_template(&mut r, &paid("alice"), submission("n", "f")).unwrap();
        assert_eq!(t.id, i);
        if let Some(l) = last {
            assert!(t.id > l);
        }
        last = Some(t.id);
    }
    assert_eq!(r.state().current_template_id, 5);
}

#[test]
fn counter_saturates_and_keeps_other_fields() {
    let mut r = registry_with(State { current_job_id: 9, current_template_id: u64::MAX, q: 4 });
    let (t, _) = submit_template(&mut r, &paid("alice"), submission("n", "f")).unwrap();
    assert_eq!(t.id, u64::MAX);
    assert_eq!(r.state(), State { current_job_id: 9, current_template_id: u64::MAX, q: 4 });
}

#[test]
fn submit_keeps_job_id_and_queue() {
    let mut r = registry();
    submit_template(&mut r, &paid("alice"), submission("n", "f")).unwrap();
    assert_eq!(r.state(), State { current_job_id: 7, current_template_id: 1, q: 3 });
}

#[test]
fn fee_must_be_exact() {
    let cases = vec![
        vec![],
        vec![coin("uluna", FEE + 1)],
        vec![coin("uluna", FEE - 1)],
        vec![coin("uusd", FEE)],
        vec![coin("uusd", FEE), coin("uluna", FEE * 2)],
    ];
    for funds in cases {
        let mut r = registry();
        let e = submit_template(&mut r, &info("alice", funds), submission("n", "f"));
        assert_eq!(e.unwrap_err(), ContractError::TemplateFeeNotFound);
        assert_eq!(r.state().current_template_id, 0);
        assert!(r.template(0).is_none());
    }
    let mut r = registry();
    let funds = vec![coin("uusd", 5), coin("uluna", FEE)];
    assert!(submit_template(&mut r, &info("alice", funds), submission("n", "f")).is_ok());
}

#[test]
fn fee_checked_before_account() {
    let mut r = registry();
    let e = submit_template(&mut r, &info("carol", vec![]), submission("n", "f"));
    assert_eq!(e.unwrap_err(), ContractError::TemplateFeeNotFound);
}

#[test]
fn unregistered_account_rejected() {
    let mut r = registry();
    let e = submit_template(&mut r, &paid("carol"), submission("n", "f"));
    assert_eq!(e.unwrap_err(), ContractError::AccountDoesNotExist);
    assert_eq!(r.state().current_template_id, 0);
}

#[test]
fn name_length_bounds() {
    let mut r = registry();
    let e = submit_template(&mut r, &paid("alice"), submission(&"a".repeat(141), "f"));
    assert_eq!(e.unwrap_err(), ContractError::NameTooLong);
    let e = submit_template(&mut r, &paid("alice"), submission("", "f"));
    assert_eq!(e.unwrap_err(), ContractError::NameTooShort);
    assert_eq!(r.state().current_template_id, 0);
    let (t, _) = submit_template(&mut r, &paid("alice"), submission(&"a".repeat(140), "f")).unwrap();
    assert_eq!(t.name.len(), 140);
    let (t, _) = submit_template(&mut r, &paid("alice"), submission("a", "f")).unwrap();
    assert_eq!(t.id, 1);
}

#[test]
fn name_length_counts_characters() {
    let mut r = registry();
    assert!(submit_template(&mut r, &paid("alice"), submission(&"é".repeat(140), "f")).is_ok());
    let e = submit_template(&mut r, &paid("alice"), submission(&"é".repeat(141), "f"));
    assert_eq!(e.unwrap_err(), ContractError::NameTooLong);
}

#[test]
fn formatted_str_bounds() {
    let mut r = registry();
    let e = submit_template(&mut r, &paid("alice"), submission("n", &"f".repeat(281)));
    assert_eq!(e.unwrap_err(), ContractError::NameTooLong);
    let e = submit_template(&mut r, &paid("alice"), submission("n", ""));
    assert_eq!(e.unwrap_err(), ContractError::NameTooShort);
    assert!(submit_template(&mut r, &paid("alice"), submission("n", &"f".repeat(280))).is_ok());
}

#[test]
fn name_checked_before_formatted_str() {
    let mut r = registry();
    let e = submit_template(&mut r, &paid("alice"), submission("", &"f".repeat(281)));
    assert_eq!(e.unwrap_err(), ContractError::NameTooShort);
}

#[test]
fn edit_without_name_changes_nothing() {
    let mut r = registry();
    let (t, _) = submit_template(&mut r, &paid("alice"), submission("keep", "fs")).unwrap();
    let t2 = edit_template(&mut r, &info("alice", vec![]), EditTemplateMsg { id: 0, name: None }).unwrap();
    assert_eq!(t2.name, "keep");
    assert_eq!(t2.id, t.id);
    assert_eq!(t2.vars, t.vars);
    assert_eq!(t2.condition, t.condition);
    assert_eq!(r.template(0).unwrap().name, "keep");
}

#[test]
fn edit_errors() {
    let mut r = registry();
    let e = edit_template(&mut r, &info("alice", vec![]), EditTemplateMsg { id: 0, name: None });
    assert_eq!(e.unwrap_err(), ContractError::TemplateDoesNotExist);
    submit_template(&mut r, &paid("alice"), submission("n", "f")).unwrap();
    let e = edit_template(&mut r, &info("alice", vec![]), EditTemplateMsg { id: 0, name: Some("a".repeat(141)) });
    assert_eq!(e.unwrap_err(), ContractError::NameTooLong);
    let e = edit_template(&mut r, &info("alice", vec![]), EditTemplateMsg { id: 0, name: Some(String::new()) });
    assert_eq!(e.unwrap_err(), ContractError::NameTooShort);
    let e = edit_template(&mut r, &info("bob", vec![]), EditTemplateMsg { id: 0, name: Some(String::new()) });
    assert_eq!(e.unwrap_err(), ContractError::Unauthorized);
    assert_eq!(r.template(0).unwrap().name, "n");
}

#[test]
fn delete_errors() {
    let mut r = registry();
    let e = delete_template(&mut r, &info("alice", vec![]), DeleteTemplateMsg { id: 3 });
    assert_eq!(e, Err(ContractError::TemplateDoesNotExist));
    let e = delete_template(&mut r, &info("alice", vec![]), DeleteTemplateMsg { id: 3 });
    assert_eq!(e, Err(ContractError::TemplateDoesNotExist));
    submit_template(&mut r, &paid("alice"), submission("n", "f")).unwrap();
    let e = delete_template(&mut r, &info("bob", vec![]), DeleteTemplateMsg { id: 0 });
    assert_eq!(e, Err(ContractError::Unauthorized));
    assert!(r.template(0).is_some());
    assert_eq!(delete_template(&mut r, &info("alice", vec![]), DeleteTemplateMsg { id: 0 }), Ok(0));
    let e = delete_template(&mut r, &info("alice", vec![]), DeleteTemplateMsg { id: 0 });
    assert_eq!(e, Err(ContractError::TemplateDoesNotExist));
    assert_eq!(r.state().current_template_id, 1);
}

#[test]
fn helpers() {
    assert!(has_fee(&vec![coin("uluna", 5)], 5));
    assert!(!has_fee(&vec![coin("uluna", 5)], 6));
    assert!(!has_fee(&vec![], 0));
    assert!(has_account(&vec!["a".to_string(), "b".to_string()], &"b".to_string()));
    assert!(!has_account(&vec![], &"b".to_string()));
    assert_eq!(check_vars(&submission("n", "f")), Ok(()));
}
