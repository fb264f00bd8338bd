use issuer_core::instructions::{CallArg, InstructionPlan};

#[test]
fn increase_supply_plans_one_method_call() {
    let cmd = issuer_core::coin::increase_supply::Command {
        component_address: "c0ffee".to_string(),
        amount: "100".to_string(),
    };
    let plan = cmd.plan();
    assert_eq!(plan.instructions.len(), 1);
    match &plan.instructions[0] {
        InstructionPlan::CallMethod { component, method, args } => {
            assert_eq!(component, "c0ffee");
            assert_eq!(method, "increase_supply");
            assert_eq!(args.len(), 1);
            assert!(matches!(&args[0], CallArg::Text(a) if a == "100"));
        }
        _ => panic!("expected a method call"),
    }
    assert_eq!(plan.inputs, vec!["component_c0ffee".to_string()]);
}

#[test]
fn total_supply_plans_an_argumentless_call() {
    let cmd = issuer_core::coin::total_supply::Command { component_address: "aa".to_string() };
    let plan = cmd.plan();
    match &plan.instructions[0] {
        InstructionPlan::CallMethod { method, args, .. } => {
            assert_eq!(method, "total_supply");
            assert!(args.is_empty());
        }
        _ => panic!("expected a method call"),
    }
}

#[test]
fn instantiate_plans_a_template_function_call() {
    let cmd = issuer_core::coin::instantiate::Command {
        initial_token_supply: "1000".to_string(),
        token_symbol: "USD".to_string(),
        token_metadata: "meta".to_string(),
    };
    let plan = cmd.plan("feed");
    assert_eq!(plan.instructions.len(), 1);
    match &plan.instructions[0] {
        InstructionPlan::CallFunction { template, function, args } => {
            assert_eq!(template, "feed");
            assert_eq!(function, "instantiate");
            assert_eq!(args.len(), 3);
            assert!(matches!(&args[0], CallArg::Text(a) if a == "1000"));
            assert!(matches!(&args[1], CallArg::Text(a) if a == "USD"));
            assert!(matches!(&args[2], CallArg::Text(a) if a == "meta"));
        }
        _ => panic!("expected a function call"),
    }
    assert!(plan.inputs.is_empty());
}

#[test]
fn coin_deposit_plans_withdraw_park_deposit() {
    let cmd = issuer_core::coin::deposit::Command {
        component_address: "dest".to_string(),
        bucket_amount: 7,
        bucket_resource: "res".to_string(),
        bucket_withdraw_from_component: "src".to_string(),
    };
    let plan = cmd.plan();
    assert_eq!(plan.instructions.len(), 3);
    match &plan.instructions[0] {
        InstructionPlan::CallMethod { component, method, args } => {
            assert_eq!(component, "src");
            assert_eq!(method, "withdraw");
            assert!(matches!(&args[0], CallArg::Resource(a) if a == "res"));
            assert!(matches!(&args[1], CallArg::Amount(7)));
        }
        _ => panic!("expected a method call"),
    }
    assert!(matches!(
        &plan.instructions[1],
        InstructionPlan::PutLastOutputOnWorkspace { key } if key == "bucket_bucket"
    ));
    match &plan.instructions[2] {
        InstructionPlan::CallMethod { component, method, args } => {
            assert_eq!(component, "dest");
            assert_eq!(method, "deposit");
            assert!(matches!(&args[0], CallArg::Workspace(a) if a == "bucket_bucket"));
        }
        _ => panic!("expected a method call"),
    }
    assert_eq!(plan.inputs, vec!["component_dest".to_string()]);
}

#[test]
fn account_deposit_auth_badge_plans_the_badge_bucket() {
    let cmd = issuer_core::account::deposit_auth_badge::Command {
        component_address: "dest".to_string(),
        admin_proof: "proof".to_string(),
        badge_amount: 1,
        badge_resource: "res".to_string(),
        badge_withdraw_from_component: "src".to_string(),
    };
    let plan = cmd.plan();
    assert_eq!(plan.instructions.len(), 3);
    assert!(matches!(
        &plan.instructions[1],
        InstructionPlan::PutLastOutputOnWorkspace { key } if key == "bucket_badge"
    ));
    match &plan.instructions[2] {
        InstructionPlan::CallMethod { method, args, .. } => {
            assert_eq!(method, "deposit_auth_badge");
            assert!(matches!(&args[0], CallArg::Text(a) if a == "proof"));
            assert!(matches!(&args[1], CallArg::Workspace(a) if a == "bucket_badge"));
        }
        _ => panic!("expected a method call"),
    }
}

#[test]
fn account_transfer_to_plans_both_arguments() {
    let cmd = issuer_core::account::transfer_to::Command {
        component_address: "acct".to_string(),
        destination_account: "other".to_string(),
        withdraw_proof: "proof".to_string(),
    };
    let plan = cmd.plan();
    match &plan.instructions[0] {
        InstructionPlan::CallMethod { method, args, .. } => {
            assert_eq!(method, "transfer_to");
            assert!(matches!(&args[0], CallArg::Text(a) if a == "other"));
            assert!(matches!(&args[1], CallArg::Text(a) if a == "proof"));
        }
        _ => panic!("expected a method call"),
    }
    assert_eq!(plan.inputs, vec!["component_acct".to_string()]);
}
