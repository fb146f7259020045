use casbin::function_map::OperatorFunction;
use casbin::rhai::Dynamic;
use casbin::{CoreApi, DefaultModel, Enforcer, StringAdapter};
use chimitheque_back::appstate::AppState;
use chimitheque_back::authorization::{authorize, AuthorizationConfig};
use chimitheque_back::errors::AppError;
use chimitheque_back::policy::{
    is_supported_effect, verdict, Action, EnforcerPhase, PolicyEnforcer, PolicyRequest,
    PredicateBinding,
};
use chimitheque_back::predicates::{
    conclude, plan, refuse, LooseValue, Predicate, Relation, RelationalQuery, PREDICATE_COUNT,
};
use http::{HeaderMap, HeaderValue};

const MODEL: &str = "
[request_definition]
r = sub, act, obj, id

[policy_definition]
p = role, act, obj, entity

[policy_effect]
e = some(where (p.eft == allow))

[matchers]
m = r.act == p.act && r.obj == p.obj && ((p.role == \"admin\" && matchPersonIsAdmin(r.sub)) || (p.role == \"member\" && matchPersonIsInEntity(r.sub, p.entity) && matchStorageIsInEntity(r.id, p.entity)))
";

const RULES: &str = "p, admin, d, entities, 0
p, member, r, storages, 3
p, admin, unknown, entities, 0
";

const DENY_OVERRIDES_MODEL: &str = "
[request_definition]
r = sub, act, obj, id

[policy_definition]
p = role, act, obj, entity, eft

[policy_effect]
e = some(where (p.eft == allow)) && !some(where (p.eft == deny))

[matchers]
m = r.act == p.act && r.obj == p.obj && (p.role == \"anyone\" || (p.role == \"admin\" && matchPersonIsAdmin(r.sub)))
";

const DENY_OVERRIDES_RULES: &str = "p, anyone, r, entities, 0, allow
p, admin, r, entities, 0, deny
";

const UNSUPPORTED_EFFECT_MODEL: &str = "
[request_definition]
r = sub, act, obj, id

[policy_definition]
p = role, act, obj, entity

[policy_effect]
e = some(where (p.eft == deny))

[matchers]
m = r.act == p.act
";

const BROKEN_MODEL: &str = "
[request_definition]
r = sub, act, obj, id

[policy_definition]
p = role, act, obj, entity

[policy_effect]
e = some(where (p.eft == allow))

[matchers]
m = r.act == p.act && matchPersonIsAdmin(r.sub, r.id)
";

const OPERATOR_MODEL: &str = "
[request_definition]
r = sub, act, obj, id

[policy_definition]
p = role, act, obj, entity

[policy_effect]
e = some(where (p.eft == allow))

[matchers]
m = r.act == p.act && keyMatch(r.id, p.entity)
";

fn build_engine(model: &str, rules: &str) -> Enforcer {
    let runtime = tokio::runtime::Builder::new_current_thread().build().unwrap();
    runtime.block_on(async {
        let model = DefaultModel::from_str(model).await.unwrap();
        let adapter = StringAdapter::new(rules.to_string());
        Enforcer::new(model, adapter).await.unwrap()
    })
}

fn loose(value: &Dynamic) -> LooseValue {
    if let Ok(i) = value.as_int() {
        LooseValue::Int(i as i64)
    } else if value.is_string() {
        LooseValue::Text(value.clone().into_string().unwrap())
    } else {
        LooseValue::Other
    }
}

// Person 42 is an administrator. Person 5 belongs to entity 3, person 6 to
// none. Storage 8 lies in entity 3, storage 9 in none. Person 500 makes the
// store fail.
fn store(query: RelationalQuery) -> Result<bool, String> {
    if query.first == 500 {
        return Err("no connection".to_string());
    }
    Ok(match query.relation {
        Relation::PersonIsAdmin => query.first == 42,
        Relation::PersonIsInEntity => query.first == 5 && query.second == Some(3),
        Relation::StorageIsInEntity => query.first == 8 && query.second == Some(3),
        _ => false,
    })
}

fn truth(predicate: Predicate, args: Vec<LooseValue>) -> Dynamic {
    let answer = match plan(predicate, &args) {
        Ok(query) => conclude(store(query)),
        Err(failure) => refuse(failure),
    };
    answer.value.into()
}

fn product_has_storages(a: Dynamic) -> Dynamic {
    truth(Predicate::ProductHasStorages, vec![loose(&a)])
}

fn store_location_is_in_entity(a: Dynamic, b: Dynamic) -> Dynamic {
    truth(Predicate::StoreLocationIsInEntity, vec![loose(&a), loose(&b)])
}

fn storage_is_in_entity(a: Dynamic, b: Dynamic) -> Dynamic {
    truth(Predicate::StorageIsInEntity, vec![loose(&a), loose(&b)])
}

fn store_location_has_children(a: Dynamic) -> Dynamic {
    truth(Predicate::StoreLocationHasChildren, vec![loose(&a)])
}

fn store_location_has_storages(a: Dynamic) -> Dynamic {
    truth(Predicate::StoreLocationHasStorages, vec![loose(&a)])
}

fn person_is_in_entity(a: Dynamic, b: Dynamic) -> Dynamic {
    truth(Predicate::PersonIsInEntity, vec![loose(&a), loose(&b)])
}

fn person_is_admin(a: Dynamic) -> Dynamic {
    truth(Predicate::PersonIsAdmin, vec![loose(&a)])
}

fn person_is_manager(a: Dynamic) -> Dynamic {
    truth(Predicate::PersonIsManager, vec![loose(&a)])
}

fn entity_has_members(a: Dynamic) -> Dynamic {
    truth(Predicate::EntityHasMembers, vec![loose(&a)])
}

fn binding(predicate: Predicate) -> PredicateBinding {
    let function = match predicate {
        Predicate::ProductHasStorages => OperatorFunction::Arg1(product_has_storages),
        Predicate::StoreLocationIsInEntity => OperatorFunction::Arg2(store_location_is_in_entity),
        Predicate::StorageIsInEntity => OperatorFunction::Arg2(storage_is_in_entity),
        Predicate::StoreLocationHasChildren => OperatorFunction::Arg1(store_location_has_children),
        Predicate::StoreLocationHasStorages => OperatorFunction::Arg1(store_location_has_storages),
        Predicate::PersonIsInEntity => OperatorFunction::Arg2(person_is_in_entity),
        Predicate::PersonIsAdmin => OperatorFunction::Arg1(person_is_admin),
        Predicate::PersonIsManager => OperatorFunction::Arg1(person_is_manager),
        Predicate::EntityHasMembers => OperatorFunction::Arg1(entity_has_members),
    };
    PredicateBinding { predicate, function }
}

fn all_bindings() -> Vec<PredicateBinding> {
    (0..PREDICATE_COUNT).map(|i| binding(Predicate::from_index(i).unwrap())).collect()
}

fn ready_enforcer() -> PolicyEnforcer {
    let mut enforcer = PolicyEnforcer::new();
    enforcer.install_engine(build_engine(MODEL, RULES)).unwrap();
    enforcer.install_predicates(&all_bindings());
    enforcer
}

fn request(actor: &str, action: Action, resource_type: &str, resource_id: &str) -> PolicyRequest {
    PolicyRequest {
        actor_id: actor.to_string(),
        action,
        resource_type: resource_type.to_string(),
        resource_id: resource_id.to_string(),
    }
}

fn config() -> AuthorizationConfig {
    AuthorizationConfig {
        routing_prefix: String::new(),
        enforced_resource_types: vec!["entities".to_string(), "storages".to_string()],
        bypass_paths: vec!["/login".to_string()],
    }
}

fn headers_of(person_id: &str) -> HeaderMap {
    let mut headers = HeaderMap::new();
    headers.insert("chimitheque_person_id", HeaderValue::from_str(person_id).unwrap());
    headers
}

#[test]
fn new_enforcer_is_uninitialized_and_refuses() {
    let enforcer = PolicyEnforcer::new();
    assert_eq!(enforcer.phase(), EnforcerPhase::Uninitialized);
    let r = enforcer.enforce(&request("42", Action::Delete, "entities", "7"));
    assert_eq!(r, Err(AppError::CasbinEnforcerNotReady));
    let r = enforcer.authorize(&request("42", Action::Delete, "entities", "7"));
    assert_eq!(r, Err(AppError::CasbinEnforcerNotReady));
}

#[test]
fn engine_without_predicates_refuses() {
    let mut enforcer = PolicyEnforcer::new();
    enforcer.install_engine(build_engine(MODEL, RULES)).unwrap();
    assert_eq!(enforcer.phase(), EnforcerPhase::Building);
    let r = enforcer.enforce(&request("42", Action::Delete, "entities", "7"));
    assert_eq!(r, Err(AppError::CasbinEnforcerNotReady));
}

#[test]
fn engine_with_some_predicates_refuses() {
    let mut enforcer = PolicyEnforcer::new();
    enforcer.install_engine(build_engine(MODEL, RULES)).unwrap();
    let mut some = all_bindings();
    some.pop();
    enforcer.install_predicates(&some);
    assert_eq!(enforcer.phase(), EnforcerPhase::Building);
    let r = enforcer.authorize(&request("42", Action::Delete, "entities", "7"));
    assert_eq!(r, Err(AppError::CasbinEnforcerNotReady));
    enforcer.install_predicates(&vec![binding(Predicate::EntityHasMembers)]);
    assert_eq!(enforcer.phase(), EnforcerPhase::Ready);
    let r = enforcer.authorize(&request("42", Action::Delete, "entities", "7"));
    assert_eq!(r, Ok(()));
}

#[test]
fn predicates_without_engine_are_not_installed() {
    let mut enforcer = PolicyEnforcer::new();
    enforcer.install_predicates(&all_bindings());
    assert_eq!(enforcer.phase(), EnforcerPhase::Uninitialized);
    enforcer.install_engine(build_engine(MODEL, RULES)).unwrap();
    assert_eq!(enforcer.phase(), EnforcerPhase::Building);
}

#[test]
fn rebuild_asks_for_the_predicates_again() {
    let mut enforcer = ready_enforcer();
    assert_eq!(enforcer.phase(), EnforcerPhase::Ready);
    enforcer.begin_rebuild();
    assert_eq!(enforcer.phase(), EnforcerPhase::Building);
    assert_eq!(
        enforcer.enforce(&request("42", Action::Delete, "entities", "7")),
        Err(AppError::CasbinEnforcerNotReady)
    );
    enforcer.install_engine(build_engine(MODEL, RULES)).unwrap();
    assert_eq!(enforcer.phase(), EnforcerPhase::Building);
    assert_eq!(
        enforcer.enforce(&request("42", Action::Delete, "entities", "7")),
        Err(AppError::CasbinEnforcerNotReady)
    );
    enforcer.install_predicates(&all_bindings());
    assert_eq!(enforcer.phase(), EnforcerPhase::Ready);
    assert_eq!(enforcer.enforce(&request("42", Action::Delete, "entities", "7")), Ok(true));
}

#[test]
fn set_enforcer_makes_the_state_ready() {
    let mut state = AppState::new();
    assert_eq!(state.casbin_enforcer.phase(), EnforcerPhase::Uninitialized);
    state.set_enforcer(&all_bindings());
    assert_eq!(state.casbin_enforcer.phase(), EnforcerPhase::Uninitialized);
    state.casbin_enforcer.install_engine(build_engine(MODEL, RULES)).unwrap();
    state.set_enforcer(&all_bindings());
    assert_eq!(state.casbin_enforcer.phase(), EnforcerPhase::Ready);
    state.set_enforcer(&all_bindings());
    assert_eq!(state.casbin_enforcer.phase(), EnforcerPhase::Ready);
    assert_eq!(
        state.casbin_enforcer.enforce(&request("42", Action::Delete, "entities", "7")),
        Ok(true)
    );
}

#[test]
fn administrator_may_delete_an_entity() {
    let enforcer = ready_enforcer();
    assert_eq!(enforcer.enforce(&request("42", Action::Delete, "entities", "7")), Ok(true));
    assert_eq!(enforcer.authorize(&request("42", Action::Delete, "entities", "7")), Ok(()));
    assert_eq!(enforcer.enforce(&request("5", Action::Delete, "entities", "7")), Ok(false));
    assert_eq!(enforcer.enforce(&request("42", Action::Update, "entities", "7")), Ok(false));
}

#[test]
fn member_reads_only_storages_of_the_entity() {
    let enforcer = ready_enforcer();
    assert_eq!(enforcer.enforce(&request("5", Action::Read, "storages", "8")), Ok(true));
    assert_eq!(enforcer.enforce(&request("5", Action::Read, "storages", "9")), Ok(false));
    assert_eq!(enforcer.enforce(&request("6", Action::Read, "storages", "8")), Ok(false));
    assert_eq!(
        enforcer.authorize(&request("5", Action::Read, "storages", "9")),
        Err(AppError::PermissionDenied)
    );
}

#[test]
fn malformed_identifiers_are_denied_by_the_engine() {
    let enforcer = ready_enforcer();
    assert_eq!(enforcer.enforce(&request("admin", Action::Delete, "entities", "7")), Ok(false));
    assert_eq!(enforcer.enforce(&request("", Action::Delete, "entities", "7")), Ok(false));
    assert_eq!(enforcer.enforce(&request("-42", Action::Delete, "entities", "7")), Ok(false));
    assert_eq!(enforcer.enforce(&request("5", Action::Read, "storages", "eight")), Ok(false));
    assert_eq!(enforcer.enforce(&request("5", Action::Read, "storages", "")), Ok(false));
}

#[test]
fn failing_store_is_a_denial() {
    let enforcer = ready_enforcer();
    assert_eq!(enforcer.enforce(&request("500", Action::Delete, "entities", "7")), Ok(false));
}

#[test]
fn unknown_action_is_denied_whatever_the_rules() {
    let enforcer = ready_enforcer();
    assert_eq!(enforcer.enforce(&request("42", Action::Unknown, "entities", "7")), Ok(false));
    assert_eq!(
        enforcer.authorize(&request("42", Action::Unknown, "entities", "7")),
        Err(AppError::PermissionDenied)
    );
}

#[test]
fn evaluation_failure_is_an_engine_error() {
    let mut enforcer = PolicyEnforcer::new();
    enforcer.install_engine(build_engine(BROKEN_MODEL, RULES)).unwrap();
    enforcer.install_predicates(&all_bindings());
    assert_eq!(enforcer.phase(), EnforcerPhase::Ready);
    match enforcer.enforce(&request("42", Action::Delete, "entities", "7")) {
        Err(AppError::CasbinError(text)) => assert!(!text.is_empty()),
        other => panic!("{:?}", other),
    }
    match enforcer.authorize(&request("42", Action::Delete, "entities", "7")) {
        Err(e @ AppError::CasbinError(_)) => assert_eq!(e.status_code(), 500),
        other => panic!("{:?}", other),
    }
}

#[test]
fn verdict_of_each_outcome() {
    assert_eq!(verdict(Ok(true)), Ok(()));
    assert_eq!(verdict(Ok(false)), Err(AppError::PermissionDenied));
    assert_eq!(
        verdict(Err(AppError::CasbinError("x".to_string()))),
        Err(AppError::CasbinError("x".to_string()))
    );
    assert_eq!(
        verdict(Err(AppError::CasbinEnforcerNotReady)),
        Err(AppError::CasbinEnforcerNotReady)
    );
}

#[test]
fn action_codes() {
    assert_eq!(Action::Create.code(), "c");
    assert_eq!(Action::Read.code(), "r");
    assert_eq!(Action::Update.code(), "u");
    assert_eq!(Action::Delete.code(), "d");
    assert_eq!(Action::Unknown.code(), "unknown");
}

#[test]
fn scenario_administrator_deletes_entity() {
    let enforcer = ready_enforcer();
    let r = authorize(
        &enforcer,
        &config(),
        &headers_of("42"),
        "DELETE",
        "/entities/7",
        Some("7".to_string()),
    );
    assert_eq!(r, Ok(()));
}

#[test]
fn scenario_outsider_is_denied_a_storage() {
    let enforcer = ready_enforcer();
    let r = authorize(
        &enforcer,
        &config(),
        &headers_of("5"),
        "GET",
        "/storages/9",
        Some("9".to_string()),
    );
    assert_eq!(r, Err(AppError::PermissionDenied));
    let e = r.unwrap_err();
    assert_eq!(e.status_code(), 403);
    assert!(!e.is_logged());
    assert!(!e.into_response().logged);
}

#[test]
fn authorize_passes_types_that_are_not_enforced() {
    let enforcer = PolicyEnforcer::new();
    let r = authorize(&enforcer, &config(), &headers_of("6"), "DELETE", "/people/3", None);
    assert_eq!(r, Ok(()));
    let r = authorize(&enforcer, &config(), &headers_of("6"), "GET", "/", None);
    assert_eq!(r, Ok(()));
}

#[test]
fn authorize_refuses_while_the_enforcer_is_not_ready() {
    let enforcer = PolicyEnforcer::new();
    let r = authorize(
        &enforcer,
        &config(),
        &headers_of("42"),
        "DELETE",
        "/entities/7",
        Some("7".to_string()),
    );
    assert_eq!(r, Err(AppError::CasbinEnforcerNotReady));
}

#[test]
fn authorize_needs_the_person() {
    let enforcer = ready_enforcer();
    let r = authorize(&enforcer, &config(), &HeaderMap::new(), "DELETE", "/entities/7", None);
    assert_eq!(r, Err(AppError::ChimithequePersonIdHeaderMissing));
    let r = authorize(&enforcer, &config(), &headers_of("x42"), "DELETE", "/entities/7", None);
    assert_eq!(
        r,
        Err(AppError::ChimithequePersonIdHeaderInvalid("invalid digit found in string".to_string()))
    );
    let r = authorize(&enforcer, &config(), &HeaderMap::new(), "GET", "/people", None);
    assert_eq!(r, Err(AppError::ChimithequePersonIdHeaderMissing));
}

#[test]
fn authorize_denies_unknown_methods() {
    let enforcer = ready_enforcer();
    for method in ["PATCH", "OPTIONS", "delete", "", "HEAD"] {
        let r = authorize(
            &enforcer,
            &config(),
            &headers_of("42"),
            method,
            "/entities/7",
            Some("7".to_string()),
        );
        assert_eq!(r, Err(AppError::PermissionDenied));
    }
}

#[test]
fn authorize_reports_an_unusable_path() {
    let enforcer = ready_enforcer();
    let r = authorize(&enforcer, &config(), &headers_of("42"), "GET", ":x/entities", None);
    match r {
        Err(AppError::ParseURI(text)) => assert_eq!(text, "invalid port number"),
        other => panic!("{:?}", other),
    }
}

#[test]
fn engine_with_an_unsupported_effect_is_refused() {
    let mut enforcer = PolicyEnforcer::new();
    let r = enforcer.install_engine(build_engine(UNSUPPORTED_EFFECT_MODEL, RULES));
    assert_eq!(
        r,
        Err(AppError::CasbinError(
            "policy effect is not supported: some(where (p_eft == deny))".to_string()
        ))
    );
    assert_eq!(enforcer.phase(), EnforcerPhase::Uninitialized);
    assert_eq!(
        enforcer.enforce(&request("42", Action::Delete, "entities", "7")),
        Err(AppError::CasbinEnforcerNotReady)
    );
}

#[test]
fn refused_engine_leaves_a_ready_enforcer_as_it_is() {
    let mut enforcer = ready_enforcer();
    let r = enforcer.install_engine(build_engine(UNSUPPORTED_EFFECT_MODEL, RULES));
    assert!(r.is_err());
    assert_eq!(enforcer.phase(), EnforcerPhase::Ready);
    assert_eq!(enforcer.enforce(&request("42", Action::Delete, "entities", "7")), Ok(true));
}

#[test]
fn each_supported_effect_is_accepted() {
    for effect in [
        "some(where (p.eft == allow))",
        "some(where (p.eft == allow)) && !some(where (p.eft == deny))",
        "priority(p.eft) || deny",
        "!some(where (p.eft == deny))",
    ] {
        let model = DENY_OVERRIDES_MODEL.replace(
            "some(where (p.eft == allow)) && !some(where (p.eft == deny))",
            effect,
        );
        let mut enforcer = PolicyEnforcer::new();
        assert_eq!(enforcer.install_engine(build_engine(&model, DENY_OVERRIDES_RULES)), Ok(()));
        enforcer.install_predicates(&all_bindings());
        assert_eq!(enforcer.phase(), EnforcerPhase::Ready);
        assert!(enforcer.enforce(&request("5", Action::Read, "entities", "1")).is_ok());
    }
}

#[test]
fn effect_texts_that_the_engine_knows() {
    assert!(is_supported_effect("some(where (p_eft == allow))"));
    assert!(is_supported_effect("some(where (p_eft == allow)) && !some(where (p_eft == deny))"));
    assert!(is_supported_effect("priority(p_eft) || deny"));
    assert!(is_supported_effect("!some(where (p_eft == deny))"));
    assert!(!is_supported_effect("some(where (p.eft == allow))"));
    assert!(!is_supported_effect("some(where (p_eft == deny))"));
    assert!(!is_supported_effect(""));
}

#[test]
fn a_matching_deny_rule_overrides_an_allow_rule() {
    let mut enforcer = PolicyEnforcer::new();
    enforcer.install_engine(build_engine(DENY_OVERRIDES_MODEL, DENY_OVERRIDES_RULES)).unwrap();
    enforcer.install_predicates(&all_bindings());
    assert_eq!(enforcer.enforce(&request("5", Action::Read, "entities", "1")), Ok(true));
    assert_eq!(enforcer.enforce(&request("42", Action::Read, "entities", "1")), Ok(false));
    assert_eq!(enforcer.enforce(&request("5", Action::Update, "entities", "1")), Ok(false));
}

#[test]
fn request_texts_go_to_their_places() {
    let enforcer = ready_enforcer();
    assert_eq!(enforcer.enforce(&request("5", Action::Read, "storages", "8")), Ok(true));
    assert_eq!(enforcer.enforce(&request("8", Action::Read, "storages", "5")), Ok(false));
    assert_eq!(enforcer.enforce(&request("5", Action::Read, "8", "storages")), Ok(false));
}

#[test]
fn installing_predicates_keeps_the_rules() {
    let mut enforcer = PolicyEnforcer::new();
    enforcer.install_engine(build_engine(MODEL, RULES)).unwrap();
    enforcer.install_predicates(&all_bindings());
    enforcer.install_predicates(&all_bindings());
    assert_eq!(enforcer.enforce(&request("42", Action::Delete, "entities", "7")), Ok(true));
    assert_eq!(enforcer.enforce(&request("42", Action::Create, "entities", "7")), Ok(false));
}

#[test]
fn registered_function_answers_for_the_store() {
    assert_eq!(person_is_admin(Dynamic::from(42_i32)).as_bool(), Ok(true));
    assert_eq!(person_is_admin(Dynamic::from("42".to_string())).as_bool(), Ok(true));
    assert_eq!(person_is_admin(Dynamic::from(5_i32)).as_bool(), Ok(false));
    assert_eq!(person_is_admin(Dynamic::from(-42_i32)).as_bool(), Ok(false));
    assert_eq!(person_is_admin(Dynamic::from(true)).as_bool(), Ok(false));
    assert_eq!(person_is_admin(Dynamic::from(500_i32)).as_bool(), Ok(false));
}

#[test]
fn engine_whose_matcher_calls_an_operator_function_is_refused() {
    let mut enforcer = PolicyEnforcer::new();
    let r = enforcer.install_engine(build_engine(OPERATOR_MODEL, "p, admin, r, entities, a*\n"));
    assert_eq!(
        r,
        Err(AppError::CasbinError(
            "policy matcher is not supported: r_act == p_act && keyMatch(r_id, p_entity)"
                .to_string()
        ))
    );
    assert_eq!(enforcer.phase(), EnforcerPhase::Uninitialized);
    enforcer.install_predicates(&all_bindings());
    assert_eq!(
        enforcer.enforce(&request("5", Action::Read, "entities", "é")),
        Err(AppError::CasbinEnforcerNotReady)
    );
}

#[test]
fn engine_whose_matcher_computes_is_refused() {
    for matcher in [
        "r.act == p.act && 1 / 0 == 1",
        "r.act == p.act && regexMatch(r.id, p.entity)",
        "r.act == p.act && eval(p.entity)",
        "r.act == p.act && keyMatch2 (r.id, p.entity)",
        "r.act == p.act && r.id.len() == 1",
        "r.act == p.act && r.id + p.entity == r.obj",
        "r.act == p.act && [r.id] == [p.entity]",
    ] {
        let model = OPERATOR_MODEL.replace("r.act == p.act && keyMatch(r.id, p.entity)", matcher);
        let mut enforcer = PolicyEnforcer::new();
        match enforcer.install_engine(build_engine(&model, "p, admin, r, entities, 1\n")) {
            Err(AppError::CasbinError(text)) => {
                assert!(text.starts_with("policy matcher is not supported: "))
            }
            other => panic!("{}: {:?}", matcher, other),
        }
    }
}

#[test]
fn binding_with_the_wrong_number_of_arguments_is_passed_over() {
    let mut enforcer = PolicyEnforcer::new();
    enforcer.install_engine(build_engine(MODEL, RULES)).unwrap();
    let mut bindings = all_bindings();
    for b in bindings.iter_mut() {
        if b.predicate == Predicate::PersonIsAdmin {
            b.function = OperatorFunction::Arg2(person_is_in_entity);
        }
    }
    enforcer.install_predicates(&bindings);
    assert_eq!(enforcer.phase(), EnforcerPhase::Building);
    assert_eq!(
        enforcer.enforce(&request("42", Action::Delete, "entities", "7")),
        Err(AppError::CasbinEnforcerNotReady)
    );
    let wrong = PredicateBinding {
        predicate: Predicate::StorageIsInEntity,
        function: OperatorFunction::Arg1(person_is_admin),
    };
    enforcer.install_predicates(&vec![wrong]);
    assert_eq!(enforcer.phase(), EnforcerPhase::Building);
    enforcer.install_predicates(&vec![binding(Predicate::PersonIsAdmin)]);
    assert_eq!(enforcer.phase(), EnforcerPhase::Ready);
    assert_eq!(enforcer.enforce(&request("42", Action::Delete, "entities", "7")), Ok(true));
}
