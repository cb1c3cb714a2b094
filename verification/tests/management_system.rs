use payme::address::Address;
use payme::contract_states::{EmployeeRank, EmployeeStatus};
use payme::errors::ContractError;
use payme::payme_token::TokenContract;
use payme::system::EmployeeManagementContract;

fn create_token_contract(admin: &Address) -> (Address, TokenContract) {
    let name = String::from("PaymeToken");
    let symbol = String::from("PAY");
    let decimals = 18u32;

    let token_contract_id = Address::from_str("token-contract");
    let token = TokenContract::new(admin.clone(), name.clone(), symbol.clone(), decimals);

    (token_contract_id, token)
}

fn setup_test() -> (Address, Address, Address, Address, TokenContract) {
    let admin = Address::from_str("admin");
    let employee1 = Address::from_str("employee-1");
    let employee2 = Address::from_str("employee-2");
    let (token_contract, token) = create_token_contract(&admin);

    (admin, employee1, employee2, token_contract, token)
}

#[test]
fn test_initialization() {
    let (admin, _, _, token_contract, token_client) = setup_test();
    let mut mgt_client = EmployeeManagementContract::new();

    let result = mgt_client.initialize(
        admin.clone(),
        String::from("Test Institution"),
        token_contract.clone(),
    );

    assert_eq!(result, Ok(()));

    // Test that we can get institution info
    let institution_info = mgt_client.get_institution_info().unwrap();
    assert_eq!(institution_info.admin, admin);
    assert_eq!(institution_info.name, String::from("Test Institution"));
    assert_eq!(institution_info.total_employees, 0_u32);
    assert_eq!(institution_info.token_contract, token_contract);

    assert_eq!(token_client.name(), String::from("PaymeToken"));
    assert_eq!(token_client.symbol(), String::from("PAY"));
    assert_eq!(token_client.decimals(), 18u32);
}

#[test]
fn test_initialization_already_initialized() {
    let (admin, _, _, token_contract, _) = setup_test();
    let mut mgt_client = EmployeeManagementContract::new();

    // First initialization should succeed
    mgt_client
        .initialize(
            admin.clone(),
            String::from("Test Institution"),
            token_contract.clone(),
        )
        .unwrap();

    // Second initialization should fail
    let result = mgt_client.initialize(
        admin.clone(),
        String::from("Test Institution"),
        token_contract.clone(),
    );

    assert_eq!(
        result.unwrap_err(),
        ContractError::AlreadyInitialized,
        "Error should be AlreadyInitialized"
    );
}

#[test]
fn test_add_employee() {
    let (admin, employee1, _, token_contract, _) = setup_test();
    let mut mgt_client = EmployeeManagementContract::new();

    let result = mgt_client.initialize(
        admin.clone(),
        String::from("QA Institution"),
        token_contract.clone(),
    );

    assert_eq!(result, Ok(()));

    // Add employee
    let result = mgt_client.add_employee(
        &admin,
        &employee1,
        String::from("John Doe"),
        1000,
        EmployeeRank::Junior,
    );

    assert_eq!(result, Ok(()));

    // Check employee was added
    let employee = mgt_client.get_employee(&employee1).unwrap();
    assert_eq!(employee.name, String::from("John Doe"));
    assert_eq!(employee.salary, 1000);
    assert_eq!(employee.rank, EmployeeRank::Junior);
    assert_eq!(employee.status, EmployeeStatus::Active);

    // Check institution total employees updated
    let institution_info = mgt_client.get_institution_info().unwrap();
    assert_eq!(institution_info.total_employees, 1);
}

#[test]
fn test_add_employee_invalid_salary() {
    let (admin, employee1, _, token_contract, _) = setup_test();
    let mut mgt_client = EmployeeManagementContract::new();

    let result = mgt_client.initialize(
        admin.clone(),
        String::from("QA Institution"),
        token_contract.clone(),
    );

    assert_eq!(result, Ok(()));

    // Add employee
    let result = mgt_client.add_employee(
        &admin,
        &employee1,
        String::from("John Doe"),
        0,
        EmployeeRank::Junior,
    );

    assert_eq!(
        result.unwrap_err(),
        ContractError::InvalidSalary,
        "Error should be InvalidSalary"
    );
}

#[test]
fn test_add_employee_empty_name() {
    let (admin, employee1, _, token_contract, _) = setup_test();
    let mut mgt_client = EmployeeManagementContract::new();

    let result = mgt_client.initialize(
        admin.clone(),
        String::from("Quality Assurance Institution"),
        token_contract.clone(),
    );

    assert_eq!(result, Ok(()));

    // Add employee
    let result = mgt_client.add_employee(
        &admin,
        &employee1,
        String::from(""),
        1000,
        EmployeeRank::Junior,
    );

    assert_eq!(
        result.unwrap_err(),
        ContractError::InvalidName,
        "Error should be InvalidName"
    );
}

#[test]
fn test_add_employee_already_exists() {
    let (admin, employee1, _, token_contract, _) = setup_test();
    let mut mgt_client = EmployeeManagementContract::new();

    let result = mgt_client.initialize(
        admin.clone(),
        String::from("QA Institution"),
        token_contract.clone(),
    );

    assert_eq!(result, Ok(()));

    // Add first employee
    mgt_client
        .add_employee(
            &admin,
            &employee1,
            String::from("John Doe"),
            1000,
            EmployeeRank::Junior,
        )
        .unwrap();

    // Add same employee
    let result = mgt_client.add_employee(
        &admin,
        &employee1,
        String::from("John Doe"),
        1000,
        EmployeeRank::Junior,
    );

    assert_eq!(
        result.unwrap_err(),
        ContractError::EmployeeAlreadyExists,
        "Error should be EmployeeAlreadyExists"
    );
}

#[test]
fn test_remove_employee() {
    let (admin, employee1, _, token_contract, _) = setup_test();
    let mut mgt_client = EmployeeManagementContract::new();

    let result = mgt_client.initialize(
        admin.clone(),
        String::from("QA Institution"),
        token_contract.clone(),
    );

    assert_eq!(result, Ok(()));

    // Add first employee
    mgt_client
        .add_employee(
            &admin,
            &employee1,
            String::from("John Doe"),
            1000,
            EmployeeRank::Junior,
        )
        .unwrap();

    // Remove employee
    let result = mgt_client.remove_employee(&admin, &employee1);

    assert_eq!(result, Ok(()));

    let result = mgt_client.get_employee(&employee1);

    assert_eq!(
        result.unwrap_err(),
        ContractError::EmployeeNotFound,
        "Error should be EmployeeNotFound"
    );

    let institution_info = mgt_client.get_institution_info().unwrap();

    assert_eq!(institution_info.total_employees, 0);
}

#[test]
fn test_remove_employee_not_found() {
    let (admin, employee1, _, token_contract, _) = setup_test();
    let mut mgt_client = EmployeeManagementContract::new();

    let result = mgt_client.initialize(
        admin.clone(),
        String::from("QA Institution"),
        token_contract.clone(),
    );

    assert_eq!(result, Ok(()));

    // Remove employee
    let result = mgt_client.remove_employee(&admin, &employee1);

    assert_eq!(
        result.unwrap_err(),
        ContractError::EmployeeNotFound,
        "Error should be EmployeeNotFound"
    );

    let institution_info = mgt_client.get_institution_info().unwrap();

    assert_eq!(institution_info.total_employees, 0);
}

#[test]
fn test_update_employee() {
    let (admin, employee1, _, token_contract, _) = setup_test();
    let mut mgt_client = EmployeeManagementContract::new();

    let result = mgt_client.initialize(
        admin.clone(),
        String::from("QA Institution"),
        token_contract.clone(),
    );

    assert_eq!(result, Ok(()));

    // Add first employee
    mgt_client
        .add_employee(
            &admin,
            &employee1,
            String::from("John Doe"),
            1000,
            EmployeeRank::Junior,
        )
        .unwrap();

    // Update employee
    let result = mgt_client.update_employee(
        &admin,
        &employee1,
        Some(String::from("Jane Linda")),
        Some(2000),
    );

    assert_eq!(result, Ok(()));

    let employee_info = mgt_client.get_employee(&employee1).unwrap();

    assert_eq!(employee_info.name, String::from("Jane Linda"));
    assert_eq!(employee_info.salary, 2000);

    let institution_info = mgt_client.get_institution_info().unwrap();

    assert_eq!(institution_info.total_employees, 1);
}

#[test]
fn test_update_employee_not_found() {
    let (admin, employee1, _, token_contract, _) = setup_test();
    let mut mgt_client = EmployeeManagementContract::new();

    let result = mgt_client.initialize(
        admin.clone(),
        String::from("QA Institution"),
        token_contract.clone(),
    );

    assert_eq!(result, Ok(()));

    // Update employee
    let result = mgt_client.update_employee(
        &admin,
        &employee1,
        Some(String::from("Jane Linda")),
        Some(2000),
    );

    assert_eq!(
        result.unwrap_err(),
        ContractError::EmployeeNotFound,
        "Error should be EmployeeNotFound"
    );

    let institution_info = mgt_client.get_institution_info().unwrap();

    assert_eq!(institution_info.total_employees, 0);
}

#[test]
fn test_promote_employee() {
    let (admin, employee1, _, token_contract, _) = setup_test();
    let mut mgt_client = EmployeeManagementContract::new();

    let result = mgt_client.initialize(
        admin.clone(),
        String::from("QA Institution"),
        token_contract.clone(),
    );

    assert_eq!(result, Ok(()));

    // Add first employee
    mgt_client
        .add_employee(
            &admin,
            &employee1,
            String::from("John Doe"),
            1000,
            EmployeeRank::Junior,
        )
        .unwrap();

    let result = mgt_client.promote_employee(&admin, &employee1, EmployeeRank::Senior, 2000);

    assert_eq!(result, Ok(()));

    let employee_info = mgt_client.get_employee(&employee1).unwrap();

    assert_eq!(employee_info.rank, EmployeeRank::Senior);
    assert_eq!(employee_info.salary, 2000);
}

#[test]
fn test_promote_employee_same_rank() {
    let (admin, employee1, _, token_contract, _) = setup_test();
    let mut mgt_client = EmployeeManagementContract::new();

    let result = mgt_client.initialize(
        admin.clone(),
        String::from("QA Institution"),
        token_contract.clone(),
    );

    assert_eq!(result, Ok(()));

    // Add first employee
    mgt_client
        .add_employee(
            &admin,
            &employee1,
            String::from("John Doe"),
            1000,
            EmployeeRank::Junior,
        )
        .unwrap();

    let result = mgt_client.promote_employee(&admin, &employee1, EmployeeRank::Junior, 1000);

    assert_eq!(
        result.unwrap_err(),
        ContractError::SameRank,
        "Error: Same rank"
    );

    let employee_info = mgt_client.get_employee(&employee1).unwrap();

    assert_eq!(employee_info.rank, EmployeeRank::Junior);
    assert_eq!(employee_info.salary, 1000);
}
