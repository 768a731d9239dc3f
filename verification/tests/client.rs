use nft_marketplace::chain::{AccountAddress, Address, Amount, ContractAddress};
use nft_marketplace::cis2_client::{
    Cis2Client, ContractCall, InvokeOutcome, BALANCE_OF_ENTRYPOINT_NAME, CIS2_STANDARD_IDENTIFIER,
    MINIMUM_BALANCE, OPERATOR_OF_ENTRYPOINT_NAME, SUPPORTS_ENTRYPOINT_NAME,
    TRANSFER_ENTRYPOINT_NAME,
};
use nft_marketplace::cis2_types::{Receiver, SupportResult};
use nft_marketplace::cis2_wire::has_short_amounts;
use nft_marketplace::errors::Cis2ClientError;

fn token_contract() -> ContractAddress {
    ContractAddress { index: 0x0102, subindex: 3 }
}

fn token_contract_bytes() -> Vec<u8> {
    vec![0x02, 0x01, 0, 0, 0, 0, 0, 0, 3, 0, 0, 0, 0, 0, 0, 0]
}

fn returned(bytes: &[u8]) -> InvokeOutcome {
    InvokeOutcome::ReturnValue(bytes.to_vec())
}

fn invoke_error() -> Result<bool, Cis2ClientError> {
    Err(Cis2ClientError::InvokeContractError)
}

fn parse_error() -> Result<bool, Cis2ClientError> {
    Err(Cis2ClientError::ParseResult)
}

#[test]
fn names_of_the_protocol() {
    assert_eq!(SUPPORTS_ENTRYPOINT_NAME, "supports");
    assert_eq!(OPERATOR_OF_ENTRYPOINT_NAME, "operatorOf");
    assert_eq!(BALANCE_OF_ENTRYPOINT_NAME, "balanceOf");
    assert_eq!(TRANSFER_ENTRYPOINT_NAME, "transfer");
    assert_eq!(CIS2_STANDARD_IDENTIFIER, "CIS-2");
    assert_eq!(MINIMUM_BALANCE, 1);
}

#[test]
fn supports_call_asks_for_the_standard() {
    let call = Cis2Client::supports_cis2_call(&token_contract());
    assert_eq!(
        call,
        ContractCall {
            contract: token_contract(),
            entrypoint: "supports",
            parameter: vec![1, 0, 5, b'C', b'I', b'S', b'-', b'2'],
            amount: Amount { micro_ccd: 0 },
        }
    );
}

#[test]
fn operator_call_names_owner_and_marketplace() {
    let owner = Address::Account(AccountAddress([7u8; 32]));
    let marketplace = ContractAddress { index: 9, subindex: 1 };
    let call = Cis2Client::is_operator_of_call(owner, marketplace, &token_contract());
    let mut parameter = vec![1u8, 0, 0];
    parameter.extend_from_slice(&[7u8; 32]);
    parameter.push(1);
    parameter.extend_from_slice(&[9, 0, 0, 0, 0, 0, 0, 0, 1, 0, 0, 0, 0, 0, 0, 0]);
    assert_eq!(call.contract, token_contract());
    assert_eq!(call.entrypoint, "operatorOf");
    assert_eq!(call.amount, Amount { micro_ccd: 0 });
    assert_eq!(call.parameter, parameter);
}

#[test]
fn operator_call_with_a_contract_as_owner() {
    let owner = Address::Contract(token_contract());
    let marketplace = ContractAddress { index: 9, subindex: 1 };
    let call = Cis2Client::is_operator_of_call(owner, marketplace, &token_contract());
    let mut parameter = vec![1u8, 0, 1];
    parameter.extend_from_slice(&token_contract_bytes());
    parameter.push(1);
    parameter.extend_from_slice(&[9, 0, 0, 0, 0, 0, 0, 0, 1, 0, 0, 0, 0, 0, 0, 0]);
    assert_eq!(call.parameter, parameter);
}

#[test]
fn balance_call_names_token_and_owner() {
    let owner = Address::Account(AccountAddress([0xAB; 32]));
    let call = Cis2Client::has_balance_call(0x0A0B0C0D, &token_contract(), owner);
    let mut parameter = vec![1u8, 0, 4, 0x0D, 0x0C, 0x0B, 0x0A, 0];
    parameter.extend_from_slice(&[0xAB; 32]);
    assert_eq!(call.contract, token_contract());
    assert_eq!(call.entrypoint, "balanceOf");
    assert_eq!(call.amount, Amount { micro_ccd: 0 });
    assert_eq!(call.parameter, parameter);
}

#[test]
fn transfer_call_to_an_account() {
    let from = AccountAddress([1u8; 32]);
    let to = Receiver::Account(AccountAddress([2u8; 32]));
    let call = Cis2Client::transfer_call(7, token_contract(), 1, from, to);
    let mut parameter = vec![1u8, 0, 4, 7, 0, 0, 0, 1, 0];
    parameter.extend_from_slice(&[1u8; 32]);
    parameter.push(0);
    parameter.extend_from_slice(&[2u8; 32]);
    parameter.extend_from_slice(&[0, 0]);
    assert_eq!(call.contract, token_contract());
    assert_eq!(call.entrypoint, "transfer");
    assert_eq!(call.amount, Amount { micro_ccd: 0 });
    assert_eq!(call.parameter, parameter);
}

#[test]
fn transfer_call_to_a_contract() {
    let from = AccountAddress([1u8; 32]);
    let to = Receiver::Contract(ContractAddress { index: 5, subindex: 6 }, "onReceive".to_string());
    let call = Cis2Client::transfer_call(u32::MAX, token_contract(), 200, from, to);
    let mut parameter = vec![1u8, 0, 4, 255, 255, 255, 255, 0xC8, 0x01, 0];
    parameter.extend_from_slice(&[1u8; 32]);
    parameter.push(1);
    parameter.extend_from_slice(&[5, 0, 0, 0, 0, 0, 0, 0, 6, 0, 0, 0, 0, 0, 0, 0]);
    parameter.extend_from_slice(&[9, 0]);
    parameter.extend_from_slice(b"onReceive");
    parameter.extend_from_slice(&[0, 0]);
    assert_eq!(call.entrypoint, "transfer");
    assert_eq!(call.parameter, parameter);
}

#[test]
fn a_failed_call_is_an_invocation_error() {
    assert_eq!(Cis2Client::supports_cis2(&InvokeOutcome::Failed), invoke_error());
    assert_eq!(Cis2Client::is_operator_of(&InvokeOutcome::Failed), invoke_error());
    assert_eq!(Cis2Client::has_balance(&InvokeOutcome::Failed), invoke_error());
    assert_eq!(Cis2Client::transfer(&InvokeOutcome::Failed), invoke_error());
}

#[test]
fn a_call_without_return_value_is_an_invocation_error() {
    assert_eq!(Cis2Client::supports_cis2(&InvokeOutcome::NoReturnValue), invoke_error());
    assert_eq!(Cis2Client::is_operator_of(&InvokeOutcome::NoReturnValue), invoke_error());
    assert_eq!(Cis2Client::has_balance(&InvokeOutcome::NoReturnValue), invoke_error());
    assert_eq!(Cis2Client::transfer(&InvokeOutcome::NoReturnValue), invoke_error());
}

#[test]
fn an_empty_return_value_is_a_parse_error() {
    assert_eq!(Cis2Client::supports_cis2(&returned(&[])), parse_error());
    assert_eq!(Cis2Client::is_operator_of(&returned(&[])), parse_error());
    assert_eq!(Cis2Client::has_balance(&returned(&[])), parse_error());
}

#[test]
fn an_empty_list_of_results_is_an_invocation_error() {
    assert_eq!(Cis2Client::supports_cis2(&returned(&[0, 0])), invoke_error());
    assert_eq!(Cis2Client::is_operator_of(&returned(&[0, 0])), invoke_error());
    assert_eq!(Cis2Client::has_balance(&returned(&[0, 0])), invoke_error());
}

#[test]
fn empty_balance_list_gives_invoke_error() {
    assert_eq!(
        Cis2Client::has_balance(&InvokeOutcome::ReturnValue(vec![0, 0])),
        Err(Cis2ClientError::InvokeContractError)
    );
    assert_eq!(Cis2Client::balance_from_results(&vec![], 1), Err(Cis2ClientError::InvokeContractError));
}

#[test]
fn only_direct_support_counts() {
    assert_eq!(Cis2Client::supports_cis2(&returned(&[1, 0, 0])), Ok(false));
    assert_eq!(Cis2Client::supports_cis2(&returned(&[1, 0, 1])), Ok(true));
    assert_eq!(Cis2Client::supports_cis2(&returned(&[1, 0, 2, 0])), Ok(false));
    let mut by_other = vec![1u8, 0, 2, 1];
    by_other.extend_from_slice(&token_contract_bytes());
    assert_eq!(Cis2Client::supports_cis2(&returned(&by_other)), Ok(false));
}

#[test]
fn first_support_result_counts() {
    assert_eq!(Cis2Client::supports_cis2(&returned(&[2, 0, 1, 0])), Ok(true));
    assert_eq!(Cis2Client::supports_cis2(&returned(&[2, 0, 0, 1])), Ok(false));
    assert_eq!(Cis2Client::supports_cis2(&returned(&[3, 0, 2, 0, 1, 1])), Ok(false));
}

#[test]
fn malformed_support_response_is_a_parse_error() {
    assert_eq!(Cis2Client::supports_cis2(&returned(&[1])), parse_error());
    assert_eq!(Cis2Client::supports_cis2(&returned(&[1, 0])), parse_error());
    assert_eq!(Cis2Client::supports_cis2(&returned(&[1, 0, 3])), parse_error());
    assert_eq!(Cis2Client::supports_cis2(&returned(&[2, 0, 1])), parse_error());
    assert_eq!(Cis2Client::supports_cis2(&returned(&[1, 0, 2, 1, 0, 0])), parse_error());
}

#[test]
fn support_results_decide_without_a_call() {
    assert_eq!(Cis2Client::supports_from_results(&vec![]), invoke_error());
    assert_eq!(Cis2Client::supports_from_results(&vec![SupportResult::NoSupport]), Ok(false));
    assert_eq!(Cis2Client::supports_from_results(&vec![SupportResult::Support]), Ok(true));
    assert_eq!(
        Cis2Client::supports_from_results(&vec![SupportResult::SupportBy(vec![token_contract()])]),
        Ok(false)
    );
    assert_eq!(
        Cis2Client::supports_from_results(&vec![SupportResult::SupportBy(vec![])]),
        Ok(false)
    );
    assert_eq!(
        Cis2Client::supports_from_results(&vec![SupportResult::NoSupport, SupportResult::Support]),
        Ok(false)
    );
    assert_eq!(
        Cis2Client::supports_from_results(&vec![SupportResult::Support, SupportResult::NoSupport]),
        Ok(true)
    );
}

#[test]
fn operator_answer_is_the_first_result() {
    assert_eq!(Cis2Client::is_operator_of(&returned(&[1, 0, 1])), Ok(true));
    assert_eq!(Cis2Client::is_operator_of(&returned(&[1, 0, 0])), Ok(false));
    assert_eq!(Cis2Client::is_operator_of(&returned(&[2, 0, 0, 1])), Ok(false));
    assert_eq!(Cis2Client::is_operator_of(&returned(&[2, 0, 1, 0])), Ok(true));
}

#[test]
fn malformed_operator_response_is_a_parse_error() {
    assert_eq!(Cis2Client::is_operator_of(&returned(&[1, 0])), parse_error());
    assert_eq!(Cis2Client::is_operator_of(&returned(&[1, 0, 2])), parse_error());
    assert_eq!(Cis2Client::is_operator_of(&returned(&[2, 0, 1])), parse_error());
    assert_eq!(Cis2Client::is_operator_of(&returned(&[255])), parse_error());
}

#[test]
fn operator_results_decide_without_a_call() {
    assert_eq!(Cis2Client::operator_from_results(&vec![]), invoke_error());
    assert_eq!(Cis2Client::operator_from_results(&vec![true]), Ok(true));
    assert_eq!(Cis2Client::operator_from_results(&vec![false]), Ok(false));
    assert_eq!(Cis2Client::operator_from_results(&vec![false, true]), Ok(false));
}

#[test]
fn balance_of_one_is_sufficient_and_zero_is_not() {
    assert_eq!(Cis2Client::has_balance(&returned(&[1, 0, 1])), Ok(true));
    assert_eq!(Cis2Client::has_balance(&returned(&[1, 0, 0])), Ok(false));
    assert_eq!(Cis2Client::balance_from_results(&vec![1], 1), Ok(true));
    assert_eq!(Cis2Client::balance_from_results(&vec![0], 1), Ok(false));
}

#[test]
fn larger_balances_are_sufficient() {
    assert_eq!(Cis2Client::has_balance(&returned(&[1, 0, 2])), Ok(true));
    assert_eq!(Cis2Client::has_balance(&returned(&[1, 0, 127])), Ok(true));
    assert_eq!(Cis2Client::has_balance(&returned(&[1, 0, 0x80, 0x01])), Ok(true));
    assert_eq!(Cis2Client::has_balance(&returned(&[1, 0, 0xFF, 0x01])), Ok(true));
}

#[test]
fn first_balance_counts() {
    assert_eq!(Cis2Client::has_balance(&returned(&[2, 0, 0, 5])), Ok(false));
    assert_eq!(Cis2Client::has_balance(&returned(&[2, 0, 5, 0])), Ok(true));
    assert_eq!(Cis2Client::balance_from_results(&vec![0, 9], 1), Ok(false));
}

#[test]
fn balance_against_another_threshold() {
    assert_eq!(Cis2Client::has_balance_of(&returned(&[1, 0, 4]), 1), Ok(true));
    assert_eq!(Cis2Client::has_balance_of(&returned(&[1, 0, 4]), 4), Ok(true));
    assert_eq!(Cis2Client::has_balance_of(&returned(&[1, 0, 4]), 5), Ok(false));
    assert_eq!(Cis2Client::has_balance_of(&returned(&[1, 0, 0]), 0), Ok(true));
    assert_eq!(Cis2Client::has_balance_of(&returned(&[1, 0, 0xC8, 0x01]), 200), Ok(true));
    assert_eq!(Cis2Client::has_balance_of(&returned(&[1, 0, 0xC8, 0x01]), 201), Ok(false));
    assert_eq!(Cis2Client::has_balance_of(&returned(&[0, 0]), 0), invoke_error());
    assert_eq!(Cis2Client::has_balance_of(&InvokeOutcome::Failed, 0), invoke_error());
    assert_eq!(Cis2Client::balance_from_results(&vec![255], 255), Ok(true));
    assert_eq!(Cis2Client::balance_from_results(&vec![254], 255), Ok(false));
}

#[test]
fn malformed_balance_response_is_a_parse_error() {
    assert_eq!(Cis2Client::has_balance(&returned(&[1])), parse_error());
    assert_eq!(Cis2Client::has_balance(&returned(&[1, 0])), parse_error());
    assert_eq!(Cis2Client::has_balance(&returned(&[2, 0, 1])), parse_error());
    assert_eq!(Cis2Client::has_balance(&returned(&[1, 0, 0x80])), parse_error());
    assert_eq!(Cis2Client::has_balance(&returned(&[1, 0, 0x80, 0x80])), parse_error());
}

#[test]
fn amount_spelt_in_three_bytes_is_a_parse_error() {
    assert_eq!(Cis2Client::has_balance(&returned(&[1, 0, 0x80, 0x80, 0x00])), parse_error());
    assert_eq!(Cis2Client::has_balance(&returned(&[1, 0, 0x81, 0x80, 0x01])), parse_error());
    assert_eq!(Cis2Client::has_balance(&returned(&[2, 0, 1, 0xFF, 0xFF, 0x7F])), parse_error());
}

#[test]
fn short_amounts_are_recognised() {
    assert!(has_short_amounts(&vec![]));
    assert!(has_short_amounts(&vec![9]));
    assert!(has_short_amounts(&vec![0, 0]));
    assert!(has_short_amounts(&vec![0, 0, 0x80, 0x80, 0x80]));
    assert!(has_short_amounts(&vec![1, 0, 0x7F]));
    assert!(has_short_amounts(&vec![1, 0, 0x80, 0x7F]));
    assert!(has_short_amounts(&vec![1, 0, 0x80]));
    assert!(has_short_amounts(&vec![1, 0, 0x80, 0x80]));
    assert!(!has_short_amounts(&vec![1, 0, 0x80, 0x80, 0x00]));
    assert!(has_short_amounts(&vec![1, 0, 0x01, 0x80, 0x80, 0x00]));
    assert!(!has_short_amounts(&vec![2, 0, 0x01, 0x80, 0x80, 0x00]));
    assert!(!has_short_amounts(&vec![0, 1, 0x01, 0x80, 0x01, 0x80, 0x80, 0x00]));
    assert!(has_short_amounts(&vec![3, 0, 0x01, 0x80, 0x01, 0x7F]));
}

#[test]
fn transfer_succeeds_whatever_was_returned() {
    assert_eq!(Cis2Client::transfer(&returned(&[])), Ok(true));
    assert_eq!(Cis2Client::transfer(&returned(&[0])), Ok(true));
    assert_eq!(Cis2Client::transfer(&returned(&[1, 2, 3, 255])), Ok(true));
}
