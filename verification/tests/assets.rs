//! Transfers whose addresses are not the usual ones: an asset that names an
//! account, an account that pays, and principals known to another host.

use reservl::{Approvals, ContractError, ReservationStatus, ReserveLContract, LOYALTY_REWARD};
use soroban_sdk::address_payload::AddressPayload;
use soroban_sdk::testutils::{Address as _, EnvTestConfig, StellarAssetContract};
use soroban_sdk::token::{StellarAssetClient, TokenClient};
use soroban_sdk::{Address, BytesN, Env};

fn host() -> Env {
    let env = Env::new_with_config(EnvTestConfig { capture_snapshot_at_drop: false });
    env.mock_all_auths();
    env
}

fn stellar_asset(env: &Env) -> StellarAssetContract {
    let admin = Address::generate(env);
    env.register_stellar_asset_contract_v2(admin)
}

/// The address of an account, not of a contract.
fn account(env: &Env) -> Address {
    let address = stellar_asset(env).issuer().address();
    assert!(matches!(address.to_payload(), Some(AddressPayload::AccountIdPublicKeyEd25519(_))));
    address
}

fn with(signers: &[&Address]) -> Approvals {
    let mut approvals = Approvals::new();
    for who in signers {
        approvals.grant((*who).clone());
    }
    approvals
}

/// The address that names in `env` what `who` names in its own host.
fn twin(env: &Env, who: &Address) -> Address {
    match who.to_payload().unwrap() {
        AddressPayload::ContractIdHash(hash) => {
            AddressPayload::ContractIdHash(BytesN::from_array(env, &hash.to_array()))
                .to_address(env)
        }
        AddressPayload::AccountIdPublicKeyEd25519(key) => {
            AddressPayload::AccountIdPublicKeyEd25519(BytesN::from_array(env, &key.to_array()))
                .to_address(env)
        }
    }
}

#[test]
fn payment_in_an_asset_that_is_an_account_fails_as_a_transfer() {
    let env = host();
    let business = Address::generate(&env);
    let customer = Address::generate(&env);
    let not_a_token = account(&env);
    let mut contract = ReserveLContract::new();
    let id = contract
        .create_reservation(&with(&[&business]), business.clone(), 1000, 2, 500, not_a_token)
        .unwrap();
    let before = contract.get_reservation(id);

    for _ in 0..2 {
        assert_eq!(
            contract.confirm_reservation(&with(&[&customer]), id, customer.clone()),
            Err(ContractError::TransferError)
        );
        assert_eq!(contract.get_reservation(id), before);
    }
    assert_eq!(contract.get_reservation(id).unwrap().status, ReservationStatus::Pending);
}

#[test]
fn reward_in_a_token_that_is_an_account_fails_as_a_transfer() {
    let env = host();
    let business = Address::generate(&env);
    let customer = Address::generate(&env);
    let owner = Address::generate(&env);
    let payment = stellar_asset(&env).address();
    StellarAssetClient::new(&env, &payment).mint(&customer, &500);
    let mut contract = ReserveLContract::new();
    contract.initialize(owner.clone(), account(&env)).unwrap();
    let everyone = with(&[&business, &customer, &owner]);
    contract.create_reservation(&everyone, business.clone(), 1000, 2, 500, payment).unwrap();
    contract.confirm_reservation(&everyone, 0, customer.clone()).unwrap();
    let before = contract.get_reservation(0);

    assert_eq!(
        contract.update_reservation_status(&everyone, 0, ReservationStatus::Completed),
        Err(ContractError::TransferError)
    );
    assert_eq!(contract.get_reservation(0), before);
    assert_eq!(contract.create_loyalty_token(owner, 5), Err(ContractError::TransferError));

    // A no-show needs no token.
    assert_eq!(
        contract.update_reservation_status(&everyone, 0, ReservationStatus::NoShow),
        Ok(())
    );
}

#[test]
fn an_account_can_pay_and_be_paid() {
    let env = host();
    let asset = stellar_asset(&env);
    let token = asset.address();
    // The issuer of an asset is an account, and it always holds enough of it.
    let payer = asset.issuer().address();
    let business = Address::generate(&env);
    let mut contract = ReserveLContract::new();
    contract
        .create_reservation(&with(&[&business]), business.clone(), 1000, 2, 500, token.clone())
        .unwrap();
    assert_eq!(contract.confirm_reservation(&with(&[&payer]), 0, payer.clone()), Ok(()));
    assert_eq!(TokenClient::new(&env, &token).balance(&business), 500);
    assert_eq!(contract.get_reservation(0).unwrap().customer_id, Some(payer.clone()));

    // Paid back to the issuer, the 500 leave the business.
    let mut refunds = ReserveLContract::new();
    refunds
        .create_reservation(&with(&[&payer]), payer.clone(), 1000, 2, 500, token.clone())
        .unwrap();
    assert_eq!(refunds.confirm_reservation(&with(&[&business]), 0, business.clone()), Ok(()));
    assert_eq!(TokenClient::new(&env, &token).balance(&business), 0);
}

#[test]
fn principals_known_to_another_host_are_found_by_the_token() {
    let env = host();
    let token = stellar_asset(&env).address();
    let loyalty = stellar_asset(&env).address();
    let business = Address::generate(&env);
    let customer = Address::generate(&env);
    let owner = Address::generate(&env);
    StellarAssetClient::new(&env, &token).mint(&customer, &500);
    StellarAssetClient::new(&env, &loyalty).mint(&owner, &LOYALTY_REWARD);

    // The same principals, as a second host holds them. That host holds
    // other objects first, so that its handles differ from the first's.
    let elsewhere = host();
    for _ in 0..7 {
        Address::generate(&elsewhere);
    }
    let far_owner = twin(&elsewhere, &owner);
    let far_customer = twin(&elsewhere, &customer);
    let far_business = twin(&elsewhere, &business);
    assert_eq!(far_customer, customer);
    assert_ne!(far_customer, far_business);

    let mut contract = ReserveLContract::new();
    contract.initialize(far_owner.clone(), loyalty.clone()).unwrap();
    let everyone = with(&[&far_business, &far_customer, &far_owner]);
    contract
        .create_reservation(&everyone, far_business.clone(), 1000, 2, 500, token.clone())
        .unwrap();
    assert_eq!(contract.confirm_reservation(&everyone, 0, far_customer.clone()), Ok(()));
    assert_eq!(TokenClient::new(&env, &token).balance(&customer), 0);
    assert_eq!(TokenClient::new(&env, &token).balance(&business), 500);

    assert_eq!(
        contract.update_reservation_status(&everyone, 0, ReservationStatus::Completed),
        Ok(())
    );
    assert_eq!(TokenClient::new(&env, &loyalty).balance(&customer), LOYALTY_REWARD);
    assert_eq!(TokenClient::new(&env, &loyalty).balance(&owner), 0);
    let stored = contract.get_reservation(0).unwrap();
    assert_eq!(stored.customer_id, Some(customer));
    assert_eq!(stored.business_id, business);
}

#[test]
fn a_token_known_to_another_host_has_no_contract_there() {
    // The asset decides where the transfer happens. A host that holds only
    // the name of a token, and no contract under it, makes no payment.
    let env = host();
    let token = stellar_asset(&env).address();
    let business = Address::generate(&env);
    let customer = Address::generate(&env);
    StellarAssetClient::new(&env, &token).mint(&customer, &500);
    let elsewhere = host();
    let far_token = twin(&elsewhere, &token);

    let mut contract = ReserveLContract::new();
    contract
        .create_reservation(&with(&[&business]), business.clone(), 1000, 2, 500, far_token)
        .unwrap();
    assert_eq!(
        contract.confirm_reservation(&with(&[&customer]), 0, customer.clone()),
        Err(ContractError::TransferError)
    );
    assert_eq!(contract.get_reservation(0).unwrap().status, ReservationStatus::Pending);
    assert_eq!(TokenClient::new(&env, &token).balance(&customer), 500);
}
