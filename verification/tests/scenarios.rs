use az_token_sale::errors::AZTokenSaleError;
use az_token_sale::errors::TransferError;
use az_token_sale::host::SaleHost;
use az_token_sale::in_memory::InMemoryHost;
use az_token_sale::sale::AZTokenSale;
use az_token_sale::types::AccountId;
use az_token_sale::types::Balance;

const ADMIN: AccountId = AccountId { id: 1 };
const BUYER: AccountId = AccountId { id: 2 };
const TOKEN: AccountId = AccountId { id: 5 };
const CONTRACT: AccountId = AccountId { id: 100 };

fn setup(in_unit: Balance, out_unit: Balance, custody: Balance) -> (AZTokenSale, InMemoryHost) {
    let sale = AZTokenSale::new(ADMIN, TOKEN, in_unit, out_unit);
    let mut host = InMemoryHost::new(CONTRACT);
    host.set_token_balance(TOKEN, CONTRACT, custody);
    (sale, host)
}

/// 250:1 ratio, a deep inventory deposited by the admin; paying 250 buys
/// exactly one asset unit, the admin receives the 250, nothing is refunded.
#[test]
fn scenario_full_fill_at_unit_price() {
    let sale = AZTokenSale::new(ADMIN, TOKEN, 250, 1);
    let mut host = InMemoryHost::new(CONTRACT);
    host.set_token_balance(TOKEN, ADMIN, 1_000_000_000_000_000_000);
    let deposited = sale.add_amount_for_sale(&mut host, ADMIN, 1_000_000_000_000_000_000);
    assert!(deposited.is_ok());
    assert_eq!(
        host.token_balance_of(TOKEN, CONTRACT),
        1_000_000_000_000_000_000
    );

    host.set_native_balance(CONTRACT, 250);
    let result = sale.buy(&mut host, BUYER, 250);
    assert_eq!(result, Ok((250, 1)));
    assert_eq!(host.token_balance_of(TOKEN, BUYER), 1);
    assert_eq!(host.native_balance_of(ADMIN), 250);
    // zero refund: the buyer's native balance is untouched
    assert_eq!(host.native_balance_of(BUYER), 0);
}

/// 250:1 ratio with only 3 asset units remaining; paying 1250 (desiring 5)
/// settles floor(1250*3/5) = 750, delivers floor(750*1/250) = 3 and
/// refunds 500.
#[test]
fn scenario_partial_fill_scales_down() {
    let (sale, mut host) = setup(250, 1, 3);
    host.set_native_balance(CONTRACT, 1250);
    let result = sale.buy(&mut host, BUYER, 1250);
    assert_eq!(result, Ok((750, 3)));
    assert_eq!(host.token_balance_of(TOKEN, BUYER), 3);
    assert_eq!(host.token_balance_of(TOKEN, CONTRACT), 0);
    assert_eq!(host.native_balance_of(ADMIN), 750);
    assert_eq!(host.native_balance_of(BUYER), 500);
    // conservation: settled + refund account for the whole payment
    assert_eq!(host.native_balance_of(CONTRACT), 0);
}

/// Paying zero fails and changes nothing.
#[test]
fn scenario_zero_payment_rejected() {
    let (sale, mut host) = setup(250, 1, 3);
    let result = sale.buy(&mut host, BUYER, 0);
    assert!(matches!(
        result,
        Err(AZTokenSaleError::UnprocessableEntity(_))
    ));
    assert_eq!(host.token_balance_of(TOKEN, CONTRACT), 3);
    assert_eq!(host.token_balance_of(TOKEN, BUYER), 0);
    assert_eq!(host.native_balance_of(ADMIN), 0);
}

/// A non-admin deposit always fails with `Unauthorised` and moves nothing.
#[test]
fn scenario_non_admin_deposit_unauthorised() {
    let (sale, mut host) = setup(250, 1, 0);
    host.set_token_balance(TOKEN, BUYER, 1000);
    let result = sale.add_amount_for_sale(&mut host, BUYER, 1000);
    assert_eq!(result, Err(AZTokenSaleError::Unauthorised));
    assert_eq!(host.token_balance_of(TOKEN, CONTRACT), 0);
    assert_eq!(host.token_balance_of(TOKEN, BUYER), 1000);
}

/// With custody empty, a valid multiple still fails as sold out.
#[test]
fn scenario_sold_out() {
    let (sale, mut host) = setup(250, 1, 0);
    let result = sale.buy(&mut host, BUYER, 250);
    assert_eq!(
        result,
        Err(AZTokenSaleError::UnprocessableEntity("Sold out".to_string()))
    );
}

/// A deposit of zero, or one off the `out_unit` grid, is rejected.
#[test]
fn deposit_rejects_amounts_off_the_grid() {
    let (sale, mut host) = setup(250, 5, 0);
    host.set_token_balance(TOKEN, ADMIN, 1000);
    let result = sale.add_amount_for_sale(&mut host, ADMIN, 0);
    assert_eq!(
        result,
        Err(AZTokenSaleError::UnprocessableEntity(
            "Amount must be in multiples of out_unit".to_string()
        ))
    );
    let result = sale.add_amount_for_sale(&mut host, ADMIN, 7);
    assert_eq!(
        result,
        Err(AZTokenSaleError::UnprocessableEntity(
            "Amount must be in multiples of out_unit".to_string()
        ))
    );
    assert_eq!(host.token_balance_of(TOKEN, CONTRACT), 0);
}

/// The asset collaborator's failure on a deposit is propagated and the
/// ledgers stay as they were.
#[test]
fn deposit_propagates_transfer_failure() {
    let (sale, mut host) = setup(250, 5, 0);
    // the admin holds too little for the pull to succeed
    host.set_token_balance(TOKEN, ADMIN, 3);
    let result = sale.add_amount_for_sale(&mut host, ADMIN, 5);
    assert_eq!(
        result,
        Err(AZTokenSaleError::PSP22Error(
            TransferError::InsufficientBalance
        ))
    );
    assert_eq!(host.token_balance_of(TOKEN, CONTRACT), 0);
    assert_eq!(host.token_balance_of(TOKEN, ADMIN), 3);
}

/// A failed refund aborts the purchase before anything moves.
#[test]
fn buy_failed_refund_leaves_state_unchanged() {
    // partial fill (custody 3 < desired 5) forces a refund of 500, but the
    // sale's custody holds no native value to refund from
    let (sale, mut host) = setup(250, 1, 3);
    let result = sale.buy(&mut host, BUYER, 1250);
    assert_eq!(
        result,
        Err(AZTokenSaleError::UnprocessableEntity(
            "Insufficient AZERO balance".to_string()
        ))
    );
    assert_eq!(host.token_balance_of(TOKEN, CONTRACT), 3);
    assert_eq!(host.token_balance_of(TOKEN, BUYER), 0);
    assert_eq!(host.native_balance_of(BUYER), 0);
}

/// The asset collaborator's failure on delivery is propagated as a
/// `PSP22Error`; with a full fill there was no refund, so nothing moved.
#[test]
fn buy_propagates_asset_transfer_failure() {
    let (sale, mut host) = setup(250, 1, 10);
    host.set_native_balance(CONTRACT, 250);
    host.fail_token_transfers = true;
    let result = sale.buy(&mut host, BUYER, 250);
    assert!(matches!(result, Err(AZTokenSaleError::PSP22Error(_))));
    assert_eq!(host.token_balance_of(TOKEN, CONTRACT), 10);
    assert_eq!(host.native_balance_of(ADMIN), 0);
}

/// When forwarding the proceeds fails after the asset was delivered, the
/// delivery stands — the host cannot roll back a completed transfer — and
/// the error reports the failed native transfer.
#[test]
fn buy_failed_proceeds_keeps_completed_delivery() {
    // full fill, so no refund is owed; custody holds no native value, so
    // forwarding the settled amount to the admin fails
    let (sale, mut host) = setup(250, 1, 10);
    let result = sale.buy(&mut host, BUYER, 250);
    assert_eq!(
        result,
        Err(AZTokenSaleError::UnprocessableEntity(
            "Insufficient AZERO balance".to_string()
        ))
    );
    assert_eq!(host.token_balance_of(TOKEN, BUYER), 1);
    assert_eq!(host.token_balance_of(TOKEN, CONTRACT), 9);
    assert_eq!(host.native_balance_of(ADMIN), 0);
}

/// Reads of the configuration are idempotent: two reads with no mutation
/// in between return identical values.
#[test]
fn config_reads_are_idempotent() {
    let (sale, _host) = setup(250, 5, 0);
    let first = sale.config();
    let second = sale.config();
    assert_eq!(first, second);
}

/// A forced native-transfer failure on the refund aborts the purchase
/// with the insufficient-balance reason and nothing moves, even though
/// the custody could have covered it.
#[test]
fn buy_forced_refund_failure_leaves_state_unchanged() {
    let (sale, mut host) = setup(250, 1, 3);
    host.set_native_balance(CONTRACT, 1250);
    host.fail_native_transfers = true;
    let result = sale.buy(&mut host, BUYER, 1250);
    assert_eq!(
        result,
        Err(AZTokenSaleError::UnprocessableEntity(
            "Insufficient AZERO balance".to_string()
        ))
    );
    assert_eq!(host.token_balance_of(TOKEN, CONTRACT), 3);
    assert_eq!(host.native_balance_of(BUYER), 0);
    assert_eq!(host.native_balance_of(CONTRACT), 1250);
}

/// When the administrator buys, the settled proceeds land back in the
/// administrator's own balance.
#[test]
fn admin_buying_receives_own_proceeds() {
    let (sale, mut host) = setup(250, 1, 10);
    host.set_native_balance(CONTRACT, 250);
    let result = sale.buy(&mut host, ADMIN, 250);
    assert_eq!(result, Ok((250, 1)));
    assert_eq!(host.native_balance_of(ADMIN), 250);
    assert_eq!(host.token_balance_of(TOKEN, ADMIN), 1);
}

/// The in-memory double refuses a credit that would overflow the
/// receiving balance, as a collaborator would.
#[test]
fn host_transfer_rejects_credit_overflow() {
    let mut host = InMemoryHost::new(CONTRACT);
    host.set_token_balance(TOKEN, CONTRACT, 10);
    host.set_token_balance(TOKEN, BUYER, u128::MAX);
    let r = host.transfer(TOKEN, BUYER, 1);
    assert!(matches!(r, Err(TransferError::Custom(_))));
    assert_eq!(host.token_balance_of(TOKEN, CONTRACT), 10);
}

/// The settlement survives payments near the top of the native width: the
/// double-width intermediate products cannot overflow.
#[test]
fn buy_handles_native_width_extremes() {
    // in_unit 1, out_unit u128::MAX: the desired amount overflows the
    // native width, so any representable custody forces a partial fill
    let huge: Balance = u128::MAX;
    let (sale, mut host) = setup(1, huge, 1000);
    host.set_native_balance(CONTRACT, huge);
    let paid: Balance = 1_000_000;
    // desired = paid * huge; settled = floor(paid * 1000 / desired) = 0;
    // everything is refunded and nothing is delivered
    let result = sale.buy(&mut host, BUYER, paid);
    assert_eq!(result, Ok((0, 0)));
    assert_eq!(host.native_balance_of(BUYER), paid);
    assert_eq!(host.token_balance_of(TOKEN, BUYER), 0);
}
