use kitties::pallet::Error;
use kitties::pallet::Event;
use kitties::pallet::Pallet;

const PRICE: u64 = 10;
const COLLECTOR: u64 = 0;

fn fresh_pallet() -> Pallet {
    Pallet::new(PRICE, COLLECTOR)
}

#[test]
fn it_works_for_create() {
    let mut pallet = fresh_pallet();
    let kitty_id = 0;
    let account_id = 1;
    pallet.set_balance(account_id, 1_000_000_000);

    assert_eq!(pallet.next_kitty_id(), kitty_id);

    assert!(pallet.create(account_id, [11u8; 16], *b"abcdabcd").is_ok());

    assert_eq!(pallet.next_kitty_id(), kitty_id + 1);
    let kitty = pallet.kitties(kitty_id);
    assert_eq!(kitty.is_some(), true);
    assert_eq!(pallet.kitty_owner(kitty_id), Some(account_id));
    assert_eq!(pallet.kitty_parents(kitty_id), None);

    pallet.set_next_kitty_id(u32::MAX);
    assert_eq!(
        pallet.create(account_id, [11u8; 16], *b"abcdabcd"),
        Err(Error::InvalidKittyId)
    );

    assert_eq!(
        pallet.last_event(),
        Some(Event::KittyCreated { who: account_id, kitty_id, kitty: kitty.unwrap() })
    );
}

#[test]
fn it_works_for_breed() {
    let mut pallet = fresh_pallet();
    let kitty_id = 0;
    let account_id = 1;

    pallet.set_balance(account_id, 1_000_000_000);

    // parents not exist
    assert_eq!(
        pallet.breed(account_id, kitty_id, kitty_id + 1, [22u8; 16], *b"abcdabcd"),
        Err(Error::InvalidKittyId)
    );

    assert!(pallet.create(account_id, [11u8; 16], *b"abcdabcd").is_ok());
    // same kitty id
    assert_eq!(
        pallet.breed(account_id, kitty_id, kitty_id, [22u8; 16], *b"abcdabcd"),
        Err(Error::SameKittyId)
    );
    assert!(pallet.create(account_id, [12u8; 16], *b"abcdabcd").is_ok());

    // breed works
    assert!(pallet
        .breed(account_id, kitty_id, kitty_id + 1, [22u8; 16], *b"abcdabcd")
        .is_ok());

    let breed_kitty_id = 2;
    let kitty = pallet.kitties(breed_kitty_id);
    assert_eq!(kitty.is_some(), true);
    assert_eq!(pallet.kitty_owner(breed_kitty_id), Some(account_id));
    assert_eq!(
        pallet.kitty_parents(breed_kitty_id),
        Some((kitty_id, kitty_id + 1))
    );

    assert_eq!(
        pallet.last_event(),
        Some(Event::KittyBred {
            who: account_id,
            kitty_id: breed_kitty_id,
            kitty: kitty.unwrap(),
        })
    );
}

#[test]
fn it_works_for_transfer() {
    let mut pallet = fresh_pallet();
    let kitty_id = 0;
    let account_id = 1;
    let recipient = 2;

    pallet.set_balance(account_id, 1_000_000_000);

    // kitty not exist
    assert_eq!(
        pallet.transfer(account_id, recipient, kitty_id),
        Err(Error::InvalidKittyId)
    );

    assert!(pallet.create(account_id, [11u8; 16], *b"abcdabcd").is_ok());
    assert_eq!(pallet.kitty_owner(kitty_id), Some(account_id));

    // not owner
    assert_eq!(
        pallet.transfer(recipient, account_id, kitty_id),
        Err(Error::NotOwner)
    );

    assert!(pallet.transfer(account_id, recipient, kitty_id).is_ok());
    assert_eq!(pallet.kitty_owner(kitty_id), Some(recipient));
    assert_eq!(
        pallet.last_event(),
        Some(Event::KittyTransferred { who: account_id, recipient, kitty_id })
    );

    assert!(pallet.transfer(recipient, account_id, kitty_id).is_ok());
    assert_eq!(pallet.kitty_owner(kitty_id), Some(account_id));
    assert_eq!(
        pallet.last_event(),
        Some(Event::KittyTransferred {
            who: recipient,
            recipient: account_id,
            kitty_id,
        })
    );
}

#[test]
fn it_works_for_sale() {
    let mut pallet = fresh_pallet();
    let kitty_id = 0;
    let account_id = 1;
    let another_account_id = 2;
    pallet.set_balance(account_id, 1_000_000_000);

    // kitty not exist
    assert_eq!(
        pallet.sale(another_account_id, kitty_id),
        Err(Error::InvalidKittyId)
    );

    // create kitty
    assert!(pallet.create(account_id, [11u8; 16], *b"abcdabcd").is_ok());
    assert_eq!(pallet.kitty_on_sale(kitty_id), false);

    assert_eq!(
        pallet.sale(another_account_id, kitty_id),
        Err(Error::NotOwner)
    );

    // success
    assert!(pallet.sale(account_id, kitty_id).is_ok());
    assert_eq!(pallet.kitty_on_sale(kitty_id), true);
    assert_eq!(
        pallet.last_event(),
        Some(Event::KittyOnSale { who: account_id, kitty_id })
    );

    assert_eq!(
        pallet.sale(account_id, kitty_id),
        Err(Error::AlreadyOnSale)
    );
}

#[test]
fn it_works_for_buy() {
    let mut pallet = fresh_pallet();
    let kitty_id = 0;
    let seller_id = 1;
    let buyer_id = 2;
    pallet.set_balance(seller_id, 1_000_000_000);
    pallet.set_balance(buyer_id, 1_000_000_000);

    // kitty not exist
    assert_eq!(pallet.buy(seller_id, kitty_id), Err(Error::InvalidKittyId));

    // create kitty
    assert!(pallet.create(seller_id, [11u8; 16], *b"abcdabcd").is_ok());
    assert_eq!(pallet.kitty_on_sale(kitty_id), false);

    assert_eq!(pallet.buy(seller_id, kitty_id), Err(Error::AlreadyOwned));

    assert_eq!(pallet.buy(buyer_id, kitty_id), Err(Error::NotOnSale));

    // success
    assert!(pallet.sale(seller_id, kitty_id).is_ok());
    assert!(pallet.buy(buyer_id, kitty_id).is_ok());
    assert_eq!(pallet.kitty_owner(kitty_id), Some(buyer_id));
    assert_eq!(pallet.kitty_on_sale(kitty_id), false);
    assert_eq!(
        pallet.last_event(),
        Some(Event::KittyBought { who: buyer_id, kitty_id })
    );
}

#[test]
fn create_without_funds_fails_and_changes_nothing() {
    let mut pallet = fresh_pallet();
    pallet.set_balance(1, PRICE - 1);

    assert_eq!(
        pallet.create(1, [11u8; 16], *b"abcdabcd"),
        Err(Error::PaymentFailed)
    );
    assert_eq!(pallet.next_kitty_id(), 0);
    assert_eq!(pallet.kitties(0), None);
    assert_eq!(pallet.balance_of(1), PRICE - 1);
    assert_eq!(pallet.balance_of(COLLECTOR), 0);
    assert_eq!(pallet.last_event(), None);
}

#[test]
fn breed_without_funds_fails_before_parent_checks() {
    let mut pallet = fresh_pallet();
    pallet.set_balance(1, 3 * PRICE);
    assert!(pallet.create(1, [1u8; 16], *b"abcdabcd").is_ok());
    assert!(pallet.create(1, [2u8; 16], *b"abcdabcd").is_ok());
    assert!(pallet.create(1, [3u8; 16], *b"abcdabcd").is_ok());
    assert_eq!(pallet.balance_of(1), 0);

    // the fee is settled first, so even an equal parent pair is
    // reported as a failed payment
    assert_eq!(
        pallet.breed(1, 0, 0, [22u8; 16], *b"abcdabcd"),
        Err(Error::PaymentFailed)
    );
    assert_eq!(pallet.next_kitty_id(), 3);
}

#[test]
fn breed_with_equal_missing_parents_reports_invalid_id() {
    let mut pallet = fresh_pallet();
    pallet.set_balance(1, 1_000_000_000);

    // both parent arguments equal and absent: existence is checked
    // first, so the refusal names the missing asset, not the equal pair
    assert_eq!(
        pallet.breed(1, 7, 7, [22u8; 16], *b"abcdabcd"),
        Err(Error::InvalidKittyId)
    );
}

#[test]
fn breed_child_dna_blends_parent_dna() {
    let mut pallet = fresh_pallet();
    pallet.set_balance(1, 1_000_000_000);
    assert!(pallet.create(1, [0xAAu8; 16], *b"abcdabcd").is_ok());
    assert!(pallet.create(1, [0x55u8; 16], *b"abcdabcd").is_ok());
    assert!(pallet.breed(1, 0, 1, [0xF0u8; 16], *b"abcdefgh").is_ok());

    let child = pallet.kitties(2).unwrap();
    // (0xAA & 0xF0) | (0x55 & !0xF0) == 0xA0 | 0x05 == 0xA5
    assert_eq!(child.dna, [0xA5u8; 16]);
    assert_eq!(child.name, *b"abcdefgh");
}

#[test]
fn transfer_by_non_owner_leaves_ownership_unchanged() {
    let mut pallet = fresh_pallet();
    pallet.set_balance(1, 1_000_000_000);
    assert!(pallet.create(1, [11u8; 16], *b"abcdabcd").is_ok());

    assert_eq!(pallet.transfer(3, 4, 0), Err(Error::NotOwner));
    assert_eq!(pallet.kitty_owner(0), Some(1));
}

#[test]
fn buy_without_funds_fails_and_changes_nothing() {
    let mut pallet = fresh_pallet();
    pallet.set_balance(1, 1_000_000_000);
    assert!(pallet.create(1, [11u8; 16], *b"abcdabcd").is_ok());
    assert!(pallet.sale(1, 0).is_ok());

    // buyer 2 holds nothing
    assert_eq!(pallet.buy(2, 0), Err(Error::PaymentFailed));
    assert_eq!(pallet.kitty_owner(0), Some(1));
    assert_eq!(pallet.kitty_on_sale(0), true);
    assert_eq!(pallet.balance_of(2), 0);
}

#[test]
fn allocation_fails_only_at_the_maximum_identifier() {
    let mut pallet = fresh_pallet();
    assert_eq!(pallet.get_next_id(), Ok(0));
    assert_eq!(pallet.get_next_id(), Ok(1));
    assert_eq!(pallet.next_kitty_id(), 2);

    pallet.set_next_kitty_id(u32::MAX - 1);
    assert_eq!(pallet.get_next_id(), Ok(u32::MAX - 1));
    assert_eq!(pallet.next_kitty_id(), u32::MAX);

    // at the maximum the counter stays put and allocation is refused
    assert_eq!(pallet.get_next_id(), Err(Error::InvalidKittyId));
    assert_eq!(pallet.next_kitty_id(), u32::MAX);
}

#[test]
fn created_ids_count_up_from_zero_without_gaps() {
    let mut pallet = fresh_pallet();
    pallet.set_balance(1, 1_000_000_000);
    for expected in 0u32..5 {
        assert_eq!(pallet.next_kitty_id(), expected);
        assert!(pallet.create(1, [expected as u8; 16], *b"abcdabcd").is_ok());
        assert!(pallet.kitties(expected).is_some());
    }
    assert_eq!(pallet.next_kitty_id(), 5);
}

#[test]
fn scenario_create_breed_transfer_sale_buy() {
    let owner_a = 1;
    let owner_b = 2;
    let owner_c = 3;
    let mut pallet = fresh_pallet();
    pallet.set_balance(owner_a, 1000);
    pallet.set_balance(owner_b, 1000);
    pallet.set_balance(owner_c, 1000);

    assert!(pallet.create(owner_a, [1u8; 16], *b"abcdabcd").is_ok());
    assert!(pallet.create(owner_a, [2u8; 16], *b"abcdabcd").is_ok());
    assert!(pallet.breed(owner_a, 0, 1, [3u8; 16], *b"abcdabcd").is_ok());
    assert_eq!(pallet.kitty_parents(2), Some((0, 1)));

    assert!(pallet.transfer(owner_a, owner_b, 2).is_ok());
    assert_eq!(pallet.kitty_owner(2), Some(owner_b));

    assert!(pallet.sale(owner_b, 2).is_ok());
    assert_eq!(pallet.kitty_on_sale(2), true);

    let balance_b = pallet.balance_of(owner_b);
    let balance_c = pallet.balance_of(owner_c);
    assert!(pallet.buy(owner_c, 2).is_ok());
    assert_eq!(pallet.kitty_owner(2), Some(owner_c));
    assert_eq!(pallet.kitty_on_sale(2), false);
    assert_eq!(pallet.balance_of(owner_c), balance_c - PRICE);
    assert_eq!(pallet.balance_of(owner_b), balance_b + PRICE);
}

#[test]
fn create_by_the_collector_pays_itself() {
    let mut pallet = fresh_pallet();
    pallet.set_balance(COLLECTOR, 100);

    assert!(pallet.create(COLLECTOR, [11u8; 16], *b"abcdabcd").is_ok());
    assert_eq!(pallet.kitty_owner(0), Some(COLLECTOR));
    // the fee went from the collector to itself
    assert_eq!(pallet.balance_of(COLLECTOR), 100);
}
