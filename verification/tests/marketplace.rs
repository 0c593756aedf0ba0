use marketplace::fees::{marketplace_fee, reward_amount, split_price};
use marketplace::{
    buy, buy_with_token, delist, initialize, list, Account, AcceptOffer, Address, Buy,
    BuyWithToken, CancelOffer, Cpi, Delist, ErrorCode, Initialize, InitializeBumps, Lamports,
    List, ListBumps, MakeOffer, MakeOfferBumps, Marketplace, MintAccount, Offer, PdaSigner,
    WithdrawFee, Listing,
};

fn addr(tag: u8) -> Address {
    let mut bytes = [0u8; 32];
    bytes[0] = tag;
    bytes[31] = tag.wrapping_mul(7);
    Address::new(bytes)
}

fn market(fee: u16) -> Account<Marketplace> {
    Account {
        key: addr(50),
        data: Marketplace {
            admin: addr(51),
            fee,
            bump: 254,
            treasury_bump: 253,
            rewards_bump: 252,
            name: "bazaar".to_string(),
        },
    }
}

fn listing(price: u64) -> Account<Listing> {
    Account {
        key: addr(60),
        data: Listing { maker: addr(2), asset: addr(3), price, bump: 200, payment_mint: addr(70) },
    }
}

fn buy_accounts(price: u64, fee: u16) -> Buy {
    Buy {
        taker: addr(1),
        maker: addr(2),
        asset: addr(3),
        collection: Some(addr(4)),
        marketplace: market(fee),
        listing: listing(price),
        treasury: addr(5),
        reward_mint: addr(6),
        taker_reward_ata: addr(7),
    }
}

fn token_accounts(price: u64, fee: u16, mint: Address) -> BuyWithToken {
    BuyWithToken {
        taker: addr(1),
        maker: addr(2),
        asset: addr(3),
        collection: None,
        marketplace: market(fee),
        listing: listing(price),
        payment_mint: MintAccount { key: mint, decimals: 6 },
        taker_payment_ata: addr(11),
        maker_payment_ata: addr(12),
        treasury_payment_account: addr(13),
        reward_mint: addr(6),
        taker_reward_ata: addr(7),
    }
}

fn offer(amount: u64) -> Account<Offer> {
    Account {
        key: addr(80),
        data: Offer { buyer: addr(9), asset: addr(3), amount, bump: 100, vault_bump: 101 },
    }
}

fn accept_accounts(amount: u64, fee: u16) -> AcceptOffer {
    AcceptOffer {
        maker: addr(2),
        buyer: addr(9),
        asset: addr(3),
        collection: None,
        marketplace: market(fee),
        listing: listing(5),
        offer: offer(amount),
        vault: addr(81),
        treasury: addr(5),
        reward_mint: addr(6),
        buyer_reward_ata: addr(17),
    }
}

fn seeds_of(parts: &[&[u8]]) -> Vec<Vec<u8>> {
    parts.iter().map(|p| p.to_vec()).collect()
}

#[test]
fn fee_is_basis_points_of_price() {
    assert_eq!(marketplace_fee(1_000_000, 250), 25_000);
    assert_eq!(marketplace_fee(9_999, 1), 0);
    assert_eq!(marketplace_fee(10_000, 10_000), 10_000);
    assert_eq!(marketplace_fee(123, 0), 0);
}

#[test]
fn fee_above_whole_is_narrowed_to_64_bits() {
    let wide = (u64::MAX as u128) * 65_535 / 10_000;
    assert_eq!(marketplace_fee(u64::MAX, 65_535), wide as u64);
}

#[test]
fn price_splits_into_maker_part_and_fee() {
    assert_eq!(split_price(1_000_000, 250), (975_000, 25_000));
    let (maker, fee) = split_price(777, 333);
    assert_eq!(maker + fee, 777);
    assert_eq!(fee, 25);
}

#[test]
fn reward_is_one_percent_rounded_down() {
    assert_eq!(reward_amount(12_345), 123);
    assert_eq!(reward_amount(99), 0);
    assert_eq!(reward_amount(u64::MAX), u64::MAX / 100);
}

#[test]
fn addresses_compare_by_bytes() {
    assert!(addr(1) == addr(1));
    assert!(addr(1) != addr(2));
    let mut bytes = addr(1).to_bytes();
    bytes[17] = 9;
    assert!(Address::new(bytes) != addr(1));
    assert_eq!(addr(4).to_vec(), addr(4).to_bytes().to_vec());
}

#[test]
fn signer_seeds_are_tag_keys_and_bump() {
    let a = addr(3);
    let b = addr(9);
    assert_eq!(
        PdaSigner::Listing { asset: a, bump: 7 }.seeds(),
        seeds_of(&[b"listing", &a.to_bytes(), &[7]])
    );
    assert_eq!(
        PdaSigner::OfferVault { asset: a, buyer: b, bump: 8 }.seeds(),
        seeds_of(&[b"offer_vault", &a.to_bytes(), &b.to_bytes(), &[8]])
    );
    assert_eq!(
        PdaSigner::Treasury { marketplace: a, bump: 9 }.seeds(),
        seeds_of(&[b"treasury", &a.to_bytes(), &[9]])
    );
    assert_eq!(
        PdaSigner::Marketplace { name: "bazaar".to_string(), bump: 10 }.seeds(),
        seeds_of(&[b"marketplace", b"bazaar", &[10]])
    );
}

#[test]
fn initialize_records_configuration() {
    let accounts = Initialize { admin: addr(51) };
    let bumps = InitializeBumps { marketplace: 254, treasury: 253, rewards_mint: 252 };
    let m = initialize(&accounts, "bazaar".to_string(), 250, &bumps).unwrap();
    assert_eq!(m.admin, addr(51));
    assert_eq!(m.fee, 250);
    assert_eq!(m.bump, 254);
    assert_eq!(m.treasury_bump, 253);
    assert_eq!(m.rewards_bump, 252);
    assert_eq!(m.name, "bazaar");
    let full = initialize(&accounts, "x".repeat(32), 10_000, &bumps);
    assert!(full.is_ok());
}

#[test]
fn initialize_refuses_fee_above_whole() {
    let accounts = Initialize { admin: addr(51) };
    let bumps = InitializeBumps { marketplace: 1, treasury: 2, rewards_mint: 3 };
    assert_eq!(
        initialize(&accounts, "bazaar".to_string(), 10_001, &bumps),
        Err(ErrorCode::InvalidFee)
    );
    assert_eq!(
        initialize(&accounts, "y".repeat(40), 10_001, &bumps),
        Err(ErrorCode::InvalidFee)
    );
}

#[test]
fn initialize_refuses_long_name() {
    let accounts = Initialize { admin: addr(51) };
    let bumps = InitializeBumps { marketplace: 1, treasury: 2, rewards_mint: 3 };
    assert_eq!(
        initialize(&accounts, "y".repeat(33), 100, &bumps),
        Err(ErrorCode::InvalidName)
    );
    // Seventeen two-byte characters make 34 bytes.
    assert_eq!(
        initialize(&accounts, "é".repeat(17), 100, &bumps),
        Err(ErrorCode::InvalidName)
    );
}

#[test]
fn list_records_listing_and_takes_asset() {
    let blank = Listing { maker: addr(0), asset: addr(0), price: 0, bump: 0, payment_mint: addr(0) };
    let mut accounts = List {
        maker: addr(2),
        asset: addr(3),
        collection: Some(addr(4)),
        payment_mint: addr(70),
        listing_key: addr(60),
        listing: blank,
    };
    let cpis = list(&mut accounts, 42, &ListBumps { listing: 200 });
    assert_eq!(accounts.listing, listing(42).data);
    assert_eq!(
        cpis,
        vec![Cpi::AssetTransfer {
            asset: addr(3),
            collection: Some(addr(4)),
            payer: addr(2),
            authority: addr(2),
            new_owner: addr(60),
            signer: None,
        }]
    );
}

#[test]
fn buy_pays_moves_asset_and_rewards() {
    let accounts = buy_accounts(1_000_000, 250);
    let cpis = buy(&accounts);
    assert_eq!(
        cpis,
        vec![
            Cpi::SystemTransfer {
                from: addr(1),
                to: addr(2),
                amount: Lamports::Exact(975_000),
                signer: None
            },
            Cpi::SystemTransfer {
                from: addr(1),
                to: addr(5),
                amount: Lamports::Exact(25_000),
                signer: None
            },
            Cpi::AssetTransfer {
                asset: addr(3),
                collection: Some(addr(4)),
                payer: addr(1),
                authority: addr(60),
                new_owner: addr(1),
                signer: Some(PdaSigner::Listing { asset: addr(3), bump: 200 }),
            },
            Cpi::MintTo {
                mint: addr(6),
                to: addr(7),
                authority: addr(50),
                amount: 10_000,
                signer: Some(PdaSigner::Marketplace { name: "bazaar".to_string(), bump: 254 }),
            },
        ]
    );
    assert_eq!(accounts.send_sol(), cpis[0..2].to_vec());
    assert_eq!(accounts.recieve_nft(), cpis[2..3].to_vec());
    assert_eq!(accounts.distribute_rewards(), cpis[3..4].to_vec());
}

#[test]
fn buy_charges_taker_exactly_price() {
    for (price, fee) in [(1u64, 9_999u16), (333, 333), (u64::MAX, 10_000), (10_001, 1)] {
        let cpis = buy(&buy_accounts(price, fee));
        let mut paid: u128 = 0;
        for c in &cpis {
            if let Cpi::SystemTransfer { from, amount: Lamports::Exact(n), .. } = c {
                assert_eq!(*from, addr(1));
                paid += *n as u128;
            }
        }
        assert_eq!(paid, price as u128);
    }
}

#[test]
fn buy_with_token_pays_in_tokens() {
    let accounts = token_accounts(2_000, 500, addr(70));
    let cpis = buy_with_token(&accounts).unwrap();
    assert_eq!(cpis.len(), 4);
    assert_eq!(
        cpis[0],
        Cpi::TokenTransfer {
            from: addr(11),
            mint: addr(70),
            to: addr(12),
            authority: addr(1),
            amount: 1_900,
            decimals: 6,
            signer: None
        }
    );
    assert_eq!(
        cpis[1],
        Cpi::TokenTransfer {
            from: addr(11),
            mint: addr(70),
            to: addr(13),
            authority: addr(1),
            amount: 100,
            decimals: 6,
            signer: None
        }
    );
    assert_eq!(
        cpis[3],
        Cpi::MintTo {
            mint: addr(6),
            to: addr(7),
            authority: addr(50),
            amount: 20,
            signer: Some(PdaSigner::Marketplace { name: "bazaar".to_string(), bump: 254 }),
        }
    );
    assert_eq!(accounts.send_tokens().unwrap(), cpis[0..2].to_vec());
}

#[test]
fn buy_with_token_refuses_other_mint() {
    let accounts = token_accounts(2_000, 500, addr(71));
    assert_eq!(buy_with_token(&accounts), Err(ErrorCode::MintMismatch));
    assert_eq!(accounts.send_tokens(), Err(ErrorCode::MintMismatch));
}

#[test]
fn delist_returns_asset_to_maker() {
    let accounts = Delist { maker: addr(2), listing: listing(10), asset: addr(3), collection: None };
    assert_eq!(
        delist(&accounts).unwrap(),
        vec![Cpi::AssetTransfer {
            asset: addr(3),
            collection: None,
            payer: addr(2),
            authority: addr(60),
            new_owner: addr(2),
            signer: Some(PdaSigner::Listing { asset: addr(3), bump: 200 }),
        }]
    );
}

#[test]
fn delist_by_other_is_unauthorized() {
    let accounts = Delist { maker: addr(1), listing: listing(10), asset: addr(3), collection: None };
    assert_eq!(delist(&accounts), Err(ErrorCode::Unauthorized));
    assert_eq!(accounts.delist(), Err(ErrorCode::Unauthorized));
}

#[test]
fn make_offer_records_and_escrows() {
    let mut accounts = MakeOffer {
        buyer: addr(9),
        asset: addr(3),
        offer: Offer { buyer: addr(0), asset: addr(0), amount: 0, bump: 0, vault_bump: 0 },
        vault: addr(81),
    };
    let cpis = accounts.create_offer(5_000, &MakeOfferBumps { offer: 100, vault: 101 }).unwrap();
    assert_eq!(accounts.offer, offer(5_000).data);
    assert_eq!(
        cpis,
        vec![Cpi::SystemTransfer {
            from: addr(9),
            to: addr(81),
            amount: Lamports::Exact(5_000),
            signer: None
        }]
    );
}

#[test]
fn make_offer_of_nothing_is_refused() {
    let blank = Offer { buyer: addr(0), asset: addr(0), amount: 0, bump: 0, vault_bump: 0 };
    let mut accounts = MakeOffer { buyer: addr(9), asset: addr(3), offer: blank, vault: addr(81) };
    let r = accounts.create_offer(0, &MakeOfferBumps { offer: 100, vault: 101 });
    assert_eq!(r, Err(ErrorCode::InvalidOfferAmount));
    assert_eq!(accounts.offer, blank);
}

#[test]
fn cancel_refunds_whole_vault() {
    let accounts = CancelOffer { buyer: addr(9), asset: addr(3), offer: offer(5_000), vault: addr(81) };
    assert_eq!(
        accounts.cancel().unwrap(),
        vec![Cpi::SystemTransfer {
            from: addr(81),
            to: addr(9),
            amount: Lamports::All,
            signer: Some(PdaSigner::OfferVault { asset: addr(3), buyer: addr(9), bump: 101 }),
        }]
    );
}

#[test]
fn cancel_by_other_is_unauthorized() {
    let accounts = CancelOffer { buyer: addr(8), asset: addr(3), offer: offer(5_000), vault: addr(81) };
    assert_eq!(accounts.cancel(), Err(ErrorCode::UnauthorizedOfferCancellation));
}

#[test]
fn cancel_for_other_asset_mismatches() {
    let accounts = CancelOffer { buyer: addr(9), asset: addr(4), offer: offer(5_000), vault: addr(81) };
    assert_eq!(accounts.cancel(), Err(ErrorCode::OfferAssetMismatch));
}

#[test]
fn accept_pays_out_vault() {
    let accounts = accept_accounts(40_000, 250);
    let vault_signer = Some(PdaSigner::OfferVault { asset: addr(3), buyer: addr(9), bump: 101 });
    assert_eq!(
        accounts.accept().unwrap(),
        vec![
            Cpi::SystemTransfer {
                from: addr(81),
                to: addr(2),
                amount: Lamports::Exact(39_000),
                signer: vault_signer.clone()
            },
            Cpi::SystemTransfer {
                from: addr(81),
                to: addr(5),
                amount: Lamports::Exact(1_000),
                signer: vault_signer.clone()
            },
            Cpi::SystemTransfer {
                from: addr(81),
                to: addr(9),
                amount: Lamports::All,
                signer: vault_signer
            },
            Cpi::AssetTransfer {
                asset: addr(3),
                collection: None,
                payer: addr(2),
                authority: addr(60),
                new_owner: addr(9),
                signer: Some(PdaSigner::Listing { asset: addr(3), bump: 200 }),
            },
            Cpi::MintTo {
                mint: addr(6),
                to: addr(17),
                authority: addr(50),
                amount: 400,
                signer: Some(PdaSigner::Marketplace { name: "bazaar".to_string(), bump: 254 }),
            },
        ]
    );
}

#[test]
fn accept_of_empty_offer_is_refused() {
    assert_eq!(accept_accounts(0, 250).accept(), Err(ErrorCode::InvalidOfferAmount));
}

#[test]
fn accept_for_other_asset_mismatches() {
    let mut accounts = accept_accounts(40_000, 250);
    accounts.asset = addr(4);
    assert_eq!(accounts.accept(), Err(ErrorCode::OfferAssetMismatch));
    // The amount is checked first.
    accounts.offer.data.amount = 0;
    assert_eq!(accounts.accept(), Err(ErrorCode::InvalidOfferAmount));
}

#[test]
fn withdraw_by_admin() {
    let accounts = WithdrawFee {
        admin: addr(51),
        marketplace: market(250),
        treasury: addr(5),
        to: addr(90),
        payment_mint: MintAccount { key: addr(70), decimals: 9 },
        treasury_payment_account: addr(13),
        to_payment_ata: addr(91),
    };
    assert_eq!(
        accounts.withdraw_sol(77).unwrap(),
        vec![Cpi::SystemTransfer {
            from: addr(5),
            to: addr(90),
            amount: Lamports::Exact(77),
            signer: Some(PdaSigner::Treasury { marketplace: addr(50), bump: 253 }),
        }]
    );
    assert_eq!(
        accounts.withdraw_token(88).unwrap(),
        vec![Cpi::TokenTransfer {
            from: addr(13),
            mint: addr(70),
            to: addr(91),
            authority: addr(50),
            amount: 88,
            decimals: 9,
            signer: Some(PdaSigner::Marketplace { name: "bazaar".to_string(), bump: 254 }),
        }]
    );
}

#[test]
fn withdraw_by_other_is_unauthorized_admin() {
    let accounts = WithdrawFee {
        admin: addr(52),
        marketplace: market(250),
        treasury: addr(5),
        to: addr(90),
        payment_mint: MintAccount { key: addr(70), decimals: 9 },
        treasury_payment_account: addr(13),
        to_payment_ata: addr(91),
    };
    assert_eq!(accounts.withdraw_sol(77), Err(ErrorCode::UnauthorizedAdmin));
    assert_eq!(accounts.withdraw_token(77), Err(ErrorCode::UnauthorizedAdmin));
}

#[test]
fn offer_then_cancel_restores_buyer() {
    let mut ledger = Ledger::default();
    ledger.lamports.insert(addr(9).to_bytes(), 10_000);
    let mut make = MakeOffer {
        buyer: addr(9),
        asset: addr(3),
        offer: Offer { buyer: addr(0), asset: addr(0), amount: 0, bump: 0, vault_bump: 0 },
        vault: addr(81),
    };
    ledger.run(make.create_offer(4_000, &MakeOfferBumps { offer: 100, vault: 101 }).unwrap());
    assert_eq!(ledger.lamports(addr(81)), 4_000);
    let cancel = CancelOffer {
        buyer: addr(9),
        asset: addr(3),
        offer: Account { key: addr(80), data: make.offer },
        vault: addr(81),
    };
    ledger.run(cancel.cancel().unwrap());
    assert_eq!(ledger.lamports(addr(9)), 10_000);
    assert_eq!(ledger.lamports(addr(81)), 0);
}

/// Lamport and token balances and asset owners, changed the way the planned
/// invocations change them.
#[derive(Default)]
struct Ledger {
    lamports: std::collections::HashMap<[u8; 32], u64>,
    tokens: std::collections::HashMap<[u8; 32], u64>,
    owners: std::collections::HashMap<[u8; 32], [u8; 32]>,
}

impl Ledger {
    fn lamports(&self, a: Address) -> u64 {
        *self.lamports.get(&a.to_bytes()).unwrap_or(&0)
    }

    fn tokens(&self, a: Address) -> u64 {
        *self.tokens.get(&a.to_bytes()).unwrap_or(&0)
    }

    fn run(&mut self, plan: Vec<Cpi>) {
        for c in plan {
            match c {
                Cpi::SystemTransfer { from, to, amount, .. } => {
                    let n = match amount {
                        Lamports::Exact(n) => n,
                        Lamports::All => self.lamports(from),
                    };
                    assert!(self.lamports(from) >= n);
                    *self.lamports.entry(from.to_bytes()).or_default() -= n;
                    *self.lamports.entry(to.to_bytes()).or_default() += n;
                }
                Cpi::TokenTransfer { from, to, amount, .. } => {
                    assert!(self.tokens(from) >= amount);
                    *self.tokens.entry(from.to_bytes()).or_default() -= amount;
                    *self.tokens.entry(to.to_bytes()).or_default() += amount;
                }
                Cpi::MintTo { to, amount, .. } => {
                    *self.tokens.entry(to.to_bytes()).or_default() += amount;
                }
                Cpi::AssetTransfer { asset, new_owner, .. } => {
                    self.owners.insert(asset.to_bytes(), new_owner.to_bytes());
                }
            }
        }
    }
}

#[test]
fn accept_empties_vault_and_refunds_surplus() {
    let accounts = accept_accounts(40_000, 250);
    let mut ledger = Ledger::default();
    ledger.lamports.insert(addr(81).to_bytes(), 40_500);
    ledger.lamports.insert(addr(2).to_bytes(), 7);
    ledger.run(accounts.accept().unwrap());
    assert_eq!(ledger.lamports(addr(81)), 0);
    assert_eq!(ledger.lamports(addr(2)), 7 + 39_000);
    assert_eq!(ledger.lamports(addr(5)), 1_000);
    assert_eq!(ledger.lamports(addr(9)), 500);
    assert_eq!(ledger.tokens(addr(17)), 400);
    assert_eq!(ledger.owners[&addr(3).to_bytes()], addr(9).to_bytes());
}

#[test]
fn offer_then_accept_costs_buyer_the_amount() {
    let mut make = MakeOffer {
        buyer: addr(9),
        asset: addr(3),
        offer: Offer { buyer: addr(0), asset: addr(0), amount: 0, bump: 0, vault_bump: 0 },
        vault: addr(81),
    };
    let mut ledger = Ledger::default();
    ledger.lamports.insert(addr(9).to_bytes(), 100_000);
    ledger.run(make.create_offer(40_000, &MakeOfferBumps { offer: 100, vault: 101 }).unwrap());
    let mut accept = accept_accounts(40_000, 250);
    accept.offer.data = make.offer;
    ledger.run(accept.accept().unwrap());
    assert_eq!(ledger.lamports(addr(9)), 60_000);
    assert_eq!(ledger.lamports(addr(81)), 0);
    assert_eq!(ledger.lamports(addr(2)) + ledger.lamports(addr(5)), 40_000);
}

#[test]
fn buy_settles_ledger() {
    let accounts = buy_accounts(1_000_000, 250);
    let mut ledger = Ledger::default();
    ledger.lamports.insert(addr(1).to_bytes(), 1_500_000);
    ledger.owners.insert(addr(3).to_bytes(), addr(60).to_bytes());
    ledger.run(buy(&accounts));
    assert_eq!(ledger.lamports(addr(1)), 500_000);
    assert_eq!(ledger.lamports(addr(2)), 975_000);
    assert_eq!(ledger.lamports(addr(5)), 25_000);
    assert_eq!(ledger.tokens(addr(7)), 10_000);
    assert_eq!(ledger.owners[&addr(3).to_bytes()], addr(1).to_bytes());
}

#[test]
fn buy_with_token_settles_ledger() {
    let accounts = token_accounts(2_000, 500, addr(70));
    let mut ledger = Ledger::default();
    ledger.tokens.insert(addr(11).to_bytes(), 2_500);
    ledger.run(buy_with_token(&accounts).unwrap());
    assert_eq!(ledger.tokens(addr(11)), 500);
    assert_eq!(ledger.tokens(addr(12)), 1_900);
    assert_eq!(ledger.tokens(addr(13)), 100);
    assert_eq!(ledger.tokens(addr(7)), 20);
    assert_eq!(ledger.owners[&addr(3).to_bytes()], addr(1).to_bytes());
}

#[test]
fn list_then_delist_returns_asset() {
    let blank = Listing { maker: addr(0), asset: addr(0), price: 0, bump: 0, payment_mint: addr(0) };
    let mut listing_accounts = List {
        maker: addr(2),
        asset: addr(3),
        collection: None,
        payment_mint: addr(70),
        listing_key: addr(60),
        listing: blank,
    };
    let mut ledger = Ledger::default();
    ledger.owners.insert(addr(3).to_bytes(), addr(2).to_bytes());
    ledger.run(list(&mut listing_accounts, 10, &ListBumps { listing: 200 }));
    assert_eq!(ledger.owners[&addr(3).to_bytes()], addr(60).to_bytes());
    let delisting = Delist {
        maker: addr(2),
        listing: Account { key: addr(60), data: listing_accounts.listing },
        asset: addr(3),
        collection: None,
    };
    ledger.run(delist(&delisting).unwrap());
    assert_eq!(ledger.owners[&addr(3).to_bytes()], addr(2).to_bytes());
}

#[test]
fn configured_marketplace_sells_at_any_price() {
    let accounts = Initialize { admin: addr(51) };
    let bumps = InitializeBumps { marketplace: 254, treasury: 253, rewards_mint: 252 };
    let m = initialize(&accounts, "bazaar".to_string(), 10_000, &bumps).unwrap();
    let mut b = buy_accounts(u64::MAX, 0);
    b.marketplace.data = m;
    let cpis = b.send_sol();
    assert_eq!(
        cpis[0],
        Cpi::SystemTransfer { from: addr(1), to: addr(2), amount: Lamports::Exact(0), signer: None }
    );
    assert_eq!(
        cpis[1],
        Cpi::SystemTransfer { from: addr(1), to: addr(5), amount: Lamports::Exact(u64::MAX), signer: None }
    );
}

#[test]
fn seller_accepting_own_offer_keeps_amount_less_fee() {
    let mut accounts = accept_accounts(40_000, 250);
    accounts.maker = addr(9);
    let mut ledger = Ledger::default();
    ledger.lamports.insert(addr(81).to_bytes(), 40_500);
    ledger.lamports.insert(addr(9).to_bytes(), 100);
    ledger.run(accounts.accept().unwrap());
    assert_eq!(ledger.lamports(addr(81)), 0);
    assert_eq!(ledger.lamports(addr(9)), 100 + 40_500 - 1_000);
    assert_eq!(ledger.lamports(addr(5)), 1_000);
}

#[test]
fn seller_buying_own_listing_pays_only_fee() {
    let mut accounts = buy_accounts(1_000_000, 250);
    accounts.maker = addr(1);
    let mut ledger = Ledger::default();
    ledger.lamports.insert(addr(1).to_bytes(), 1_000_000);
    ledger.run(buy(&accounts));
    assert_eq!(ledger.lamports(addr(1)), 975_000);
    assert_eq!(ledger.lamports(addr(5)), 25_000);
}

#[test]
fn only_accept_and_cancel_sign_as_vault() {
    let signs_as_vault =
        |c: &Cpi| {
            let signer = match c {
                Cpi::SystemTransfer { signer, .. }
                | Cpi::TokenTransfer { signer, .. }
                | Cpi::MintTo { signer, .. }
                | Cpi::AssetTransfer { signer, .. } => signer,
            };
            matches!(signer, Some(PdaSigner::OfferVault { .. }))
        };
    let withdraw = WithdrawFee {
        admin: addr(51),
        marketplace: market(250),
        treasury: addr(5),
        to: addr(90),
        payment_mint: MintAccount { key: addr(70), decimals: 9 },
        treasury_payment_account: addr(13),
        to_payment_ata: addr(91),
    };
    let mut make = MakeOffer {
        buyer: addr(9),
        asset: addr(3),
        offer: Offer { buyer: addr(0), asset: addr(0), amount: 0, bump: 0, vault_bump: 0 },
        vault: addr(81),
    };
    let delisting = Delist { maker: addr(2), listing: listing(10), asset: addr(3), collection: None };
    let others = [
        buy(&buy_accounts(1_000, 250)),
        buy_with_token(&token_accounts(1_000, 250, addr(70))).unwrap(),
        delist(&delisting).unwrap(),
        make.create_offer(5, &MakeOfferBumps { offer: 1, vault: 2 }).unwrap(),
        withdraw.withdraw_sol(5).unwrap(),
        withdraw.withdraw_token(5).unwrap(),
    ];
    for plan in &others {
        assert!(!plan.iter().any(|c| signs_as_vault(c)));
        for c in plan {
            if let Cpi::SystemTransfer { from, .. } = c {
                assert!(*from != addr(81));
            }
        }
    }
    let accepted = accept_accounts(40_000, 250).accept().unwrap();
    assert_eq!(accepted.iter().filter(|c| signs_as_vault(c)).count(), 3);
    let cancel = CancelOffer { buyer: addr(9), asset: addr(3), offer: offer(5_000), vault: addr(81) };
    assert_eq!(cancel.cancel().unwrap().iter().filter(|c| signs_as_vault(c)).count(), 1);
}

#[test]
fn seller_buying_own_listing_with_tokens_pays_only_fee() {
    let mut accounts = token_accounts(2_000, 500, addr(70));
    accounts.maker = addr(1);
    accounts.maker_payment_ata = addr(11);
    let mut ledger = Ledger::default();
    ledger.tokens.insert(addr(11).to_bytes(), 2_000);
    ledger.run(buy_with_token(&accounts).unwrap());
    assert_eq!(ledger.tokens(addr(11)), 1_900);
    assert_eq!(ledger.tokens(addr(13)), 100);
    assert_eq!(ledger.tokens(addr(7)), 20);
}

#[test]
fn paying_in_reward_token_credits_reward_to_payment_account() {
    let mut accounts = token_accounts(2_000, 500, addr(6));
    accounts.listing.data.payment_mint = addr(6);
    accounts.taker_reward_ata = addr(11);
    let mut ledger = Ledger::default();
    ledger.tokens.insert(addr(11).to_bytes(), 3_000);
    ledger.run(buy_with_token(&accounts).unwrap());
    assert_eq!(ledger.tokens(addr(11)), 3_000 - 2_000 + 20);
    assert_eq!(ledger.tokens(addr(12)), 1_900);
    assert_eq!(ledger.tokens(addr(13)), 100);
}
