use vatan_pay::{
    calculate_fee, daily_limit_reached, day_bucket, record_creation, refund_requires_authorization,
    remittance_id, validate_amount, AccountId, DataKey, Error, Party, Remittance, Status, Table,
    UserStats, VatanPayContract, DAILY_LIMIT, MAX_AMOUNT, MIN_AMOUNT, SECONDS_PER_DAY,
};

fn who(tag: u8) -> AccountId {
    AccountId { strkey: [tag; 56] }
}

fn asset() -> AccountId {
    who(b'T')
}

fn create_at(
    ledger: &mut VatanPayContract,
    sender: AccountId,
    recipient: AccountId,
    amount: i128,
    now: u64,
) -> Result<[u8; 32], Error> {
    assert!(ledger.has_room(sender));
    ledger.create_remittance(sender, recipient, amount, now, true, true)
}

#[test]
fn fee_is_floor_of_half_a_percent() {
    assert_eq!(calculate_fee(500_0000000), 2_5000000);
    assert_eq!(calculate_fee(0), 0);
    assert_eq!(calculate_fee(199), 0);
    assert_eq!(calculate_fee(200), 1);
    assert_eq!(calculate_fee(399), 1);
    assert_eq!(calculate_fee(MIN_AMOUNT), 5000000);
    assert_eq!(calculate_fee(MAX_AMOUNT), 250_0000000);
    assert_eq!(calculate_fee(i128::MAX), i128::MAX / 200);
    for a in [100_0000000i128, 123_4567891, 999_9999999, 50000_0000000] {
        assert_eq!(calculate_fee(a), a * 50 / 10000);
    }
}

#[test]
fn fee_rounds_down_below_zero() {
    assert_eq!(calculate_fee(-1), -1);
    assert_eq!(calculate_fee(-200), -1);
    assert_eq!(calculate_fee(-201), -2);
    assert_eq!(calculate_fee(-400), -2);
    assert_eq!(calculate_fee(i128::MIN), (i128::MIN).div_euclid(200));
    for a in [-1i128, -199, -200, -201, -10_000, -123_456_789] {
        assert_eq!(calculate_fee(a), (a * 50).div_euclid(10000));
    }
}

#[test]
fn fee_quote_is_idempotent() {
    assert_eq!(calculate_fee(777_0000000), calculate_fee(777_0000000));
}

#[test]
fn amount_bounds_are_inclusive() {
    assert_eq!(MIN_AMOUNT, 100_0000000);
    assert_eq!(MAX_AMOUNT, 50000_0000000);
    assert_eq!(validate_amount(MIN_AMOUNT), Ok(()));
    assert_eq!(validate_amount(MAX_AMOUNT), Ok(()));
    assert_eq!(validate_amount(MIN_AMOUNT - 1), Err(Error::AmountOutOfRange));
    assert_eq!(validate_amount(MAX_AMOUNT + 1), Err(Error::AmountOutOfRange));
    assert_eq!(validate_amount(0), Err(Error::AmountOutOfRange));
    assert_eq!(validate_amount(-500_0000000), Err(Error::AmountOutOfRange));
    assert_eq!(validate_amount(i128::MAX), Err(Error::AmountOutOfRange));
    assert_eq!(validate_amount(i128::MIN), Err(Error::AmountOutOfRange));
}

#[test]
fn out_of_range_creation_changes_nothing() {
    let mut ledger = VatanPayContract::new();
    let (s, r) = (who(b'S'), who(b'R'));
    let id = create_at(&mut ledger, s, r, MIN_AMOUNT, 10).unwrap();
    let stats = ledger.get_user_stats(s);
    ledger.take_notices();
    for amount in [MIN_AMOUNT - 1, MAX_AMOUNT + 1, 0, -1] {
        assert_eq!(
            ledger.prepare_remittance(s, amount, asset(), 10, true),
            Err(Error::AmountOutOfRange)
        );
        assert_eq!(
            ledger.create_remittance(s, r, amount, 10, true, true),
            Err(Error::AmountOutOfRange)
        );
    }
    assert_eq!(ledger.remittance_count(), 1);
    assert_eq!(ledger.get_user_stats(s), stats);
    assert_eq!(ledger.get_user_history(s, 0, 10).len(), 1);
    assert_eq!(ledger.get_remittance(id).unwrap().amount_aed, MIN_AMOUNT);
    assert!(ledger.take_notices().is_empty());
}

#[test]
fn creation_checks_come_in_order() {
    let mut ledger = VatanPayContract::new();
    let (s, r) = (who(b'S'), who(b'R'));
    // Authorization comes before the amount.
    assert_eq!(ledger.create_remittance(s, r, 0, 0, false, false), Err(Error::Unauthorized));
    assert_eq!(ledger.prepare_remittance(s, 0, asset(), 0, false), Err(Error::Unauthorized));
    // The amount comes before the limit and the transfer.
    for _ in 0..5 {
        create_at(&mut ledger, s, r, MIN_AMOUNT, 0).unwrap();
    }
    assert_eq!(ledger.create_remittance(s, r, 1, 0, true, false), Err(Error::AmountOutOfRange));
    // The limit comes before the transfer.
    assert_eq!(
        ledger.create_remittance(s, r, MIN_AMOUNT, 0, true, false),
        Err(Error::DailyLimitExceeded)
    );
    // The transfer comes last.
    assert_eq!(
        ledger.create_remittance(who(b'X'), r, MIN_AMOUNT, 0, true, false),
        Err(Error::TransferFailed)
    );
}

#[test]
fn prepared_transfer_moves_the_whole_amount_into_escrow() {
    let ledger = VatanPayContract::new();
    let s = who(b'S');
    let plan = ledger.prepare_remittance(s, 500_0000000, asset(), 0, true).unwrap();
    assert_eq!(plan.amount, 500_0000000);
    assert_eq!(plan.from, Party::Account(s));
    assert_eq!(plan.to, Party::Escrow);
    assert_eq!(plan.asset, asset());
}

#[test]
fn sixth_creation_of_the_day_is_rejected() {
    let mut ledger = VatanPayContract::new();
    let (s, r) = (who(b'S'), who(b'R'));
    let day = 19_000u64;
    for k in 1..=5u32 {
        let now = day * SECONDS_PER_DAY + 1000 * k as u64;
        assert!(create_at(&mut ledger, s, r, 500_0000000, now).is_ok());
        let stats = ledger.get_user_stats(s);
        assert_eq!(stats.daily_count, k);
        assert_eq!(stats.total_remittances, k);
        assert_eq!(stats.last_tx_date, day);
    }
    let late = day * SECONDS_PER_DAY + SECONDS_PER_DAY - 1;
    assert_eq!(create_at(&mut ledger, s, r, 500_0000000, late), Err(Error::DailyLimitExceeded));
    assert_eq!(ledger.get_user_stats(s).daily_count, 5);
    assert_eq!(ledger.get_user_stats(s).total_remittances, 5);

    // Another sender is not affected.
    assert!(create_at(&mut ledger, r, s, 500_0000000, late).is_ok());

    // The next day the count starts again at 1.
    let next_day = (day + 1) * SECONDS_PER_DAY;
    assert!(create_at(&mut ledger, s, r, 500_0000000, next_day).is_ok());
    let stats = ledger.get_user_stats(s);
    assert_eq!(stats.daily_count, 1);
    assert_eq!(stats.total_remittances, 6);
    assert_eq!(stats.last_tx_date, day + 1);
}

#[test]
fn rate_limit_pieces() {
    assert_eq!(DAILY_LIMIT, 5);
    assert_eq!(day_bucket(0), 0);
    assert_eq!(day_bucket(86399), 0);
    assert_eq!(day_bucket(86400), 1);
    assert_eq!(day_bucket(u64::MAX), u64::MAX / 86400);

    let full = UserStats { total_remittances: 9, daily_count: 5, last_tx_date: 3 };
    assert!(daily_limit_reached(&full, 3 * 86400));
    assert!(daily_limit_reached(&full, 4 * 86400 - 1));
    assert!(!daily_limit_reached(&full, 4 * 86400));
    assert!(!daily_limit_reached(&full, 0));
    assert_eq!(record_creation(full, 3 * 86400 + 5), Err(Error::DailyLimitExceeded));
    assert_eq!(
        record_creation(full, 4 * 86400),
        Ok(UserStats { total_remittances: 10, daily_count: 1, last_tx_date: 4 })
    );
    let some = UserStats { total_remittances: 9, daily_count: 4, last_tx_date: 3 };
    assert_eq!(
        record_creation(some, 3 * 86400 + 5),
        Ok(UserStats { total_remittances: 10, daily_count: 5, last_tx_date: 3 })
    );
    assert_eq!(
        record_creation(UserStats::empty(), 50),
        Ok(UserStats { total_remittances: 1, daily_count: 1, last_tx_date: 0 })
    );
    let over = UserStats { total_remittances: 7, daily_count: u32::MAX, last_tx_date: 3 };
    assert_eq!(
        record_creation(over, 9 * 86400),
        Ok(UserStats { total_remittances: 8, daily_count: 1, last_tx_date: 9 })
    );
}

#[test]
fn terminal_records_reject_every_transition() {
    let mut ledger = VatanPayContract::new();
    let (s, r) = (who(b'S'), who(b'R'));
    let done = create_at(&mut ledger, s, r, 500_0000000, 0).unwrap();
    let back = create_at(&mut ledger, s, r, 600_0000000, 0).unwrap();
    assert_eq!(ledger.complete_remittance(done, 11225_0000000, 2245_0000), Ok(()));
    assert_eq!(ledger.refund_remittance(back, 10, true, true), Ok(()));

    let completed = ledger.get_remittance(done).unwrap();
    let failed = ledger.get_remittance(back).unwrap();
    for now in [0u64, 86399, 86400, 10_000_000] {
        for auth in [false, true] {
            for moved in [false, true] {
                for id in [done, back] {
                    assert_eq!(ledger.complete_remittance(id, 7, 8), Err(Error::InvalidState));
                    assert_eq!(
                        ledger.refund_remittance(id, now, auth, moved),
                        Err(Error::InvalidState)
                    );
                    assert_eq!(
                        ledger.prepare_refund(id, asset(), now, auth),
                        Err(Error::InvalidState)
                    );
                }
            }
        }
    }
    assert_eq!(ledger.get_remittance(done).unwrap(), completed);
    assert_eq!(ledger.get_remittance(back).unwrap(), failed);
    assert_eq!(completed.amount_inr, 11225_0000000);
    assert_eq!(completed.exchange_rate, 2245_0000);
    assert_eq!(failed.amount_inr, 0);
    assert_eq!(failed.exchange_rate, 0);
    assert_eq!(failed.amount_aed, 600_0000000);
    assert!(completed.status.is_terminal());
    assert!(failed.status.is_terminal());
    assert!(!Status::Pending.is_terminal());
}

#[test]
fn unknown_identifier_is_not_found() {
    let mut ledger = VatanPayContract::new();
    let id = remittance_id(1);
    assert_eq!(ledger.get_remittance(id), Err(Error::NotFound));
    assert_eq!(ledger.complete_remittance(id, 1, 1), Err(Error::NotFound));
    assert_eq!(ledger.refund_remittance(id, 0, true, true), Err(Error::NotFound));
    assert_eq!(ledger.prepare_refund(id, asset(), 0, true), Err(Error::NotFound));
    assert!(!ledger.has(&DataKey::Remittance(id)));
    create_at(&mut ledger, who(b'S'), who(b'R'), MIN_AMOUNT, 0).unwrap();
    assert!(ledger.has(&DataKey::Remittance(id)));
    assert_eq!(ledger.get_remittance([0u8; 32]), Err(Error::NotFound));
}

#[test]
fn refund_needs_the_sender_only_within_a_day() {
    assert!(refund_requires_authorization(1000, 1000));
    assert!(refund_requires_authorization(1000, 1000 + 86399));
    assert!(!refund_requires_authorization(1000, 1000 + 86400));
    assert!(!refund_requires_authorization(0, u64::MAX));
    // A clock reading before the creation counts as within the day.
    assert!(refund_requires_authorization(1000, 999));
    assert!(refund_requires_authorization(u64::MAX, 0));

    let (s, r) = (who(b'S'), who(b'R'));
    let created = 5_000u64;
    let mut ledger = VatanPayContract::new();
    let id = create_at(&mut ledger, s, r, 500_0000000, created).unwrap();

    assert_eq!(ledger.prepare_refund(id, asset(), created + 86399, false), Err(Error::Unauthorized));
    assert_eq!(
        ledger.refund_remittance(id, created + 86399, false, true),
        Err(Error::Unauthorized)
    );
    assert_eq!(ledger.get_remittance(id).unwrap().status, Status::Pending);

    let plan = ledger.prepare_refund(id, asset(), created + 86400, false).unwrap();
    assert_eq!(plan.amount, 500_0000000);
    assert_eq!(plan.from, Party::Escrow);
    assert_eq!(plan.to, Party::Account(s));
    assert_eq!(ledger.refund_remittance(id, created + 86400, false, true), Ok(()));
    assert_eq!(ledger.get_remittance(id).unwrap().status, Status::Failed);

    // Within the day the sender's authorization is enough.
    let early = create_at(&mut ledger, s, r, 500_0000000, created).unwrap();
    assert_eq!(ledger.refund_remittance(early, created, true, true), Ok(()));
}

#[test]
fn created_record_reads_back() {
    let mut ledger = VatanPayContract::new();
    let (s, r) = (who(b'S'), who(b'R'));
    let id = create_at(&mut ledger, s, r, 1234_5678901, 42).unwrap();
    assert_eq!(id, remittance_id(1));
    assert_eq!(
        ledger.get_remittance(id),
        Ok(Remittance {
            id,
            sender: s,
            recipient: r,
            amount_aed: 1234_5678901,
            amount_inr: 0,
            exchange_rate: 0,
            fee: 6_1728394,
            status: Status::Pending,
            created_at: 42,
        })
    );
    let second = create_at(&mut ledger, s, r, MIN_AMOUNT, 43).unwrap();
    assert_eq!(second, remittance_id(2));
    assert_eq!(ledger.remittance_count(), 2);
}

#[test]
fn history_is_latest_first_and_paged() {
    let mut ledger = VatanPayContract::new();
    let (a, b, c) = (who(b'A'), who(b'B'), who(b'C'));
    // Creations 1..=7; `a` is a party to 1, 2, 4, 5, 7.
    let parties = [(a, b), (b, a), (b, c), (a, c), (c, a), (c, b), (a, b)];
    let mut ids = Vec::new();
    for (k, (s, r)) in parties.iter().enumerate() {
        let now = (k as u64) * SECONDS_PER_DAY;
        ids.push(create_at(&mut ledger, *s, *r, MIN_AMOUNT + k as i128, now).unwrap());
    }
    let all = ledger.get_user_history(a, 0, 5);
    let expected: Vec<[u8; 32]> = vec![ids[6], ids[4], ids[3], ids[1], ids[0]];
    assert_eq!(all.iter().map(|r| r.id).collect::<Vec<_>>(), expected);
    for w in all.windows(2) {
        assert!(w[0].created_at > w[1].created_at);
    }
    assert_eq!(ledger.get_user_history(a, 0, u32::MAX), all);

    for k in 0..7u32 {
        for m in 0..7u32 {
            let page = ledger.get_user_history(a, k, m);
            let from = (k as usize).min(all.len());
            let to = ((k + m) as usize).min(all.len());
            assert_eq!(page, all[from..to].to_vec());
        }
    }
    assert!(ledger.get_user_history(a, 5, 10).is_empty());
    assert!(ledger.get_user_history(a, u32::MAX, u32::MAX).is_empty());
    assert!(ledger.get_user_history(a, 0, 0).is_empty());
    assert!(ledger.get_user_history(who(b'Z'), 0, 10).is_empty());
    // `b` is a party to 1, 2, 3, 6, 7 and `c` to 3, 4, 5, 6.
    let of_b = ledger.get_user_history(b, 0, 10);
    assert_eq!(of_b.iter().map(|r| r.id).collect::<Vec<_>>(), vec![ids[6], ids[5], ids[2], ids[1], ids[0]]);
    let of_c = ledger.get_user_history(c, 0, 10);
    assert_eq!(of_c.iter().map(|r| r.id).collect::<Vec<_>>(), vec![ids[5], ids[4], ids[3], ids[2]]);
}

#[test]
fn history_shows_later_transitions() {
    let mut ledger = VatanPayContract::new();
    let (s, r) = (who(b'S'), who(b'R'));
    let first = create_at(&mut ledger, s, r, MIN_AMOUNT, 0).unwrap();
    let second = create_at(&mut ledger, s, r, MIN_AMOUNT, 0).unwrap();
    ledger.complete_remittance(first, 9, 9).unwrap();
    ledger.refund_remittance(second, 0, true, true).unwrap();
    let seen = ledger.get_user_history(r, 0, 10);
    assert_eq!(seen.len(), 2);
    assert_eq!((seen[0].id, seen[0].status), (second, Status::Failed));
    assert_eq!((seen[1].id, seen[1].status), (first, Status::Completed));
}

#[test]
fn history_passes_over_missing_records() {
    // Counter says 3, but only the records of 1 and 3 are stored.
    let (s, r) = (who(b'S'), who(b'R'));
    let mut ledger = VatanPayContract::restore(None, 3);
    for n in [3u64, 1] {
        ledger.put_remittance(Remittance {
            id: remittance_id(n),
            sender: s,
            recipient: r,
            amount_aed: MIN_AMOUNT,
            amount_inr: 0,
            exchange_rate: 0,
            fee: calculate_fee(MIN_AMOUNT),
            status: Status::Pending,
            created_at: n,
        });
    }
    let seen = ledger.get_user_history(s, 0, 10);
    assert_eq!(seen.iter().map(|r| r.created_at).collect::<Vec<_>>(), vec![3, 1]);
    assert!(!ledger.has(&DataKey::Remittance(remittance_id(2))));
}

#[test]
fn stats_default_to_zero() {
    let ledger = VatanPayContract::new();
    let stats = ledger.get_user_stats(who(b'N'));
    assert_eq!(stats, UserStats { total_remittances: 0, daily_count: 0, last_tx_date: 0 });
    assert_eq!(stats, UserStats::empty());
    assert!(!ledger.has(&DataKey::UserStats(who(b'N'))));
}

#[test]
fn restored_ledger_continues() {
    let admin = who(b'A');
    let (s, r) = (who(b'S'), who(b'R'));
    let mut ledger = VatanPayContract::restore(Some(admin), 41);
    ledger.put_user_stats(s, UserStats { total_remittances: 41, daily_count: 5, last_tx_date: 7 });
    assert_eq!(ledger.admin(), Some(admin));
    assert_eq!(ledger.remittance_count(), 41);
    assert!(ledger.has(&DataKey::UserStats(s)));
    assert_eq!(ledger.initialize(admin), Err(Error::AlreadyInitialized));
    assert_eq!(
        create_at(&mut ledger, s, r, MIN_AMOUNT, 7 * SECONDS_PER_DAY + 3),
        Err(Error::DailyLimitExceeded)
    );
    let id = create_at(&mut ledger, s, r, MIN_AMOUNT, 8 * SECONDS_PER_DAY).unwrap();
    assert_eq!(id, remittance_id(42));
    assert_eq!(ledger.remittance_count(), 42);
    assert_eq!(
        ledger.get_user_stats(s),
        UserStats { total_remittances: 42, daily_count: 1, last_tx_date: 8 }
    );
}

#[test]
fn counters_at_their_ceiling_leave_no_room() {
    let s = who(b'S');
    let mut ledger = VatanPayContract::restore(None, u64::MAX);
    assert!(!ledger.has_room(s));
    let mut ledger2 = VatanPayContract::restore(None, 0);
    ledger2.put_user_stats(s, UserStats { total_remittances: u32::MAX, daily_count: 0, last_tx_date: 0 });
    assert!(!ledger2.has_room(s));
    assert!(ledger2.has_room(who(b'R')));
    ledger.put_user_stats(s, UserStats::empty());
    assert!(!ledger.has_room(s));
}

#[test]
fn initialize_resets_the_counter() {
    let mut ledger = VatanPayContract::new();
    let (s, r) = (who(b'S'), who(b'R'));
    create_at(&mut ledger, s, r, MIN_AMOUNT, 0).unwrap();
    assert_eq!(ledger.remittance_count(), 1);
    assert_eq!(ledger.initialize(who(b'A')), Ok(()));
    assert_eq!(ledger.remittance_count(), 0);
    assert_eq!(ledger.admin(), Some(who(b'A')));
}

#[test]
fn accounts_compare_by_their_bytes() {
    let mut other = [b'S'; 56];
    assert!(who(b'S').same_as(&AccountId { strkey: other }));
    other[55] = b'T';
    assert!(!who(b'S').same_as(&AccountId { strkey: other }));
}

#[test]
fn table_behaves_as_a_map() {
    let mut table: Table<4, u32> = Table::new();
    assert_eq!(table.get(&[1, 2, 3, 4]), None);
    assert!(!table.contains(&[1, 2, 3, 4]));
    table.insert([1, 2, 3, 4], 10);
    table.insert([4, 3, 2, 1], 20);
    assert_eq!(table.get(&[1, 2, 3, 4]), Some(10));
    assert_eq!(table.get(&[4, 3, 2, 1]), Some(20));
    table.insert([1, 2, 3, 4], 30);
    assert_eq!(table.get(&[1, 2, 3, 4]), Some(30));
    assert_eq!(table.get(&[4, 3, 2, 1]), Some(20));
    assert_eq!(table.get(&[1, 2, 3, 5]), None);
    assert!(table.contains(&[4, 3, 2, 1]));
}
