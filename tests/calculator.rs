use transfer_analytics::{
    calculate_user_stats, fits_accumulator_limits, generator, CalculatesStats, Now,
    StatsCalculator, SystemNow, Transfer, TransferGenConfig, TransferGenerator, UserStats,
};

fn find<'a>(stats: &'a [UserStats], address: &str) -> Option<&'a UserStats> {
    stats.iter().find(|stat| stat.address == address)
}

#[test]
fn calculator_one_transfer() {
    let config = TransferGenConfig {
        min_amount: 1,
        max_amount: 1,
        min_price: 10,
        max_price: 10,
        ..Default::default()
    };

    let transfers = generator().with_config(config).build().generate(1).expect("transfers");

    let stats = StatsCalculator.calculate_user_stats(&transfers);
    assert_eq!(
        stats.len(),
        2,
        "One transfer should generate 2 stats for sender and receiver"
    );

    let sender = &transfers[0].from;
    let receiver = &transfers[0].to;

    let sender_stat = find(&stats, sender).expect("Sender is not found in stats");
    let receiver_stat = find(&stats, receiver).expect("Receiver is not found in stats");

    assert_eq!(&sender_stat.address, sender);
    assert_eq!(&sender_stat.max_balance, &0, "The sender balance was 0 before transfer, it ended up being -1 afterwards, hence the max balance is 0");
    assert_eq!(&sender_stat.total_volume, &1);
    assert_eq!(&sender_stat.avg_sell_price, &10);
    assert_eq!(&sender_stat.avg_buy_price, &0);

    assert_eq!(&receiver_stat.address, receiver);
    assert_eq!(&receiver_stat.max_balance, &1);
    assert_eq!(&receiver_stat.total_volume, &1);
    assert_eq!(&receiver_stat.avg_buy_price, &10);
    assert_eq!(&receiver_stat.avg_sell_price, &0);
}

#[test]
fn calculator_two_transfers_between_same_addresses() {
    let bob = "0xBob".to_string();
    let john = "0xJohn".to_string();

    let transfers = vec![
        Transfer {
            ts: SystemNow::now_unix().expect("clock"),
            from: bob.clone(),
            to: john.clone(),
            amount: 10,
            usd_price: 50,
        },
        Transfer {
            ts: SystemNow::now_unix().expect("clock"),
            from: john.clone(),
            to: bob.clone(),
            amount: 5,
            usd_price: 25,
        },
    ];

    let stats = StatsCalculator.calculate_user_stats(&transfers);
    assert_eq!(stats.len(), 2, "Only 2 actors");

    let bob_stats = find(&stats, &bob).expect("Bob is not found in stats");
    let john_stats = find(&stats, &john).expect("John is not found in stats");

    assert_eq!(&bob_stats.address, &bob);
    assert_eq!(&bob_stats.max_balance, &0);
    assert_eq!(&bob_stats.total_volume, &15);
    assert_eq!(&bob_stats.avg_sell_price, &50);
    assert_eq!(&bob_stats.avg_buy_price, &25);

    assert_eq!(&john_stats.address, &john);
    assert_eq!(&john_stats.max_balance, &10);
    assert_eq!(&john_stats.total_volume, &15);
    assert_eq!(&john_stats.avg_buy_price, &50);
    assert_eq!(&john_stats.avg_sell_price, &25);
}

#[test]
fn calculator_max_balance() {
    let bob = "0xBob".to_string();

    let transfers = vec![
        Transfer {
            from: bob.clone(),
            amount: 20,
            ..Default::default()
        },
        Transfer {
            to: bob.clone(),
            amount: 20,
            ..Default::default()
        },
        Transfer {
            from: bob.clone(),
            amount: 5,
            ..Default::default()
        },
        Transfer {
            to: bob.clone(),
            amount: 30,
            ..Default::default()
        },
        Transfer {
            from: bob.clone(),
            amount: 10,
            ..Default::default()
        },
    ];

    let stats = StatsCalculator.calculate_user_stats(&transfers);

    let bob_stats = find(&stats, &bob).expect("Bob is not found in stats");

    assert_eq!(&bob_stats.max_balance, &25);
}

fn bob_story() -> Vec<Transfer> {
    let bob = "0xBob".to_string();
    vec![
        Transfer {
            ts: 100,
            from: "0xMint".to_string(),
            to: bob.clone(),
            amount: 1000,
            usd_price: 1,
        },
        Transfer {
            ts: 200,
            from: bob.clone(),
            to: "0xShop".to_string(),
            amount: 200,
            usd_price: 1,
        },
        Transfer {
            ts: 300,
            from: "0xBonus".to_string(),
            to: bob.clone(),
            amount: 500,
            usd_price: 1,
        },
        Transfer {
            ts: 400,
            from: bob.clone(),
            to: "0xFee".to_string(),
            amount: 800,
            usd_price: 1,
        },
    ]
}

#[test]
fn test_chronological_sorting_affects_max_balance_calculation() {
    let bob = "0xBob".to_string();
    let transfers_chronological = bob_story();

    let transfers_random_order = vec![
        transfers_chronological[3].clone(),
        transfers_chronological[0].clone(),
        transfers_chronological[2].clone(),
        transfers_chronological[1].clone(),
    ];

    let stats_correct_order = StatsCalculator.calculate_user_stats(&transfers_chronological);
    let stats_wrong_order = StatsCalculator.calculate_user_stats(&transfers_random_order);

    let bob_correct = find(&stats_correct_order, &bob).expect("Bob is not found in stats");
    let bob_wrong = find(&stats_wrong_order, &bob).expect("Bob is not found in stats");

    assert_eq!(
        bob_correct.total_volume, bob_wrong.total_volume,
        "Total volume should be same regardless of order"
    );
    assert_eq!(
        bob_correct.avg_buy_price, bob_wrong.avg_buy_price,
        "Average prices should be same regardless of order"
    );
    assert_eq!(
        bob_correct.avg_sell_price, bob_wrong.avg_sell_price,
        "Average prices should be same regardless of order"
    );

    assert_eq!(
        bob_correct.max_balance, 1300,
        "Correct chronological order: max balance should be 1300"
    );
    assert_ne!(bob_wrong.max_balance, 1300);
    assert!(bob_wrong.max_balance < bob_correct.max_balance);

    println!(
        "Correct chronological order - Bob's max balance: {}",
        bob_correct.max_balance
    );
    println!("Random order - Bob's max balance: {}", bob_wrong.max_balance);
    println!(
        "Financial impact: ${} difference in reported max balance!",
        (bob_correct.max_balance - bob_wrong.max_balance).abs()
    );
}

#[test]
fn calculator_reordering_keeps_every_volume_and_price() {
    let forward = bob_story();
    let mut backward = bob_story();
    backward.reverse();
    let a = calculate_user_stats(&forward);
    let b = calculate_user_stats(&backward);
    assert_eq!(a.len(), 5);
    assert_eq!(b.len(), 5);
    for stat in &a {
        let other = find(&b, &stat.address).expect("same accounts in both orders");
        assert_eq!(stat.total_volume, other.total_volume);
        assert_eq!(stat.avg_buy_price, other.avg_buy_price);
        assert_eq!(stat.avg_sell_price, other.avg_sell_price);
    }
    let bob = find(&a, "0xBob").expect("Bob is reported");
    assert_eq!(bob.total_volume, 2500);
}

#[test]
fn calculator_reports_only_participants() {
    let transfers = bob_story();
    let stats = calculate_user_stats(&transfers);
    let addresses: Vec<&str> = stats.iter().map(|s| s.address.as_str()).collect();
    assert_eq!(addresses, vec!["0xBob", "0xMint", "0xShop", "0xBonus", "0xFee"]);
    assert!(find(&stats, "0xNobody").is_none());
}

#[test]
fn calculator_no_transfers_no_stats() {
    let stats = calculate_user_stats(&[]);
    assert!(stats.is_empty());
}

#[test]
fn calculator_running_twice_gives_the_same_report() {
    let transfers = bob_story();
    let first = calculate_user_stats(&transfers);
    let second = calculate_user_stats(&transfers);
    assert_eq!(first, second);
}

#[test]
fn calculator_self_transfer_counts_both_sides() {
    let transfers = vec![Transfer {
        ts: 1,
        from: "0xSelf".to_string(),
        to: "0xSelf".to_string(),
        amount: 10,
        usd_price: 5,
    }];
    let stats = calculate_user_stats(&transfers);
    assert_eq!(stats.len(), 1);
    assert_eq!(stats[0].total_volume, 20);
    assert_eq!(stats[0].avg_buy_price, 5);
    assert_eq!(stats[0].avg_sell_price, 5);
    assert_eq!(stats[0].max_balance, 10);
}

#[test]
fn calculator_limits_check() {
    assert!(fits_accumulator_limits(&bob_story()));
    let huge = Transfer {
        ts: 0,
        from: "a".to_string(),
        to: "b".to_string(),
        amount: u64::MAX,
        usd_price: u64::MAX,
    };
    assert!(fits_accumulator_limits(&[huge.clone()]));
    assert!(!fits_accumulator_limits(&[huge.clone(), huge]));
}
