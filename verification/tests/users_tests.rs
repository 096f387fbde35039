use fifo_queue::users::{count_specific_user, sort_by_static, Statistic, User};

#[test]
fn test_sort_users() {
    let mut users = Vec::new();
    users.push(User {
        name: "user-1".to_string(),
        weight: 50,
        height: 165,
    });
    users.push(User {
        name: "user-2".to_string(),
        weight: 70,
        height: 160,
    });
    users.push(User {
        name: "user-3".to_string(),
        weight: 60,
        height: 180,
    });

    println!("{:?}", users);

    sort_by_static(&mut users, Statistic::UserHeight);
    println!("{:?}", users);

    sort_by_static(&mut users, Statistic::UserWeight);
    println!("{:?}", users);
}

#[test]
fn sorting_orders_by_the_chosen_statistic() {
    let mut users = Vec::new();
    users.push(User {
        name: "user-1".to_string(),
        weight: 50,
        height: 165,
    });
    users.push(User {
        name: "user-2".to_string(),
        weight: 70,
        height: 160,
    });
    users.push(User {
        name: "user-3".to_string(),
        weight: 60,
        height: 180,
    });

    sort_by_static(&mut users, Statistic::UserHeight);
    let by_height: Vec<&str> = users.iter().map(|u| u.name.as_str()).collect();
    assert_eq!(by_height, ["user-3", "user-1", "user-2"]);

    sort_by_static(&mut users, Statistic::UserWeight);
    let by_weight: Vec<&str> = users.iter().map(|u| u.name.as_str()).collect();
    assert_eq!(by_weight, ["user-2", "user-3", "user-1"]);
}

struct Case {
    test_fn: fn(u: &User) -> bool,
    want: usize,
}

fn t1(u: &User) -> bool {
    u.weight > 50
}

fn t2(u: &User) -> bool {
    u.height > 170
}

#[test]
fn test_count_specific_user() {
    let mut users = Vec::new();
    users.push(User {
        name: "user-1".to_string(),
        weight: 50,
        height: 165,
    });
    users.push(User {
        name: "user-2".to_string(),
        weight: 70,
        height: 160,
    });
    users.push(User {
        name: "user-3".to_string(),
        weight: 60,
        height: 180,
    });

    let cases = [
        Case {
            test_fn: t1,
            want: 2,
        },
        Case {
            test_fn: t2,
            want: 1,
        },
    ];

    for c in cases {
        let ac = count_specific_user(&users, c.test_fn);
        assert_eq!(ac, c.want);
    }
}
