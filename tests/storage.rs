use battlefield::{Computer, Counter, Disk, Folder, LogLine, Permission, Storage};

fn file_names(s: &Storage) -> Vec<String> {
    s.computer().disk.folder.files.clone()
}

#[test]
fn new_sets_owner_and_seed() {
    let s = Storage::new("alice".to_string());
    assert_eq!(s.get_num(), 3);
    assert_eq!(s.computer().owner, "alice");
    assert_eq!(s.computer().disk.name, "");
    assert_eq!(s.computer().disk.folder.id, 0);
    assert!(s.computer().disk.folder.files.is_empty());
    assert!(s.computer().disk.permissions.is_empty());
}

#[test]
fn scenario_alice() {
    let mut s = Storage::new("alice".to_string());
    s.increment();
    s.increment();
    assert_eq!(s.get_num(), 5);
    s.add_file("a.txt".to_string());
    assert_eq!(file_names(&s), vec!["a.txt".to_string()]);
    assert_eq!(
        s.computer().disk.permissions,
        vec![Permission { id: 1, writable: true }]
    );
    let logs = s.reset();
    assert_eq!(logs, vec![LogLine::ResetToZero]);
    assert_eq!(s.get_num(), 0);
    assert_eq!(file_names(&s), vec!["a.txt".to_string()]);
}

#[test]
fn increments_and_decrements_from_initial_wrap() {
    let mut s = Storage::new("bob".to_string());
    for _ in 0..125 {
        s.increment();
    }
    assert_eq!(s.get_num(), -128);
    s.decrement();
    s.decrement();
    assert_eq!(s.get_num(), 126);
    assert_eq!(s.counter().val, 126);
}

#[test]
fn increment_reports_value_then_advice() {
    let mut s = Storage::new("bob".to_string());
    let logs = s.increment();
    assert_eq!(logs, vec![LogLine::Increased(4), LogLine::OverflowAdvice]);
    let logs = s.decrement();
    assert_eq!(logs, vec![LogLine::Decreased(3), LogLine::OverflowAdvice]);
}

#[test]
fn reset_twice_stays_zero() {
    let mut s = Storage::new("carol".to_string());
    s.increment();
    s.reset();
    assert_eq!(s.get_num(), 0);
    s.reset();
    assert_eq!(s.get_num(), 0);
}

#[test]
fn add_file_keeps_every_name_in_order() {
    let mut s = Storage::new("dave".to_string());
    let names = ["x", "", "x", "y.md"];
    for n in names.iter() {
        s.add_file(n.to_string());
    }
    let expected: Vec<String> = names.iter().map(|n| n.to_string()).collect();
    assert_eq!(file_names(&s), expected);
    assert_eq!(s.computer().disk.permissions.len(), 4);
    for p in s.computer().disk.permissions.iter() {
        assert_eq!(*p, Permission { id: 1, writable: true });
    }
    assert_eq!(s.get_num(), 3);
}

#[test]
fn payable_entry_points_log_and_keep_state() {
    let mut s = Storage::new("erin".to_string());
    assert_eq!(Storage::payable_annotated_view(), vec![LogLine::FeesBurned]);
    assert_eq!(s.payable_annotated_mut(), vec![LogLine::FeesBurned]);
    assert_eq!(Storage::payable_no_annotation(), vec![LogLine::NotPayable]);
    assert_eq!(s.get_num(), 3);
    Storage::no_args();
}

#[test]
fn transfer_money_widens_amount() {
    let mut s = Storage::new("erin".to_string());
    let t = s.transfer_money("bob.near".to_string(), u64::MAX);
    assert_eq!(t.receiver, "bob.near");
    assert_eq!(t.amount, u64::MAX as u128);
    assert_eq!(s.get_num(), 3);
}

#[test]
fn from_parts_restores_state() {
    let computer = Computer {
        owner: "frank".to_string(),
        disk: Disk {
            name: "d1".to_string(),
            folder: Folder {
                id: 7,
                files: vec!["f".to_string()],
            },
            permissions: vec![Permission { id: 1, writable: true }],
        },
    };
    let s = Storage::from_parts(computer, Counter::new(-5));
    assert_eq!(s.get_num(), -5);
    assert_eq!(s.computer().owner, "frank");
    assert_eq!(s.computer().disk.name, "d1");
    assert_eq!(s.computer().disk.folder.id, 7);
    assert_eq!(file_names(&s), vec!["f".to_string()]);
}
