use patterns::inventory::{get_inventory, CoffeeInventory, INITIAL_BEANS};

#[test]
fn fresh_inventory_is_full() {
    let inv = CoffeeInventory::new();
    assert_eq!(inv.get_stock(), 1000);
    assert_eq!(INITIAL_BEANS, 1000);
}

#[test]
fn get_inventory_hands_out_a_full_inventory() {
    let inv = get_inventory();
    assert_eq!(inv.get_stock(), 1000);
}

#[test]
fn covered_withdrawal_decreases_the_stock() {
    let mut inv = CoffeeInventory::new();
    inv.use_beans(200);
    assert_eq!(inv.get_stock(), 800);
    inv.use_beans(300);
    assert_eq!(inv.get_stock(), 500);
}

#[test]
fn withdrawal_of_the_whole_stock_empties_it() {
    let mut inv = CoffeeInventory::new();
    inv.use_beans(1000);
    assert_eq!(inv.get_stock(), 0);
}

#[test]
fn oversized_withdrawal_is_refused() {
    let mut inv = CoffeeInventory::new();
    inv.use_beans(1001);
    assert_eq!(inv.get_stock(), 1000);
    inv.use_beans(999);
    inv.use_beans(2);
    assert_eq!(inv.get_stock(), 1);
}
