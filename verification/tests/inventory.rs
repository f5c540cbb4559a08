use text_adventurers::inventory::{Inventory, Item, ItemBehavior, KeyData};

#[test]
pub fn new_inventories_start_empty() {
    assert_eq!(Inventory::new().total_item_count(), 0);
    assert!(Inventory::new().empty());
}

#[test]
pub fn inventories_hold_items() {
    let mut inventory = Inventory::new();
    assert_eq!(inventory.get_stack_by_id("id1"), None);
    inventory.add_item(Item::new(
        String::from("id1"),
        String::from("Item 1"),
        vec![],
    ));
    assert!(!inventory.empty());
    assert_eq!(inventory.total_item_count(), 1);
    let stack = inventory.get_stack_by_id("id1").unwrap();
    assert_eq!(
        stack.item(),
        &Item::new(String::from("id1"), String::from("Item 1"), vec![])
    );
    assert_eq!(stack.count(), 1);
    inventory.get_mut_stack_by_id("id1").unwrap().add();
    assert_eq!(inventory.get_stack_by_id("id1").unwrap().count(), 2);
    inventory.get_mut_stack_by_id("id1").unwrap().add_n(5);
    assert_eq!(inventory.get_stack_by_id("id1").unwrap().count(), 7);
    inventory.get_mut_stack_by_id("id1").unwrap().remove_n(4);
    assert_eq!(inventory.get_stack_by_id("id1").unwrap().count(), 3);
    inventory.get_mut_stack_by_id("id1").unwrap().remove();
    assert_eq!(inventory.get_stack_by_id("id1").unwrap().count(), 2);
    inventory.get_mut_stack_by_id("id1").unwrap().remove_n(300);
    assert_eq!(inventory.get_stack_by_id("id1"), None);
}

#[test]
pub fn equal_ids_share_a_stack_and_the_first_item_stays() {
    let mut inventory = Inventory::new();
    inventory.add_item(Item::new(String::from("rope"), String::from("Rope"), vec![]));
    inventory.add_item(Item::new(String::from("lamp"), String::from("Lamp"), vec![]));
    inventory.add_item(Item::new(
        String::from("rope"),
        String::from("Another rope"),
        vec![ItemBehavior::Equipment],
    ));
    assert_eq!(inventory.total_item_count(), 3);
    let ropes = inventory.get_stack_by_id("rope").unwrap();
    assert_eq!(ropes.count(), 2);
    assert_eq!(ropes.item().name(), "Rope");
    assert_eq!(ropes.item().id(), "rope");
    assert!(ropes.item().behaviors().is_empty());
    assert!(!ropes.empty());
    assert_eq!(inventory.get_stack_by_id("lamp").unwrap().count(), 1);
    assert!(inventory.get_mut_stack_by_id("sword").is_none());
}

#[test]
pub fn an_emptied_stack_is_refilled_by_the_next_item() {
    let mut inventory = Inventory::new();
    inventory.add_item(Item::new(String::from("coin"), String::from("Coin"), vec![]));
    inventory.get_mut_stack_by_id("coin").unwrap().remove();
    assert!(inventory.get_stack_by_id("coin").is_none());
    assert!(inventory.get_mut_stack_by_id("coin").is_none());
    assert!(inventory.empty());
    inventory.add_item(Item::new(String::from("coin"), String::from("Coin"), vec![]));
    assert_eq!(inventory.get_stack_by_id("coin").unwrap().count(), 1);
}

#[test]
pub fn negative_amounts_change_no_stack() {
    let mut inventory = Inventory::new();
    inventory.add_item(Item::new(String::from("coin"), String::from("Coin"), vec![]));
    let stack = inventory.get_mut_stack_by_id("coin").unwrap();
    stack.add_n(-3);
    assert_eq!(stack.count(), 1);
    stack.remove_n(-3);
    assert_eq!(stack.count(), 1);
    stack.remove_n(1);
    assert!(stack.empty());
    stack.remove();
    assert_eq!(stack.count(), 0);
}

#[test]
pub fn keys_open_their_doors_only() {
    let key = KeyData::new(vec![String::from("cellar"), String::from("attic")]);
    assert!(key.opens("cellar"));
    assert!(key.opens("attic"));
    assert!(!key.opens("vault"));
    assert!(!key.opens(""));
    assert!(!KeyData::new(vec![]).opens("cellar"));
    let item = Item::new(
        String::from("key"),
        String::from("Brass key"),
        vec![ItemBehavior::Key(key), ItemBehavior::Equipment],
    );
    assert_eq!(item.behaviors().len(), 2);
}
