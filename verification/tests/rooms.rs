use server::rooms::Connection;
use server::rooms::Rooms;

fn conn(id: u128) -> Connection {
    Connection { id }
}

fn ids(members: Vec<Connection>) -> Vec<u128> {
    members.into_iter().map(|member| member.id).collect()
}

#[test]
fn new_registry_has_no_rooms() {
    let rooms = Rooms::new();
    assert!(!rooms.room_exists(1));
    assert!(rooms.members(1).is_empty());
    assert!(rooms.send_change(1, 9).is_empty());
}

#[test]
fn first_member_creates_the_room() {
    let mut rooms = Rooms::new();
    assert!(!rooms.room_exists(7));
    assert!(rooms.add_connection(7, conn(1)));
    assert!(!rooms.add_connection(7, conn(2)));
    assert!(rooms.room_exists(7));
    assert_eq!(ids(rooms.members(7)), vec![1, 2]);
}

#[test]
fn members_keep_the_order_of_joining() {
    let mut rooms = Rooms::new();
    for id in [5u128, 3, 9, 1] {
        rooms.add_connection(42, conn(id));
    }
    assert_eq!(ids(rooms.members(42)), vec![5, 3, 9, 1]);
    rooms.remove_connection(42, 9);
    assert_eq!(ids(rooms.members(42)), vec![5, 3, 1]);
}

#[test]
fn rooms_of_different_documents_are_apart() {
    let mut rooms = Rooms::new();
    assert!(rooms.add_connection(1, conn(10)));
    assert!(rooms.add_connection(2, conn(20)));
    assert_eq!(ids(rooms.members(1)), vec![10]);
    assert_eq!(ids(rooms.members(2)), vec![20]);
    rooms.remove_connection(1, 10);
    assert!(!rooms.room_exists(1));
    assert!(rooms.room_exists(2));
}

#[test]
fn last_departure_deletes_the_room() {
    let mut rooms = Rooms::new();
    rooms.add_connection(7, conn(1));
    rooms.add_connection(7, conn(2));
    rooms.remove_connection(7, 1);
    assert!(rooms.room_exists(7));
    rooms.remove_connection(7, 2);
    assert!(!rooms.room_exists(7));
    assert!(rooms.add_connection(7, conn(3)));
}

#[test]
fn removing_a_stranger_changes_nothing() {
    let mut rooms = Rooms::new();
    rooms.add_connection(7, conn(1));
    rooms.remove_connection(7, 99);
    rooms.remove_connection(8, 1);
    assert_eq!(ids(rooms.members(7)), vec![1]);
    assert!(!rooms.room_exists(8));
}

#[test]
fn a_connection_is_listed_once() {
    let mut rooms = Rooms::new();
    assert!(rooms.add_connection(7, conn(1)));
    assert!(!rooms.add_connection(7, conn(1)));
    assert_eq!(ids(rooms.members(7)), vec![1]);
    rooms.add_connection(7, conn(2));
    assert!(!rooms.add_connection(7, conn(1)));
    assert!(!rooms.add_connection(7, conn(2)));
    assert_eq!(ids(rooms.members(7)), vec![1, 2]);
    assert_eq!(ids(rooms.send_change(7, 2)), vec![1]);
    rooms.remove_connection(7, 1);
    assert_eq!(ids(rooms.members(7)), vec![2]);
}

#[test]
fn one_connection_may_be_in_several_rooms() {
    let mut rooms = Rooms::new();
    assert!(rooms.add_connection(7, conn(1)));
    assert!(rooms.add_connection(8, conn(1)));
    rooms.remove_connection(7, 1);
    assert!(!rooms.room_exists(7));
    assert_eq!(ids(rooms.members(8)), vec![1]);
}

#[test]
fn fan_out_leaves_out_the_originator() {
    let mut rooms = Rooms::new();
    for id in [1u128, 2, 3] {
        rooms.add_connection(7, conn(id));
    }
    assert_eq!(ids(rooms.send_change(7, 2)), vec![1, 3]);
    assert_eq!(ids(rooms.send_change(7, 1)), vec![2, 3]);
    assert_eq!(ids(rooms.send_change(7, 99)), vec![1, 2, 3]);
    assert!(rooms.send_change(8, 1).is_empty());
}

#[test]
fn a_lone_member_sends_to_nobody() {
    let mut rooms = Rooms::new();
    rooms.add_connection(7, conn(1));
    assert!(rooms.send_change(7, 1).is_empty());
}

#[test]
fn a_departed_member_gets_nothing() {
    let mut rooms = Rooms::new();
    for id in [1u128, 2, 3] {
        rooms.add_connection(7, conn(id));
    }
    rooms.remove_connection(7, 3);
    assert_eq!(ids(rooms.send_change(7, 1)), vec![2]);
}
