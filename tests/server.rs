use std::collections::VecDeque;

use computercraft::computer::Computer;
use computercraft::error::CCError;
use computercraft::protocol::{CCResponse, CCResponseKind, ComputerInfo, ComputerKind};
use computercraft::server::{received, NameSearch, Pool};

fn computer(tag: u32, name: &str) -> Computer<u32> {
    let mut c = Computer::new(tag);
    let info = ComputerInfo { name: Some(name.to_string()), kind: ComputerKind::Computer, advanced: false };
    c.handshake(CCResponse { id: 1, response: CCResponseKind::Handshake(info) }).unwrap();
    c
}

/// First available: a new computer from the channel, else one put back.
fn first_available(channel: &mut VecDeque<Computer<u32>>, pool: &mut Pool<u32>) -> Option<Computer<u32>> {
    channel.pop_front().or_else(|| pool.take())
}

#[test]
fn search_by_name_loses_no_computer() {
    let mut channel: VecDeque<Computer<u32>> = VecDeque::from(vec![computer(1, "a"), computer(2, "b"), computer(3, "b")]);
    let mut pool = Pool::new();
    let mut search = NameSearch::new("b");
    let found = loop {
        let c = first_available(&mut channel, &mut pool).unwrap();
        if let Some(c) = search.offer(c).unwrap() {
            break c;
        }
    };
    search.finish(&mut pool);
    assert_eq!(*found.handle(), 2);
    assert_eq!(pool.len(), 1);
    let mut rest: Vec<u32> = Vec::new();
    while let Some(c) = first_available(&mut channel, &mut pool) {
        rest.push(*c.handle());
    }
    rest.sort();
    assert_eq!(rest, vec![1, 3]);
}

#[test]
fn search_lets_go_of_computers_without_identity() {
    let mut pool = Pool::new();
    let mut search = NameSearch::new("x");
    assert!(matches!(search.offer(Computer::new(7u32)), Err(CCError::HandshakeFailed)));
    assert!(search.offer(computer(8, "y")).unwrap().is_none());
    search.finish(&mut pool);
    assert_eq!(pool.len(), 1);
    let c = pool.take().unwrap();
    assert_eq!(*c.handle(), 8);
    assert!(c.computer_info().is_ok());
    assert!(pool.take().is_none());
}

#[test]
fn closed_channel_is_server_failure() {
    assert!(matches!(received::<u8>(None), Err(CCError::ServerThreadFailed)));
    assert_eq!(received(Some(4u8)).unwrap(), 4);
}
