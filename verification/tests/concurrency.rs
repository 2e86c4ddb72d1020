use std::sync::Arc;

use chatiplex::Chats;
use tokio::runtime::{Builder, Runtime};
use tokio::sync::RwLock;

fn workers(n: usize) -> Runtime {
    Builder::new_multi_thread().worker_threads(n).build().unwrap()
}

fn numbered(prefix: &str, n: usize) -> Vec<String> {
    (0..n).map(|i| format!("{prefix}{i}")).collect()
}

fn sorted(mut items: Vec<String>) -> Vec<String> {
    items.sort();
    items
}

#[test]
fn concurrent_appends_to_one_room_all_land() {
    let n = 200;
    let rt = workers(4);
    let chats = Arc::new(RwLock::new(Chats::new()));
    let replies: Vec<Vec<String>> = rt.block_on(async {
        let mut tasks = Vec::new();
        for i in 0..n {
            let chats = chats.clone();
            tasks.push(tokio::spawn(async move {
                chats.write().await.append_and_fetch("room", format!("m{i}"))
            }));
        }
        let mut replies = Vec::new();
        for task in tasks {
            replies.push(task.await.unwrap());
        }
        replies
    });
    let log = rt.block_on(async { chats.read().await.fetch("room") }).unwrap();

    assert_eq!(log.len(), n);
    assert_eq!(sorted(log.clone()), sorted(numbered("m", n)));

    let mut lengths: Vec<usize> = replies.iter().map(|reply| reply.len()).collect();
    lengths.sort();
    assert_eq!(lengths, (1..=n).collect::<Vec<usize>>());
    for (i, reply) in replies.iter().enumerate() {
        assert_eq!(reply[reply.len() - 1], format!("m{i}"));
        assert_eq!(reply[..], log[..reply.len()]);
    }
}

#[test]
fn concurrent_first_appends_create_the_room_once() {
    for _ in 0..50 {
        let rt = workers(2);
        let chats = Arc::new(RwLock::new(Chats::new()));
        let (left, right) = rt.block_on(async {
            let a = chats.clone();
            let b = chats.clone();
            let left = tokio::spawn(async move {
                a.write().await.append_and_fetch("new", "left".to_string())
            });
            let right = tokio::spawn(async move {
                b.write().await.append_and_fetch("new", "right".to_string())
            });
            (left.await.unwrap(), right.await.unwrap())
        });
        let log = rt.block_on(async { chats.read().await.fetch("new") }).unwrap();
        assert_eq!(log.len(), 2);
        assert_eq!(sorted(log.clone()), vec!["left".to_string(), "right".to_string()]);
        if log[0] == "left" {
            assert_eq!(left, vec!["left".to_string()]);
            assert_eq!(right, log);
        } else {
            assert_eq!(right, vec!["right".to_string()]);
            assert_eq!(left, log);
        }
    }
}

#[test]
fn concurrent_appends_to_different_rooms_stay_apart() {
    let rooms = 8;
    let each = 40;
    let rt = workers(4);
    let chats = Arc::new(RwLock::new(Chats::new()));
    rt.block_on(async {
        let mut tasks = Vec::new();
        for room in 0..rooms {
            let chats = chats.clone();
            tasks.push(tokio::spawn(async move {
                for i in 0..each {
                    let log = chats
                        .write()
                        .await
                        .append_and_fetch(&format!("room{room}"), format!("{room}:{i}"));
                    assert_eq!(log.len(), i + 1);
                    tokio::task::yield_now().await;
                }
            }));
        }
        for task in tasks {
            task.await.unwrap();
        }
    });
    let chats = rt.block_on(async { chats.read().await });
    for room in 0..rooms {
        let want: Vec<String> = (0..each).map(|i| format!("{room}:{i}")).collect();
        assert_eq!(chats.fetch(&format!("room{room}")), Some(want));
    }
}

#[test]
fn readers_beside_writers_see_whole_appends_only() {
    let n = 100;
    let rt = workers(4);
    let chats = Arc::new(RwLock::new(Chats::new()));
    let seen: Vec<Vec<Option<Vec<String>>>> = rt.block_on(async {
        let writer = {
            let chats = chats.clone();
            tokio::spawn(async move {
                for i in 0..n {
                    chats.write().await.append_and_fetch("room", format!("m{i}"));
                    tokio::task::yield_now().await;
                }
            })
        };
        let mut readers = Vec::new();
        for _ in 0..4 {
            let chats = chats.clone();
            readers.push(tokio::spawn(async move {
                let mut seen = Vec::new();
                for _ in 0..n {
                    seen.push(chats.read().await.fetch("room"));
                    tokio::task::yield_now().await;
                }
                seen
            }));
        }
        writer.await.unwrap();
        let mut all = Vec::new();
        for reader in readers {
            all.push(reader.await.unwrap());
        }
        all
    });
    let sent = numbered("m", n);
    for reader in seen {
        let mut last = 0;
        for snapshot in reader {
            let len = match snapshot {
                None => 0,
                Some(log) => {
                    assert!(!log.is_empty());
                    assert_eq!(log[..], sent[..log.len()]);
                    log.len()
                }
            };
            assert!(len >= last);
            last = len;
        }
    }
    let log = rt.block_on(async { chats.read().await.fetch("room") });
    assert_eq!(log, Some(sent));
}
