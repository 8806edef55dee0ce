use std::sync::Arc;

use dns_override::authority::{Mutation, OverrideAuthority};
use dns_override::handler::{begin, MessageType, OpCode, Query, ResponseCode, Step};
use dns_override::name::DnsName;
use dns_override::record::{RData, Record, RecordType, CLASS_IN};
use tokio::sync::{mpsc, RwLock};

fn late_query() -> Query {
    Query {
        name: DnsName::parse("late.example.com.").unwrap(),
        query_type: RecordType::A,
        op_code: OpCode::Query,
        message_type: MessageType::Query,
    }
}

/// `None` for a forward, else the answers of a NoError reply.
async fn ask(zone: Arc<RwLock<OverrideAuthority>>) -> Option<Vec<Record>> {
    let q = late_query();
    let guard = zone.read().await;
    match begin(&guard, &q) {
        Step::Forward => None,
        Step::Respond(r) => {
            assert_eq!(r.code, ResponseCode::NoError);
            Some(r.answers)
        }
    }
}

#[test]
fn concurrent_queries_around_an_add() {
    let runtime = tokio::runtime::Builder::new_multi_thread().worker_threads(4).enable_all().build().unwrap();
    runtime.block_on(async {
        let origin = DnsName::parse("example.com.").unwrap();
        let zone = Arc::new(RwLock::new(OverrideAuthority::new(origin)));
        let (tx, mut rx) = mpsc::channel::<Mutation>(10);
        let writer_zone = zone.clone();
        let writer = tokio::spawn(async move {
            let mut applied = 0;
            while let Some(m) = rx.recv().await {
                writer_zone.write().await.apply(m).unwrap();
                applied += 1;
            }
            applied
        });
        let expected = || {
            vec![Record {
                name: DnsName::parse("late.example.com.").unwrap(),
                class: CLASS_IN,
                ttl: 60,
                data: RData::ipv4(203, 0, 113, 9),
            }]
        };

        let first: Vec<_> = (0..100).map(|_| tokio::spawn(ask(zone.clone()))).collect();
        let add = Mutation::Add {
            name: DnsName::parse("late.example.com.").unwrap(),
            ttl: 60,
            data: RData::ipv4(203, 0, 113, 9),
            serial: 1,
        };
        tx.send(add).await.unwrap();
        drop(tx);
        assert_eq!(writer.await.unwrap(), 1);

        for h in first {
            match h.await.unwrap() {
                None => {}
                Some(answers) => assert_eq!(answers, expected()),
            }
        }
        let second: Vec<_> = (0..100).map(|_| tokio::spawn(ask(zone.clone()))).collect();
        for h in second {
            assert_eq!(h.await.unwrap(), Some(expected()));
        }
        assert_eq!(zone.read().await.version(), 1);
    });
}
