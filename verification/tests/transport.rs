use bytes::Bytes;
use futures::StreamExt;
use remoc::chmux;
use remop::dispatch::{Incoming, KeepSignal, Step};
use remop::lazy_blob::{
    connected_stream, received_payload, transfer, FetchCell, FetchError, FetchPlan, LazyBlob,
};

fn runtime() -> tokio::runtime::Runtime {
    tokio::runtime::Builder::new_current_thread().enable_all().build().unwrap()
}

/// One port over a multiplexer that runs in memory: the sending half as the
/// provider holds it, the receiving half as the fetching side holds it.
async fn open_port() -> (chmux::Sender, chmux::Receiver) {
    let (a_tx, b_rx) = futures::channel::mpsc::channel::<Bytes>(0);
    let (b_tx, a_rx) = futures::channel::mpsc::channel::<Bytes>(0);
    let a_rx = a_rx.map(Ok::<_, std::io::Error>);
    let b_rx = b_rx.map(Ok::<_, std::io::Error>);

    let (a, b) = futures::future::join(
        chmux::ChMux::new(chmux::Cfg::default(), a_tx, a_rx),
        chmux::ChMux::new(chmux::Cfg::default(), b_tx, b_rx),
    )
    .await;
    let (a_mux, a_client, a_listener) = a.unwrap();
    let (b_mux, b_client, mut b_listener) = b.unwrap();
    tokio::spawn(async move {
        let _ = a_mux.run().await;
    });
    tokio::spawn(async move {
        let _ = b_mux.run().await;
    });

    let (connected, accepted) = futures::future::join(a_client.connect(), b_listener.accept()).await;
    let (provider_tx, provider_rx) = connected.unwrap();
    let (fetcher_tx, fetcher_rx) = accepted.unwrap().unwrap();

    tokio::spawn(async move {
        let _held = (a_client, a_listener, b_client, b_listener, provider_rx, fetcher_tx);
        std::future::pending::<()>().await;
    });

    (provider_tx, fetcher_rx)
}

async fn fetch_over(
    stream: chmux::Receiver, max_data_size: usize,
) -> Result<chmux::DataBuf, FetchError> {
    let mut stream = connected_stream(Ok(stream), max_data_size)?;
    received_payload(stream.recv().await)
}

#[test]
fn stream_takes_the_declared_length() {
    runtime().block_on(async {
        let (_provider_tx, fetcher_rx) = open_port().await;
        assert_eq!(fetcher_rx.max_data_size(), chmux::Cfg::default().max_data_size);
        let ports = (fetcher_rx.local_port(), fetcher_rx.remote_port());
        match connected_stream(Ok(fetcher_rx), 1234) {
            Ok(stream) => {
                assert_eq!(stream.max_data_size(), 1234);
                assert_eq!((stream.local_port(), stream.remote_port()), ports);
            }
            Err(err) => panic!("stream was lost: {}", err.message()),
        }
    });
}

#[test]
fn million_zero_bytes_over_a_stream() {
    runtime().block_on(async {
        let content = vec![0u8; 1_000_000];
        let (blob, mut provider) = LazyBlob::provided(Bytes::from(content.clone()));
        let mut cell = FetchCell::new();

        let max_data_size = match blob.fetch(&mut cell) {
            Ok(FetchPlan::Start { max_data_size }) => max_data_size,
            other => panic!("unexpected plan: {:?}", other.ok()),
        };
        assert_eq!(max_data_size, 1_000_000);

        let (provider_tx, fetcher_rx) = open_port().await;
        let sending = match provider.poll(KeepSignal::Pending, Some(Incoming::Request(()))) {
            Step::Spawn(((), payload)) => transfer(payload, Some(Ok::<_, ()>(provider_tx))),
            _ => panic!("request was not accepted"),
        };
        let (mut tx, payload) = sending.unwrap();
        tokio::spawn(async move {
            let _ = tx.send(payload).await;
        });

        cell.resolve(fetch_over(fetcher_rx, max_data_size).await);

        for _ in 0..10 {
            let handle = blob.clone();
            assert!(matches!(handle.fetch(&mut cell), Ok(FetchPlan::Done)));
            match handle.get(&cell) {
                Ok(data) => assert_eq!(Vec::from(data), content),
                Err(err) => panic!("fetch failed: {}", err.message()),
            }
        }
    });
}

#[test]
fn peer_that_sends_too_much_is_cut_off() {
    runtime().block_on(async {
        let (mut provider_tx, fetcher_rx) = open_port().await;
        tokio::spawn(async move {
            let _ = provider_tx.send(Bytes::from(vec![1u8; 11])).await;
        });

        match fetch_over(fetcher_rx, 10).await {
            Err(err @ FetchError::RemoteReceive(chmux::RecvError::ExceedsMaxDataSize(10))) => {
                assert_eq!(err.message(), "receive error: data exceeds maximum allowed size of 10 bytes")
            }
            Err(err) => panic!("unexpected error: {}", err.message()),
            Ok(_) => panic!("oversized payload was accepted"),
        }
    });
}

#[test]
fn payload_of_the_declared_length_is_accepted() {
    runtime().block_on(async {
        let (mut provider_tx, fetcher_rx) = open_port().await;
        tokio::spawn(async move {
            let _ = provider_tx.send(Bytes::from(vec![7u8; 10])).await;
        });

        match fetch_over(fetcher_rx, 10).await {
            Ok(data) => assert_eq!(Vec::from(data), vec![7u8; 10]),
            Err(err) => panic!("fetch failed: {}", err.message()),
        }
    });
}

#[test]
fn stream_that_ends_without_a_payload_means_dropped() {
    runtime().block_on(async {
        let (provider_tx, fetcher_rx) = open_port().await;
        drop(provider_tx);

        assert!(matches!(fetch_over(fetcher_rx, 10).await, Err(FetchError::Dropped)));
    });
}
