use std::sync::Arc;

use hydrus_gubbins::fanout::compute_digests;
use hydrus_gubbins::handle::{Delivery, FileHandle, MappingOutcome};
use hydrus_gubbins::hashes::{md5_digest, sha1_digest, sha512_digest};
use hydrus_gubbins::record::DigestRecord;
use tokio::sync::oneshot;

fn runtime() -> tokio::runtime::Runtime {
    tokio::runtime::Builder::new_multi_thread()
        .worker_threads(4)
        .build()
        .unwrap()
}

/// Fans the three digest workers out over the shared view on the pool and
/// delivers the joined record through a one-shot channel, as a background
/// dispatch does.
fn dispatch(
    rt: &tokio::runtime::Runtime,
    bytes: Arc<Vec<u8>>,
) -> oneshot::Receiver<DigestRecord> {
    let (tx, rx) = oneshot::channel();
    let md5_task = {
        let b = bytes.clone();
        rt.spawn_blocking(move || md5_digest(&b))
    };
    let sha1_task = {
        let b = bytes.clone();
        rt.spawn_blocking(move || sha1_digest(&b))
    };
    let sha512_task = {
        let b = bytes.clone();
        rt.spawn_blocking(move || sha512_digest(&b))
    };
    rt.spawn(async move {
        if let (Ok(md5), Ok(sha1), Ok(sha512)) =
            (md5_task.await, sha1_task.await, sha512_task.await)
        {
            if let Ok(record) = DigestRecord::assemble(md5, sha1, sha512) {
                let _ = tx.send(record);
            }
        }
    });
    rx
}

fn receive(rx: oneshot::Receiver<DigestRecord>) -> Delivery {
    match rx.blocking_recv() {
        Ok(record) => Delivery::Completed(record),
        Err(_) => Delivery::Lost,
    }
}

#[test]
fn concurrent_handles_match_sequential_computation() {
    let rt = runtime();
    let contents: Vec<Arc<Vec<u8>>> = (0..8u8)
        .map(|i| Arc::new(vec![i; 1 + 1000 * i as usize]))
        .collect();
    let sequential: Vec<DigestRecord> =
        contents.iter().map(|b| compute_digests(b)).collect();

    let mut pending: Vec<(FileHandle, oneshot::Receiver<DigestRecord>)> = Vec::new();
    for (i, bytes) in contents.iter().enumerate() {
        let handle = FileHandle::create(
            MappingOutcome::Mapped,
            format!("file-{}", i),
            "application/octet-stream".to_string(),
            None,
            None,
            None,
            None,
        )
        .unwrap();
        let rx = dispatch(&rt, bytes.clone());
        pending.push((handle, rx));
    }

    // Retrieve in the reverse of the creation order.
    let mut results: Vec<Option<DigestRecord>> = (0..contents.len()).map(|_| None).collect();
    while let Some((mut handle, rx)) = pending.pop() {
        let i = pending.len();
        let delivery = if handle.needs_result() { Some(receive(rx)) } else { None };
        results[i] = Some(handle.retrieve_digests(delivery).unwrap());
    }

    for (i, got) in results.iter().enumerate() {
        let got = got.as_ref().unwrap();
        assert_eq!(got.md5_bytes(), sequential[i].md5_bytes());
        assert_eq!(got.sha1_bytes(), sequential[i].sha1_bytes());
        assert_eq!(got.sha512_bytes(), sequential[i].sha512_bytes());
    }
}

#[test]
fn abandoned_dispatches_complete_harmlessly() {
    let rt = runtime();
    for i in 0..100u8 {
        let rx = dispatch(&rt, Arc::new(vec![i; 64]));
        drop(rx);
    }
    // The pool is still healthy: a fresh dispatch delivers the right record.
    let rx = dispatch(&rt, Arc::new(b"abc".to_vec()));
    match receive(rx) {
        Delivery::Completed(record) => {
            assert_eq!(hex::encode(record.md5_bytes()), "900150983cd24fb0d6963f7d28e17f72");
        }
        Delivery::Lost => panic!("the delivery should have arrived"),
    }
}

#[test]
fn a_torn_down_sender_surfaces_as_computation_lost() {
    let (tx, rx) = oneshot::channel::<DigestRecord>();
    drop(tx);
    let mut handle = FileHandle::create(
        MappingOutcome::Mapped,
        "some/file".to_string(),
        "application/octet-stream".to_string(),
        None,
        None,
        None,
        None,
    )
    .unwrap();
    let delivery = receive(rx);
    let r = handle.retrieve_digests(Some(delivery));
    assert_eq!(
        r.unwrap_err(),
        hydrus_gubbins::errors::DigestError::ComputationLost
    );
}
