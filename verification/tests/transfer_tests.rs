use ble_session::errors::BleError;
use ble_session::ids::{Role, FW_CHUNK_CHARACTERISTIC_UUID, KEYMAP_CHARACTERISTIC_UUID};
use ble_session::session::{Binding, BleState};
use ble_session::transfer::{sink_outcome, total_chunks, write_outcome, FirmwareTransfer, CHUNK_SIZE};

/// Drive a transfer the way the radio shell does, against a scripted
/// per-chunk write outcome. Returns the progress reports emitted, the
/// chunks that were successfully written, and the verdict.
fn run_transfer(
    image: Vec<u8>,
    write_ok: impl Fn(usize) -> bool,
) -> (Vec<u8>, Vec<Vec<u8>>, Result<(), BleError>) {
    let mut t = FirmwareTransfer::new(image);
    let mut progress: Vec<u8> = Vec::new();
    let mut sent: Vec<Vec<u8>> = Vec::new();
    let mut k: usize = 0;
    while let Some(chunk) = t.next_chunk() {
        let ok = write_ok(k);
        if let Err(e) = write_outcome(ok) {
            return (progress, sent, Err(e));
        }
        sent.push(chunk);
        progress.push(t.acknowledge());
        k += 1;
    }
    (progress, sent, Ok(()))
}

#[test]
fn chunk_counts_at_boundaries() {
    let expected: [(usize, usize); 7] =
        [(0, 0), (1, 1), (19, 1), (20, 1), (21, 2), (39, 2), (40, 2)];
    for (len, chunks) in expected {
        assert_eq!(total_chunks(len), chunks, "image length {}", len);
    }
}

#[test]
fn chunks_reconstruct_image_exactly() {
    for len in [0usize, 1, 19, 20, 21, 39, 40, 45, 100] {
        let image: Vec<u8> = (0..len).map(|i| (i % 251) as u8).collect();
        let (_, sent, verdict) = run_transfer(image.clone(), |_| true);
        assert_eq!(verdict, Ok(()));
        assert_eq!(sent.len(), total_chunks(len));
        let rebuilt: Vec<u8> = sent.concat();
        assert_eq!(rebuilt, image);
        for chunk in &sent[..sent.len().saturating_sub(1)] {
            assert_eq!(chunk.len(), CHUNK_SIZE);
        }
    }
}

#[test]
fn exact_multiple_has_no_empty_trailing_chunk() {
    let image = vec![7u8; 40];
    let (_, sent, verdict) = run_transfer(image, |_| true);
    assert_eq!(verdict, Ok(()));
    assert_eq!(sent.len(), 2);
    assert_eq!(sent[0].len(), 20);
    assert_eq!(sent[1].len(), 20);
}

#[test]
fn empty_image_completes_immediately() {
    let t = FirmwareTransfer::new(Vec::new());
    assert_eq!(t.total_chunks(), 0);
    assert!(t.is_complete());
    assert!(t.next_chunk().is_none());
    let (progress, sent, verdict) = run_transfer(Vec::new(), |_| true);
    assert_eq!(verdict, Ok(()));
    assert!(sent.is_empty());
    assert!(progress.is_empty());
}

#[test]
fn progress_is_strictly_increasing_and_ends_at_100() {
    for len in [1usize, 19, 20, 21, 40, 100, 2000] {
        let image = vec![0u8; len];
        let (progress, _, verdict) = run_transfer(image, |_| true);
        assert_eq!(verdict, Ok(()));
        assert!(!progress.is_empty());
        assert!(progress[0] > 0, "first report is above zero");
        for w in progress.windows(2) {
            assert!(w[0] < w[1], "progress must strictly increase: {:?}", progress);
        }
        assert_eq!(*progress.last().unwrap(), 100);
    }
}

#[test]
fn single_chunk_transfer_reports_100_once() {
    let (progress, _, verdict) = run_transfer(vec![1, 2, 3], |_| true);
    assert_eq!(verdict, Ok(()));
    assert_eq!(progress, vec![100]);
}

#[test]
fn exact_progress_values_for_five_chunks() {
    let image = vec![9u8; 100];
    let (progress, _, _) = run_transfer(image, |_| true);
    assert_eq!(progress, vec![20, 40, 60, 80, 100]);
}

#[test]
fn failed_chunk_aborts_after_exactly_k_chunks() {
    let image = vec![3u8; 100];  // 5 chunks
    for k in 0..5usize {
        let (progress, sent, verdict) = run_transfer(image.clone(), |i| i != k);
        assert_eq!(verdict, Err(BleError::TransportError));
        assert_eq!(sent.len(), k, "exactly {} chunks before the failure", k);
        assert_eq!(progress.len(), k);
    }
}

#[test]
fn no_silent_success_after_abort() {
    let image = vec![3u8; 50];  // 3 chunks
    let (progress, _, verdict) = run_transfer(image, |i| i < 2);
    assert!(verdict.is_err());
    assert_ne!(progress.last().copied(), Some(100));
}

#[test]
fn disconnect_between_chunks_fails_next_write_with_not_connected() {
    let mut s = BleState::new();
    s.begin_connect();
    let binding = Binding {
        keymap: Some(KEYMAP_CHARACTERISTIC_UUID),
        cmd: None,
        fw_chunk: Some(FW_CHUNK_CHARACTERISTIC_UUID),
        battery: None,
    };
    s.finish_connect("dev-1".to_string(), binding, None);

    let image = vec![1u8; 50];  // 3 chunks
    let mut t = FirmwareTransfer::new(image);
    let mut reported: Result<(), BleError> = Ok(());
    let mut sent: usize = 0;
    while let Some(_chunk) = t.next_chunk() {
        match s.write_target(Role::FirmwareChunk) {
            Ok(_handle) => {
                // the radio write succeeds; the peripheral acknowledges
                t.acknowledge();
                sent += 1;
            }
            Err(e) => {
                reported = Err(e);
                break;
            }
        }
        if sent == 1 {
            // another caller disconnects between two chunk sends
            s.disconnect_device();
        }
    }
    assert_eq!(sent, 1);
    assert_eq!(reported, Err(BleError::NotConnected), "the failure is reported, not swallowed");
}

#[test]
fn sink_failure_is_its_own_error_and_does_not_abort() {
    assert_eq!(sink_outcome(true), Ok(()));
    assert_eq!(sink_outcome(false), Err(BleError::EventSinkError));

    // the policy: a failing sink is reported, the remaining chunks still go out
    let image = vec![5u8; 50];  // 3 chunks
    let mut t = FirmwareTransfer::new(image);
    let mut sink_errors: usize = 0;
    let mut sent: usize = 0;
    while let Some(_chunk) = t.next_chunk() {
        // every radio write succeeds; every emission fails to deliver
        t.acknowledge();
        sent += 1;
        if sink_outcome(false).is_err() {
            sink_errors += 1;
        }
    }
    assert_eq!(sent, 3);
    assert_eq!(sink_errors, 3);
    assert!(t.is_complete());
}

#[test]
fn unbound_firmware_role_fails_transfer() {
    let mut s = BleState::new();
    s.begin_connect();
    let binding = Binding { keymap: None, cmd: None, fw_chunk: None, battery: None };
    s.finish_connect("dev-1".to_string(), binding, None);
    assert_eq!(s.write_target(Role::FirmwareChunk), Err(BleError::CharacteristicUnavailable));
}
